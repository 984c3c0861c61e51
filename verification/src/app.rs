//! The state that every request works on: the server's secret key and the
//! three collections that are persisted.

use vstd::prelude::*;

use crate::device::register::{PendingView, VerificationDevices};
use crate::device::{first_device, has_id, spec_set, Device, DeviceView, Devices};
use crate::error::Error;
use crate::password::{PasswordView, Passwords};

verus! {

/// The state as mathematical values.
pub struct AppStateView {
    /// The server's secret key.
    pub secret_key: Seq<u8>,
    /// The enrolled devices.
    pub devices: Seq<DeviceView>,
    /// The devices that await verification, each with its code.
    pub verification_devices: Seq<PendingView>,
    /// The stored passwords.
    pub passwords: Seq<PasswordView>,
}

/// The shareable state of the application.
#[derive(Debug)]
pub struct AppState {
    /// The secret key to communicate with the clients.
    pub secret_key: [u8; 32],
    /// The enrolled devices.
    pub devices: Devices,
    /// The devices that await verification.
    pub verification_devices: VerificationDevices,
    /// The stored passwords.
    pub passwords: Passwords,
}

impl View for AppState {
    type V = AppStateView;

    open spec fn view(&self) -> AppStateView {
        AppStateView {
            secret_key: self.secret_key@,
            devices: self.devices@,
            verification_devices: self.verification_devices@,
            passwords: self.passwords@,
        }
    }
}

impl AppState {
    /// A state without devices and passwords.
    pub fn new(secret_key: [u8; 32]) -> (res: Self)
        ensures
            res@ == (AppStateView {
                secret_key: secret_key@,
                devices: Seq::empty(),
                verification_devices: Seq::empty(),
                passwords: Seq::empty(),
            }),
    {
        AppState {
            secret_key,
            devices: Devices::default(),
            verification_devices: VerificationDevices::default(),
            passwords: Passwords::default(),
        }
    }

    /// Set the devices.
    pub fn set_devices(&mut self, devices: Devices)
        ensures
            final(self)@ == (AppStateView { devices: devices@, ..old(self)@ }),
    {
        self.devices = devices;
    }

    /// Get the devices.
    pub fn devices(&self) -> (res: &Devices)
        ensures
            res@ == self@.devices,
    {
        &self.devices
    }

    /// Get the first enrolled device with the ID.
    pub fn device(&self, device_id: &str) -> (res: Result<Device, Error>)
        ensures
            match res {
                Ok(device) => has_id(self@.devices, device_id@) && device@ == first_device(
                    self@.devices,
                    device_id@,
                ),
                Err(e) => e == Error::UnknownDevice && !has_id(self@.devices, device_id@),
            },
    {
        match self.devices.find(device_id) {
            Some(device) => Ok(device.clone()),
            None => Err(Error::UnknownDevice),
        }
    }

    /// Override a device: every enrolled device with its ID becomes a copy of
    /// it.
    pub fn set_device(&mut self, device: &Device)
        ensures
            final(self)@ == (AppStateView {
                devices: spec_set(old(self)@.devices, device@),
                ..old(self)@
            }),
    {
        self.devices.set(device);
    }

    /// Set the devices that are awaiting verification.
    pub fn set_verification_devices(&mut self, devices: VerificationDevices)
        ensures
            final(self)@ == (AppStateView { verification_devices: devices@, ..old(self)@ }),
    {
        self.verification_devices = devices;
    }

    /// Get the devices that are awaiting verification.
    pub fn verification_devices(&self) -> (res: &VerificationDevices)
        ensures
            res@ == self@.verification_devices,
    {
        &self.verification_devices
    }
}

} // verus!
