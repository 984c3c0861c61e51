//! The device registry: the devices that are enrolled with the server.

pub mod nonce;
pub mod register;

use vstd::prelude::*;

use crate::app::AppState;
use crate::crypto::{
    decrypt, encrypt, shared_key, spec_decrypt, spec_encrypt, x25519_shared, CryptoError,
};
use crate::device::nonce::SerializableNonce;
use crate::text::str_eq;
use crate::types::PublicDevice;

verus! {

/// What a device record holds, as mathematical values.
pub struct DeviceView {
    /// The identifier the server assigned.
    pub id: Seq<char>,
    /// The name the user gave.
    pub name: Seq<char>,
    /// The device's public key.
    pub public_key: Seq<u8>,
    /// The nonce that is outstanding for the device, if any.
    pub nonce: Option<Seq<u8>>,
}

/// Whether some record of the list has this identifier.
pub open spec fn has_id(devices: Seq<DeviceView>, id: Seq<char>) -> bool {
    exists|i: int| 0 <= i < devices.len() && (#[trigger] devices[i]).id == id
}

/// Whether index `i` holds the first record of the list with this identifier.
pub open spec fn is_first_with_id(devices: Seq<DeviceView>, id: Seq<char>, i: int) -> bool {
    &&& 0 <= i < devices.len()
    &&& devices[i].id == id
    &&& forall|j: int| 0 <= j < i ==> (#[trigger] devices[j]).id != id
}

/// The index of the first record of the list with this identifier.
pub open spec fn first_index(devices: Seq<DeviceView>, id: Seq<char>) -> int {
    choose|i: int| is_first_with_id(devices, id, i)
}

/// The first record of the list with this identifier.
pub open spec fn first_device(devices: Seq<DeviceView>, id: Seq<char>) -> DeviceView {
    devices[first_index(devices, id)]
}

/// A list that has a record with an identifier has a first such record, and
/// only one index holds it.
pub proof fn lemma_first_with_id(devices: Seq<DeviceView>, id: Seq<char>)
    requires
        has_id(devices, id),
    ensures
        is_first_with_id(devices, id, first_index(devices, id)),
        first_device(devices, id).id == id,
        forall|i: int|
            is_first_with_id(devices, id, i) ==> i == first_index(devices, id),
{
    let n = choose|i: int| 0 <= i < devices.len() && (#[trigger] devices[i]).id == id;
    lemma_first_up_to(devices, id, n);
    let k = first_index(devices, id);
    assert forall|i: int| is_first_with_id(devices, id, i) implies i == k by {
        if i < k {
            assert(devices[i].id != id);
        } else if k < i {
            assert(devices[k].id != id);
        }
    }
}

/// Below or at an index that holds the identifier lies the first index that
/// holds it.
proof fn lemma_first_up_to(devices: Seq<DeviceView>, id: Seq<char>, n: int)
    requires
        0 <= n < devices.len(),
        devices[n].id == id,
    ensures
        exists|k: int| is_first_with_id(devices, id, k),
    decreases n,
{
    if forall|j: int| 0 <= j < n ==> (#[trigger] devices[j]).id != id {
        assert(is_first_with_id(devices, id, n));
    } else {
        let j = choose|j: int| 0 <= j < n && (#[trigger] devices[j]).id == id;
        lemma_first_up_to(devices, id, j);
    }
}

/// The list in which every record with the identifier of `device` is replaced
/// by `device`.
pub open spec fn spec_set(devices: Seq<DeviceView>, device: DeviceView) -> Seq<DeviceView> {
    Seq::new(
        devices.len(),
        |i: int|
            if devices[i].id == device.id {
                device
            } else {
                devices[i]
            },
    )
}

/// Adding a record adds its identifier to those of the list, and no other.
pub proof fn lemma_has_id_push(devices: Seq<DeviceView>, device: DeviceView, id: Seq<char>)
    ensures
        has_id(devices.push(device), id) <==> has_id(devices, id) || device.id == id,
{
    let pushed = devices.push(device);
    if has_id(devices, id) {
        let i = choose|i: int| 0 <= i < devices.len() && (#[trigger] devices[i]).id == id;
        assert(pushed[i].id == id);
    }
    if device.id == id {
        assert(pushed[devices.len() as int].id == id);
    }
    if has_id(pushed, id) {
        let i = choose|i: int| 0 <= i < pushed.len() && (#[trigger] pushed[i]).id == id;
        if i < devices.len() {
            assert(devices[i].id == id);
        }
    }
}

/// Overriding a device leaves every record its identifier, so the list has
/// the same identifiers, at the same places, as before.
pub proof fn lemma_set_keeps_ids(devices: Seq<DeviceView>, device: DeviceView, id: Seq<char>)
    ensures
        spec_set(devices, device).len() == devices.len(),
        forall|i: int|
            0 <= i < devices.len() ==> (#[trigger] spec_set(devices, device)[i]).id
                == devices[i].id,
        has_id(spec_set(devices, device), id) <==> has_id(devices, id),
        forall|i: int|
            is_first_with_id(spec_set(devices, device), id, i) <==> is_first_with_id(
                devices,
                id,
                i,
            ),
{
    let set = spec_set(devices, device);
    assert forall|i: int| 0 <= i < devices.len() implies (#[trigger] set[i]).id
        == devices[i].id by {}
    if has_id(devices, id) {
        let i = choose|i: int| 0 <= i < devices.len() && (#[trigger] devices[i]).id == id;
        assert(set[i].id == id);
    }
    if has_id(set, id) {
        let i = choose|i: int| 0 <= i < set.len() && (#[trigger] set[i]).id == id;
        assert(devices[i].id == id);
    }
    assert forall|i: int| is_first_with_id(set, id, i) <==> is_first_with_id(devices, id, i) by {
        if is_first_with_id(set, id, i) {
            assert(forall|j: int| 0 <= j < i ==> (#[trigger] devices[j]).id == set[j].id);
        }
        if is_first_with_id(devices, id, i) {
            assert(forall|j: int| 0 <= j < i ==> (#[trigger] set[j]).id == devices[j].id);
        }
    }
}

/// What a client may see of a device.
pub open spec fn spec_public_device(device: DeviceView) -> crate::types::PublicDeviceView {
    crate::types::PublicDeviceView { id: device.id, name: device.name }
}

/// A list of endpoints.
#[derive(Debug, PartialEq)]
pub struct Devices {
    /// The devices.
    pub devices: Vec<Device>,
}

impl View for Devices {
    type V = Seq<DeviceView>;

    open spec fn view(&self) -> Seq<DeviceView> {
        self.devices@.map_values(|device: Device| device@)
    }
}

impl Default for Devices {
    fn default() -> (res: Self)
        ensures
            res@ == Seq::<DeviceView>::empty(),
    {
        Devices { devices: Vec::new() }
    }
}

impl Clone for Devices {
    fn clone(&self) -> (res: Self)
        ensures
            res@ == self@,
    {
        let mut devices: Vec<Device> = Vec::new();
        let mut i: usize = 0;
        while i < self.devices.len()
            invariant
                i <= self.devices.len(),
                devices@.len() == i,
                forall|j: int| 0 <= j < i ==> (#[trigger] devices@[j])@ == self.devices@[j]@,
            decreases self.devices.len() - i,
        {
            devices.push(self.devices[i].clone());
            i += 1;
        }
        let res = Devices { devices };
        assert(res@ =~= self@);
        res
    }
}

impl Devices {
    /// Register a new device: it becomes the last of the list.
    pub fn register(&mut self, device: Device)
        ensures
            final(self)@ == old(self)@.push(device@),
    {
        self.devices.push(device);
        assert(self@ =~= old(self)@.push(device@));
    }

    /// Get the first device with the ID.
    pub fn find(&self, id: &str) -> (res: Option<&Device>)
        ensures
            match res {
                Some(device) => has_id(self@, id@) && device@ == first_device(self@, id@),
                None => !has_id(self@, id@),
            },
    {
        let mut i: usize = 0;
        while i < self.devices.len()
            invariant
                i <= self.devices.len(),
                forall|j: int| 0 <= j < i ==> (#[trigger] self@[j]).id != id@,
            decreases self.devices.len() - i,
        {
            if str_eq(self.devices[i].id.as_str(), id) {
                proof {
                    assert(is_first_with_id(self@, id@, i as int));
                    lemma_first_with_id(self@, id@);
                }
                return Some(&self.devices[i]);
            }
            i += 1;
        }
        None
    }

    /// Override a device: every stored device with its ID becomes a copy of it.
    pub fn set(&mut self, device: &Device)
        ensures
            final(self)@ == spec_set(old(self)@, device@),
    {
        let mut i: usize = 0;
        while i < self.devices.len()
            invariant
                i <= self.devices.len(),
                self.devices.len() == old(self).devices.len(),
                forall|j: int|
                    0 <= j < i ==> (#[trigger] self.devices@[j])@ == spec_set(
                        old(self)@,
                        device@,
                    )[j],
                forall|j: int|
                    i <= j < self.devices.len() ==> (#[trigger] self.devices@[j])@ == old(
                        self,
                    ).devices@[j]@,
            decreases self.devices.len() - i,
        {
            if str_eq(self.devices[i].id.as_str(), device.id.as_str()) {
                self.devices.set(i, device.clone());
            }
            assert(self.devices@[i as int]@ == spec_set(old(self)@, device@)[i as int]);
            i += 1;
        }
        assert(self@ =~= spec_set(old(self)@, device@));
    }

    /// Get a vector of devices as allowed to be shown to the clients.
    pub fn to_public_vec(&self) -> (res: Vec<PublicDevice>)
        ensures
            res@.len() == self@.len(),
            forall|i: int|
                0 <= i < self@.len() ==> (#[trigger] res@[i])@ == spec_public_device(self@[i]),
    {
        let mut res: Vec<PublicDevice> = Vec::new();
        let mut i: usize = 0;
        while i < self.devices.len()
            invariant
                i <= self.devices.len(),
                res@.len() == i,
                forall|j: int|
                    0 <= j < i ==> (#[trigger] res@[j])@ == spec_public_device(self@[j]),
            decreases self.devices.len() - i,
        {
            res.push(self.devices[i].to_public_device());
            i += 1;
        }
        res
    }

    /// Whether there are no registered devices.
    pub fn is_empty(&self) -> (res: bool)
        ensures
            res == (self@.len() == 0),
    {
        self.devices.is_empty()
    }
}

/// A device.
#[derive(Debug, PartialEq)]
pub struct Device {
    /// Random generated identifier of the device.
    pub id: String,
    /// Name of the device as configured by the user.
    pub name: String,
    /// The public key of the device.
    pub public_key: [u8; 32],
    /// A single use nonce.
    pub nonce: Option<SerializableNonce>,
}

impl View for Device {
    type V = DeviceView;

    open spec fn view(&self) -> DeviceView {
        DeviceView {
            id: self.id@,
            name: self.name@,
            public_key: self.public_key@,
            nonce: match self.nonce {
                Some(nonce) => Some(nonce@),
                None => None,
            },
        }
    }
}

impl Clone for Device {
    fn clone(&self) -> (res: Self)
        ensures
            res@ == self@,
    {
        Device {
            id: self.id.clone(),
            name: self.name.clone(),
            public_key: self.public_key,
            nonce: match &self.nonce {
                Some(nonce) => Some(nonce.clone()),
                None => None,
            },
        }
    }
}

/// Why a device could not encrypt, decrypt or show its nonce.
#[derive(Debug, PartialEq, Eq, Structural, Clone, Copy)]
pub enum DeviceError {
    /// No nonce is stored for the device.
    NoNonce,
    /// The cipher refused the message.
    Crypto(CryptoError),
}

/// What `Device::encrypt` returns for a device, the server's key and a message.
pub open spec fn spec_device_encrypt(device: DeviceView, server_key: Seq<u8>, message: Seq<char>)
    -> Result<Seq<u8>, DeviceError> {
    match device.nonce {
        None => Err(DeviceError::NoNonce),
        Some(nonce) => match spec_encrypt(
            x25519_shared(server_key, device.public_key),
            nonce,
            message,
        ) {
            Ok(sealed) => Ok(sealed),
            Err(e) => Err(DeviceError::Crypto(e)),
        },
    }
}

/// What `Device::decrypt` returns for a device, the server's key and a ciphertext.
pub open spec fn spec_device_decrypt(
    device: DeviceView,
    server_key: Seq<u8>,
    cipher_bytes: Seq<u8>,
) -> Result<Seq<char>, DeviceError> {
    match device.nonce {
        None => Err(DeviceError::NoNonce),
        Some(nonce) => match spec_decrypt(
            x25519_shared(server_key, device.public_key),
            nonce,
            cipher_bytes,
        ) {
            Ok(text) => Ok(text),
            Err(e) => Err(DeviceError::Crypto(e)),
        },
    }
}

impl Device {
    /// A device without a nonce.
    pub fn new(id: String, name: String, public_key: [u8; 32]) -> (res: Self)
        ensures
            res@ == (DeviceView {
                id: id@,
                name: name@,
                public_key: public_key@,
                nonce: None,
            }),
    {
        Device { id, name, public_key, nonce: None }
    }

    /// The identifier of the device.
    pub fn id(&self) -> (res: &str)
        ensures
            res@ == self@.id,
    {
        self.id.as_str()
    }

    /// The name of the device.
    pub fn name(&self) -> (res: &str)
        ensures
            res@ == self@.name,
    {
        self.name.as_str()
    }

    /// Create a public view device of this device.
    pub fn to_public_device(&self) -> (res: PublicDevice)
        ensures
            res@ == spec_public_device(self@),
    {
        PublicDevice { id: self.id.clone(), name: self.name.clone() }
    }

    /// Generate a nonce. Whatever nonce was stored before is replaced: a device
    /// never has more than one.
    pub fn generate_nonce(&mut self)
        ensures
            final(self)@.nonce is Some,
            final(self)@.nonce.unwrap().len() == 12,
            final(self)@.id == old(self)@.id,
            final(self)@.name == old(self)@.name,
            final(self)@.public_key == old(self)@.public_key,
    {
        self.nonce = Some(SerializableNonce::generate());
    }

    /// Reset the nonce so it a new one needs to be requested.
    pub fn clear_nonce(&mut self)
        ensures
            final(self)@ == (DeviceView { nonce: None, ..old(self)@ }),
    {
        self.nonce = None;
    }

    /// Encrypt a message to send, under the key shared with the device and the
    /// device's stored nonce.
    pub fn encrypt(&self, server_key: &[u8; 32], message: &str) -> (res: Result<
        Vec<u8>,
        DeviceError,
    >)
        ensures
            device_sealed_view(res) == spec_device_encrypt(self@, server_key@, message@),
    {
        match &self.nonce {
            Some(nonce) => match encrypt(&self.shared_key(server_key), nonce.to_nonce(), message) {
                Ok(sealed) => Ok(sealed),
                Err(e) => Err(DeviceError::Crypto(e)),
            },
            None => Err(DeviceError::NoNonce),
        }
    }

    /// Decrypt a message received, under the key shared with the device and the
    /// device's stored nonce.
    pub fn decrypt(&self, server_key: &[u8; 32], cipher_bytes: &[u8]) -> (res: Result<
        String,
        DeviceError,
    >)
        ensures
            device_opened_view(res) == spec_device_decrypt(self@, server_key@, cipher_bytes@),
    {
        match &self.nonce {
            Some(nonce) => match decrypt(
                &self.shared_key(server_key),
                nonce.to_nonce(),
                cipher_bytes,
            ) {
                Ok(text) => Ok(text),
                Err(e) => Err(DeviceError::Crypto(e)),
            },
            None => Err(DeviceError::NoNonce),
        }
    }

    /// Get the shared key to communicate with this device.
    pub fn shared_key(&self, server_key: &[u8; 32]) -> (res: [u8; 32])
        ensures
            res@ == x25519_shared(server_key@, self@.public_key),
    {
        shared_key(server_key, &self.public_key)
    }

    /// Get the nonce, an error when it's not set.
    pub fn nonce(&self) -> (res: Result<&SerializableNonce, DeviceError>)
        ensures
            match res {
                Ok(nonce) => self@.nonce == Some(nonce@),
                Err(e) => self@.nonce is None && e == DeviceError::NoNonce,
            },
    {
        match &self.nonce {
            Some(nonce) => Ok(nonce),
            None => Err(DeviceError::NoNonce),
        }
    }
}

/// Get a list of all device endpoints.
pub fn devices(state: &AppState) -> (res: Vec<PublicDevice>)
    ensures
        res@.len() == state@.devices.len(),
        forall|i: int|
            0 <= i < res@.len() ==> (#[trigger] res@[i])@ == spec_public_device(
                state@.devices[i],
            ),
{
    state.devices.to_public_vec()
}

/// The view of a `Device::encrypt` result.
pub open spec fn device_sealed_view(res: Result<Vec<u8>, DeviceError>) -> Result<
    Seq<u8>,
    DeviceError,
> {
    match res {
        Ok(bytes) => Ok(bytes@),
        Err(e) => Err(e),
    }
}

/// The view of a `Device::decrypt` result.
pub open spec fn device_opened_view(res: Result<String, DeviceError>) -> Result<
    Seq<char>,
    DeviceError,
> {
    match res {
        Ok(text) => Ok(text@),
        Err(e) => Err(e),
    }
}

} // verus!
