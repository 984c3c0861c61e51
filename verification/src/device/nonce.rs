//! Single-use nonces.

use vstd::prelude::*;

use crate::app::{AppState, AppStateView};
use crate::device::{first_index, has_id, spec_set, DeviceView};
use crate::error::Error;
use crate::text::{opt_str_view, str_trim, trimmed};

verus! {

/// A nonce of twelve bytes, as stored with a device and sent to its client.
#[derive(Debug, PartialEq, Eq)]
pub struct SerializableNonce(pub [u8; 12]);

impl View for SerializableNonce {
    type V = Seq<u8>;

    open spec fn view(&self) -> Seq<u8> {
        self.0@
    }
}

impl Clone for SerializableNonce {
    fn clone(&self) -> (res: Self)
        ensures
            res == *self,
    {
        SerializableNonce(self.0)
    }
}

impl SerializableNonce {
    /// Generate a new nonce from a series of random bytes.
    pub fn generate() -> (res: Self) {
        SerializableNonce(random_nonce_bytes())
    }

    /// Create it from the twelve bytes of a cipher nonce.
    pub fn from_nonce(nonce: [u8; 12]) -> (res: Self)
        ensures
            res.0 == nonce,
    {
        SerializableNonce(nonce)
    }

    /// The twelve bytes, as the cipher takes them.
    pub fn to_nonce(&self) -> (res: &[u8; 12])
        ensures
            *res == self.0,
    {
        &self.0
    }

    /// Convert it to a byte slice.
    pub fn as_slice(&self) -> (res: &[u8])
        ensures
            res@ == self@,
            res@.len() == 12,
    {
        self.0.as_slice()
    }
}

/// The state after a nonce was stored for the device at index `i` of the
/// enrolled list: every enrolled device with that device's identifier becomes
/// a copy of it that holds the nonce.
pub open spec fn spec_nonce_state(state: AppStateView, i: int, nonce: Seq<u8>) -> AppStateView {
    AppStateView {
        devices: spec_set(
            state.devices,
            DeviceView { nonce: Some(nonce), ..state.devices[i] },
        ),
        ..state
    }
}

/// Whether `res` and `after` are what a nonce request gives in state
/// `before`: a nonce of twelve bytes, stored with the device that the header
/// names; or a refusal, with nothing changed.
pub open spec fn spec_nonce_issued(
    client_id_header: Option<Seq<char>>,
    before: AppStateView,
    after: AppStateView,
    res: Result<SerializableNonce, Error>,
) -> bool {
    match res {
        Ok(nonce) => {
            &&& client_id_header matches Some(header)
            &&& nonce@.len() == 12
            &&& has_id(before.devices, trimmed(header))
            &&& after == spec_nonce_state(
                before,
                first_index(before.devices, trimmed(header)),
                nonce@,
            )
        },
        Err(e) => {
            &&& after == before
            &&& match client_id_header {
                None => e == Error::NonceWithoutClientId,
                Some(header) => e == Error::NonceForUnknownDevice && !has_id(
                    before.devices,
                    trimmed(header),
                ),
            }
        },
    }
}

/// Store a nonce with the first enrolled device of an identifier, in place of
/// any earlier one, and hand it back.
pub fn issue_nonce(client_id: &str, nonce: SerializableNonce, state: &mut AppState) -> (res: Result<
    SerializableNonce,
    Error,
>)
    ensures
        match res {
            Ok(issued) => {
                &&& issued@ == nonce@
                &&& has_id(old(state)@.devices, client_id@)
                &&& final(state)@ == spec_nonce_state(
                    old(state)@,
                    first_index(old(state)@.devices, client_id@),
                    nonce@,
                )
            },
            Err(e) => {
                &&& e == Error::NonceForUnknownDevice
                &&& !has_id(old(state)@.devices, client_id@)
                &&& final(state)@ == old(state)@
            },
        },
{
    let mut device = match state.device(client_id) {
        Ok(device) => device,
        Err(_) => {
            return Err(Error::NonceForUnknownDevice);
        },
    };
    device.nonce = Some(nonce.clone());
    state.set_device(&device);
    Ok(nonce)
}

/// Generate a single-use nonce for the device.
///
/// `client_id_header` is the value of the client's identifier header, if the
/// request has one; white space around it is ignored. The nonce is stored with
/// the first enrolled device of that identifier, in place of any earlier one,
/// and returned.
pub fn nonce(client_id_header: Option<&str>, state: &mut AppState) -> (res: Result<
    SerializableNonce,
    Error,
>)
    ensures
        spec_nonce_issued(opt_str_view(client_id_header), old(state)@, final(state)@, res),
{
    match client_id_header {
        Some(header) => {
            let client_id = str_trim(header);
            if state.devices.find(client_id).is_none() {
                return Err(Error::NonceForUnknownDevice);
            }
            issue_nonce(client_id, SerializableNonce::generate(), state)
        },
        None => Err(Error::NonceWithoutClientId),
    }
}

/// Calls `rand::random` for twelve bytes. Nothing is assumed of the bytes: they
/// differ from call to call. It panics where the generator of the thread
/// cannot be seeded.
#[verifier::external_body]
fn random_nonce_bytes() -> (bytes: [u8; 12]) {
    rand::random::<[u8; 12]>()
}

} // verus!
