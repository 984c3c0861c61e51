//! The encrypted request pipeline: a request body is opened with the key and
//! the nonce of the device that sent it, and the reply is sealed with the same
//! key and nonce.
//!
//! A nonce serves one cycle of request and reply. It is taken out of the
//! device's record before the body is decrypted, so that it is gone whether
//! or not the request succeeds, and travels with the opened body until the
//! reply is sealed.

use vstd::prelude::*;
use vstd::slice::slice_to_vec;
use vstd::utf8::encode_utf8;

use crate::app::{AppState, AppStateView};
use crate::crypto::{decrypt, encrypt, spec_decrypt, spec_encrypt, x25519_shared};
use crate::device::nonce::SerializableNonce;
use crate::device::{first_device, has_id, spec_set, DeviceView};
use crate::error::Error;
use crate::text::opt_str_view;

verus! {

/// What a body holds, as mathematical values.
pub struct EncryptedBodyView {
    /// The text of the payload.
    pub data: Seq<char>,
    /// The key shared with the client.
    pub key: Option<Seq<u8>>,
    /// The identifier of the client.
    pub client_id: Option<Seq<char>>,
    /// The nonce of the cycle.
    pub nonce: Option<Seq<u8>>,
}

/// A payload that's encrypted on the wire.
///
/// A body that was opened from a request knows the client, the shared key and
/// the nonce of the cycle. A body that a handler made holds the payload
/// alone.
#[derive(Debug)]
pub struct EncryptedBody {
    /// The payload, as JSON text.
    pub data: String,
    /// The shared key to encrypt the message.
    pub key: Option<[u8; 32]>,
    /// The client identifier.
    pub client_id: Option<String>,
    /// The nonce of the cycle.
    pub nonce: Option<SerializableNonce>,
}

impl View for EncryptedBody {
    type V = EncryptedBodyView;

    open spec fn view(&self) -> EncryptedBodyView {
        EncryptedBodyView {
            data: self.data@,
            key: match self.key {
                Some(key) => Some(key@),
                None => None,
            },
            client_id: match self.client_id {
                Some(id) => Some(id@),
                None => None,
            },
            nonce: match self.nonce {
                Some(nonce) => Some(nonce@),
                None => None,
            },
        }
    }
}

/// The payload of a request body: a request without a body has the empty
/// payload, every other body is decrypted.
pub open spec fn spec_payload(key: Seq<u8>, nonce: Seq<u8>, body: Seq<u8>) -> Result<
    Seq<char>,
    crate::crypto::CryptoError,
> {
    if body.len() == 0 {
        Ok(Seq::empty())
    } else {
        spec_decrypt(key, nonce, body)
    }
}

/// What opening a request gives: the opened body, or the reason for refusing
/// the request.
pub open spec fn spec_from_request(
    state: AppStateView,
    client_id_header: Option<Seq<char>>,
    body: Seq<u8>,
) -> Result<EncryptedBodyView, Error> {
    match client_id_header {
        None => Err(Error::MissingClientId),
        Some(id) => if !has_id(state.devices, id) {
            Err(Error::UnknownDevice)
        } else {
            let device = first_device(state.devices, id);
            let key = x25519_shared(state.secret_key, device.public_key);
            match device.nonce {
                None => Err(Error::NoNonce),
                Some(nonce) => match spec_payload(key, nonce, body) {
                    Ok(data) => Ok(
                        EncryptedBodyView {
                            data,
                            key: Some(key),
                            client_id: Some(id),
                            nonce: Some(nonce),
                        },
                    ),
                    Err(_) => Err(Error::Decrypt),
                },
            }
        },
    }
}

/// The state after a request was opened: where the device is enrolled and
/// has a nonce, the nonce is gone from every record of that device, whether
/// or not the body could be decrypted. Else nothing changes.
pub open spec fn spec_consume_nonce(state: AppStateView, client_id_header: Option<Seq<char>>)
    -> AppStateView {
    match client_id_header {
        None => state,
        Some(id) => if has_id(state.devices, id) && first_device(state.devices, id).nonce
            is Some {
            AppStateView {
                devices: spec_set(
                    state.devices,
                    DeviceView { nonce: None, ..first_device(state.devices, id) },
                ),
                ..state
            }
        } else {
            state
        },
    }
}

/// What sealing a reply for an opened request gives.
pub open spec fn spec_respond_to(reply: EncryptedBodyView, request: EncryptedBodyView) -> Result<
    Seq<u8>,
    Error,
> {
    match (request.key, request.nonce) {
        (Some(key), Some(nonce)) => match spec_encrypt(key, nonce, reply.data) {
            Ok(sealed) => Ok(sealed),
            Err(_) => Err(Error::Encrypt),
        },
        _ => Err(Error::KeyNotSet),
    }
}

/// The view of sealed bytes or an error.
pub open spec fn bytes_view(res: Result<Vec<u8>, Error>) -> Result<Seq<u8>, Error> {
    match res {
        Ok(bytes) => Ok(bytes@),
        Err(e) => Err(e),
    }
}

/// The view of an opened body or an error.
pub open spec fn body_view(res: Result<EncryptedBody, Error>) -> Result<EncryptedBodyView, Error> {
    match res {
        Ok(body) => Ok(body@),
        Err(e) => Err(e),
    }
}

impl EncryptedBody {
    /// Construct a new object without a key.
    pub fn new(data: String) -> (res: Self)
        ensures
            res@ == (EncryptedBodyView { data: data@, key: None, client_id: None, nonce: None }),
    {
        EncryptedBody { data, key: None, client_id: None, nonce: None }
    }

    /// Construct a new object with a key, the nonce of the cycle and the
    /// client's identifier.
    pub fn new_with_key_and_client_id(
        data: String,
        key: [u8; 32],
        nonce: SerializableNonce,
        client_id: String,
    ) -> (res: Self)
        ensures
            res@ == (EncryptedBodyView {
                data: data@,
                key: Some(key@),
                client_id: Some(client_id@),
                nonce: Some(nonce@),
            }),
    {
        EncryptedBody { data, key: Some(key), client_id: Some(client_id), nonce: Some(nonce) }
    }

    /// Get the client ID, can only be retrieved from requests.
    pub fn client_id(&self) -> (res: Result<&str, Error>)
        ensures
            match res {
                Ok(id) => self@.client_id == Some(id@),
                Err(e) => e == Error::ClientIdNotSet && self@.client_id is None,
            },
    {
        match &self.client_id {
            Some(id) => Ok(id.as_str()),
            None => Err(Error::ClientIdNotSet),
        }
    }

    /// Deconstruct to an inner value.
    pub fn into_inner(self) -> (res: String)
        ensures
            res@ == self@.data,
    {
        self.data
    }

    /// Deconstruct to an inner value with the ID attached.
    pub fn into_inner_with_client_id(self) -> (res: Result<(String, String), Error>)
        ensures
            match res {
                Ok((data, id)) => data@ == self@.data && self@.client_id == Some(id@),
                Err(e) => e == Error::ClientIdNotSet && self@.client_id is None,
            },
    {
        match self.client_id {
            Some(id) => Ok((self.data, id)),
            None => Err(Error::ClientIdNotSet),
        }
    }

    /// Serialize it to bytes: the payload, encrypted under the body's own key
    /// and nonce.
    pub fn into_bytes(self) -> (res: Result<Vec<u8>, Error>)
        ensures
            bytes_view(res) == spec_respond_to(self@, self@),
    {
        match (&self.key, &self.nonce) {
            (Some(key), Some(nonce)) => match encrypt(key, nonce.to_nonce(), self.data.as_str()) {
                Ok(sealed) => Ok(sealed),
                Err(_) => Err(Error::Encrypt),
            },
            _ => Err(Error::KeyNotSet),
        }
    }

    /// Open the body of a request.
    ///
    /// `client_id_header` is the value of the client's identifier header,
    /// absent where the request has none or one that is no text. The client
    /// must be an enrolled device with a stored nonce. The nonce is consumed:
    /// it leaves the device's record before the body is decrypted, and stays
    /// away whatever comes of the request. A request without a body, as a
    /// client sends it to read something, has the empty payload.
    pub fn from_request(client_id_header: Option<&str>, body: &[u8], state: &mut AppState) -> (res:
        Result<EncryptedBody, Error>)
        ensures
            body_view(res) == spec_from_request(
                old(state)@,
                opt_str_view(client_id_header),
                body@,
            ),
            final(state)@ == spec_consume_nonce(old(state)@, opt_str_view(client_id_header)),
    {
        let id = match client_id_header {
            Some(id) => id,
            None => {
                return Err(Error::MissingClientId);
            },
        };
        let mut device = match state.device(id) {
            Ok(device) => device,
            Err(e) => {
                return Err(e);
            },
        };
        let nonce = match &device.nonce {
            Some(nonce) => nonce.clone(),
            None => {
                return Err(Error::NoNonce);
            },
        };
        let key = device.shared_key(&state.secret_key);
        device.clear_nonce();
        state.set_device(&device);
        let payload = if body.len() == 0 {
            Ok(String::new())
        } else {
            decrypt(&key, nonce.to_nonce(), body)
        };
        match payload {
            Ok(data) => Ok(
                EncryptedBody {
                    data,
                    key: Some(key),
                    client_id: Some(id.to_owned()),
                    nonce: Some(nonce),
                },
            ),
            Err(_) => Err(Error::Decrypt),
        }
    }

    /// Seal this reply for the client whose request was opened as `request`:
    /// the payload, encrypted under the key and the nonce of the request.
    pub fn respond_to(self, request: &EncryptedBody) -> (res: Result<Vec<u8>, Error>)
        ensures
            bytes_view(res) == spec_respond_to(self@, request@),
    {
        match (&request.key, &request.nonce) {
            (Some(key), Some(nonce)) => match encrypt(key, nonce.to_nonce(), self.data.as_str()) {
                Ok(sealed) => Ok(sealed),
                Err(_) => Err(Error::Encrypt),
            },
            _ => Err(Error::KeyNotSet),
        }
    }
}

/// What `encrypt_response` gives for a response of a handler.
pub open spec fn spec_encrypt_response(status: u16, body: Seq<char>, request: EncryptedBodyView)
    -> Result<Seq<u8>, Error> {
    if 200 <= status < 300 {
        match (request.key, request.nonce) {
            (Some(key), Some(nonce)) => match spec_encrypt(key, nonce, body) {
                Ok(sealed) => Ok(sealed),
                Err(_) => Err(Error::Encrypt),
            },
            _ => Err(Error::KeyNotSet),
        }
    } else {
        Ok(encode_utf8(body))
    }
}

/// Encrypt the response.
///
/// The body of a successful response is sealed for the client whose request
/// was opened as `request`. The body of any other response is an error
/// message, and goes out as it is.
pub fn encrypt_response(status: u16, body: String, request: &EncryptedBody) -> (res: Result<
    Vec<u8>,
    Error,
>)
    ensures
        bytes_view(res) == spec_encrypt_response(status, body@, request@),
{
    // Don't do anything with error messages
    if status < 200 || status >= 300 {
        return Ok(slice_to_vec(body.as_str().as_bytes()));
    }
    EncryptedBody::new(body).respond_to(request)
}

} // verus!
