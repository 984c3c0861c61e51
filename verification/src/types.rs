//! The messages that clients and the server exchange, as plain values.

use vstd::prelude::*;

verus! {

/// The text of an optional string.
pub open spec fn opt_text(value: Option<String>) -> Option<Seq<char>> {
    match value {
        Some(text) => Some(text@),
        None => None,
    }
}

/// Copy an optional string.
pub fn clone_opt_text(value: &Option<String>) -> (res: Option<String>)
    ensures
        opt_text(res) == opt_text(*value),
{
    match value {
        Some(text) => Some(text.clone()),
        None => None,
    }
}

/// What a client sends to register a device.
#[derive(Debug, PartialEq)]
pub struct RegisterDeviceRequest {
    /// Name of the device as configured by the user.
    pub name: String,
    /// The public key of the device encoded as base64.
    pub public_key: String,
}

/// What the server answers to a registration.
#[derive(Debug, PartialEq)]
pub struct RegisterDeviceResponse {
    /// Unique identifier.
    pub id: String,
    /// Name of the device as configured by the user.
    pub name: String,
    /// The public key of the server.
    pub server_public_key: [u8; 32],
    /// Verification code that needs to match on all devices. Empty for the
    /// first device.
    pub verification_code: String,
}

/// The values of a `RegisterDeviceResponse`.
pub struct RegisterDeviceResponseView {
    pub id: Seq<char>,
    pub name: Seq<char>,
    pub server_public_key: Seq<u8>,
    pub verification_code: Seq<char>,
}

impl View for RegisterDeviceResponse {
    type V = RegisterDeviceResponseView;

    open spec fn view(&self) -> RegisterDeviceResponseView {
        RegisterDeviceResponseView {
            id: self.id@,
            name: self.name@,
            server_public_key: self.server_public_key@,
            verification_code: self.verification_code@,
        }
    }
}

/// A device as shown to clients.
#[derive(Debug, PartialEq)]
pub struct PublicDevice {
    /// Unique identifier.
    pub id: String,
    /// Name of the device as configured by the user.
    pub name: String,
}

/// The values of a `PublicDevice`.
pub struct PublicDeviceView {
    pub id: Seq<char>,
    pub name: Seq<char>,
}

impl View for PublicDevice {
    type V = PublicDeviceView;

    open spec fn view(&self) -> PublicDeviceView {
        PublicDeviceView { id: self.id@, name: self.name@ }
    }
}

/// A device that still needs to be verified, as shown to clients and as sent
/// back by the device that verifies it.
#[derive(Debug, PartialEq)]
pub struct NeedsVerificationDevice {
    /// Unique identifier.
    pub id: String,
    /// Name of the device as configured by the user.
    pub name: String,
    /// Verification code that needs to match on all devices.
    pub verification_code: String,
}

/// The values of a `NeedsVerificationDevice`.
pub struct NeedsVerificationDeviceView {
    pub id: Seq<char>,
    pub name: Seq<char>,
    pub verification_code: Seq<char>,
}

impl View for NeedsVerificationDevice {
    type V = NeedsVerificationDeviceView;

    open spec fn view(&self) -> NeedsVerificationDeviceView {
        NeedsVerificationDeviceView {
            id: self.id@,
            name: self.name@,
            verification_code: self.verification_code@,
        }
    }
}

/// What a client sends to store a password.
#[derive(Debug, PartialEq)]
pub struct RegisterPasswordRequest {
    /// Name of the password as configured by the user.
    pub name: String,
    /// The actual password.
    pub password: String,
    /// The e-mail associated.
    pub email: Option<String>,
    /// The website associated.
    pub website: Option<String>,
}

/// A password as listed to clients: everything but the secret.
#[derive(Debug, PartialEq)]
pub struct PublicPassword {
    /// Unique identifier.
    pub id: String,
    /// Name of the password as configured by the user.
    pub name: String,
    /// The e-mail associated.
    pub email: Option<String>,
    /// The website associated.
    pub website: Option<String>,
}

/// The values of a `PublicPassword`.
pub struct PublicPasswordView {
    pub id: Seq<char>,
    pub name: Seq<char>,
    pub email: Option<Seq<char>>,
    pub website: Option<Seq<char>>,
}

impl View for PublicPassword {
    type V = PublicPasswordView;

    open spec fn view(&self) -> PublicPasswordView {
        PublicPasswordView {
            id: self.id@,
            name: self.name@,
            email: opt_text(self.email),
            website: opt_text(self.website),
        }
    }
}

/// The secret of a single password.
#[derive(Debug, PartialEq)]
pub struct PasswordResponse {
    /// The actual password.
    pub password: String,
}

} // verus!
