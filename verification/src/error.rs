//! What can go wrong while a request is served, and the status a client sees.

use vstd::prelude::*;

verus! {

/// A failed request.
#[derive(Debug, PartialEq, Eq, Structural, Clone, Copy)]
pub enum Error {
    /// The request does not name the client in its header.
    MissingClientId,
    /// No enrolled device has the identifier the request names.
    UnknownDevice,
    /// The device has no nonce stored: none was requested, or it was used.
    NoNonce,
    /// The body is not authentic under the device's key and nonce, or holds no
    /// text.
    Decrypt,
    /// The reply could not be encrypted.
    Encrypt,
    /// The public key of a registration is not the base64 of 32 bytes.
    InvalidPublicKey,
    /// A device tried to verify itself.
    SelfVerification,
    /// No device with this identifier awaits verification.
    DeviceNotFound,
    /// The verification code is not the one the server handed out.
    VerificationMismatch,
    /// No password has this identifier.
    PasswordNotFound,
    /// A reply was to be encrypted without a key and a nonce.
    KeyNotSet,
    /// The client's identifier was asked of a body that does not come from a
    /// request.
    ClientIdNotSet,
    /// The server has no route for the request.
    NoRoute,
    /// The request does not carry what its route reads.
    InvalidPayload,
    /// A nonce was asked for without naming the client.
    NonceWithoutClientId,
    /// A nonce was asked for a device that is not enrolled.
    NonceForUnknownDevice,
}

/// The HTTP status that goes with an error.
pub open spec fn spec_status(error: Error) -> u16 {
    match error {
        Error::MissingClientId => 401,
        Error::UnknownDevice => 401,
        Error::NoNonce => 401,
        Error::Decrypt => 400,
        Error::Encrypt => 500,
        Error::InvalidPublicKey => 500,
        Error::SelfVerification => 400,
        Error::DeviceNotFound => 404,
        Error::VerificationMismatch => 400,
        Error::PasswordNotFound => 404,
        Error::KeyNotSet => 500,
        Error::ClientIdNotSet => 500,
        Error::NoRoute => 404,
        Error::InvalidPayload => 400,
        Error::NonceWithoutClientId => 400,
        Error::NonceForUnknownDevice => 400,
    }
}

impl Error {
    /// The HTTP status that goes with the error.
    pub fn status(&self) -> (res: u16)
        ensures
            res == spec_status(*self),
    {
        match self {
            Error::MissingClientId => 401,
            Error::UnknownDevice => 401,
            Error::NoNonce => 401,
            Error::Decrypt => 400,
            Error::Encrypt => 500,
            Error::InvalidPublicKey => 500,
            Error::SelfVerification => 400,
            Error::DeviceNotFound => 404,
            Error::VerificationMismatch => 400,
            Error::PasswordNotFound => 404,
            Error::KeyNotSet => 500,
        Error::ClientIdNotSet => 500,
        Error::NoRoute => 404,
        Error::InvalidPayload => 400,
        Error::NonceWithoutClientId => 400,
            Error::NonceForUnknownDevice => 400,
        }
    }

    /// The text sent to the client in place of a reply.
    pub fn message(&self) -> (res: &'static str)
        ensures
            res@ == spec_message(*self),
    {
        match self {
            Error::MissingClientId => "\"keybear-client-id\" header is missing or misformatted",
            Error::UnknownDevice => "Device with ID is not registered",
            Error::NoNonce => "No nonce generated yet",
            Error::Decrypt => "Could not decrypt message",
            Error::Encrypt => "Could not encrypt message",
            Error::InvalidPublicKey => "Device public key is invalid",
            Error::SelfVerification => "Can't verify from the device you are trying to register!",
            Error::DeviceNotFound => "Device with ID does not exist",
            Error::VerificationMismatch => "Device verification code mismatch",
            Error::PasswordNotFound => "Password with ID does not exist",
            Error::KeyNotSet => "Encryption key not set",
            Error::ClientIdNotSet => "Client ID not set on encrypted body",
            Error::NoRoute => "Not found",
            Error::InvalidPayload => "Invalid payload",
            Error::NonceWithoutClientId => "Missing client id header",
            Error::NonceForUnknownDevice => "Device with ID is not registered",
        }
    }
}

/// The text that goes with an error.
pub open spec fn spec_message(error: Error) -> Seq<char> {
    match error {
        Error::MissingClientId => "\"keybear-client-id\" header is missing or misformatted"@,
        Error::UnknownDevice => "Device with ID is not registered"@,
        Error::NoNonce => "No nonce generated yet"@,
        Error::Decrypt => "Could not decrypt message"@,
        Error::Encrypt => "Could not encrypt message"@,
        Error::InvalidPublicKey => "Device public key is invalid"@,
        Error::SelfVerification => "Can't verify from the device you are trying to register!"@,
        Error::DeviceNotFound => "Device with ID does not exist"@,
        Error::VerificationMismatch => "Device verification code mismatch"@,
        Error::PasswordNotFound => "Password with ID does not exist"@,
        Error::KeyNotSet => "Encryption key not set"@,
        Error::ClientIdNotSet => "Client ID not set on encrypted body"@,
        Error::NoRoute => "Not found"@,
        Error::InvalidPayload => "Invalid payload"@,
        Error::NonceWithoutClientId => "Missing client id header"@,
        Error::NonceForUnknownDevice => "Device with ID is not registered"@,
    }
}

} // verus!
