//! The route surface: which requests the server answers, and which of them
//! go through the encrypted pipeline.

use vstd::prelude::*;

use crate::app::{AppState, AppStateView};
use crate::device::devices;
use crate::device::nonce::{nonce, spec_nonce_issued, SerializableNonce};
use crate::device::register::{
    register, spec_needs_verification, spec_registered, spec_verify_result, spec_verify_state,
    verification_devices, verify,
};
use crate::device::spec_public_device;
use crate::error::Error;
use crate::id::is_id;
use crate::net::{spec_check, ClientIp, TorGuard};
use crate::password::{
    first_password, get_password, get_passwords, has_password, post_passwords,
    spec_public_password, spec_to_password,
};
use crate::text::{opt_str_view, str_contains_ascii, str_eq, str_strip_prefix};
use crate::types::{
    NeedsVerificationDevice, PasswordResponse, PublicDevice, PublicPassword,
    RegisterDeviceRequest, RegisterDeviceResponse, RegisterPasswordRequest,
};

verus! {

/// The method of a request.
#[derive(Debug, PartialEq, Eq, Structural, Clone, Copy)]
pub enum Method {
    /// `GET`
    Get,
    /// `POST`
    Post,
    /// Any other method.
    Other,
}

/// What a request asks for.
#[derive(Debug, PartialEq, Eq, Structural, Clone, Copy)]
pub enum Route {
    /// `POST /v1/register`: register a device.
    Register,
    /// `POST /v1/nonce`: get a nonce.
    Nonce,
    /// `POST /v1/verify`: verify a pending device.
    Verify,
    /// `GET /v1/verification_devices`: list the pending devices.
    VerificationDevices,
    /// `GET /v1/devices`: list the enrolled devices.
    Devices,
    /// `GET /v1/passwords`: list the passwords.
    Passwords,
    /// `POST /v1/passwords`: store a password.
    PostPassword,
    /// `GET /v1/passwords/{id}`: get the secret of one password.
    Password,
}

/// What the request of a route carries for its handler.
#[derive(Debug, PartialEq, Eq, Structural, Clone, Copy)]
pub enum PayloadKind {
    /// Nothing.
    Nothing,
    /// A device to register.
    RegisterDevice,
    /// A pending device to verify.
    Verify,
    /// A password to store.
    RegisterPassword,
}

/// What a request carries for its handler, once it is read.
#[derive(Debug)]
pub enum Payload {
    /// Nothing.
    Nothing,
    /// A device to register.
    RegisterDevice(RegisterDeviceRequest),
    /// A pending device to verify.
    Verify(NeedsVerificationDevice),
    /// A password to store.
    RegisterPassword(RegisterPasswordRequest),
}

/// What a handler answers.
#[derive(Debug)]
pub enum Reply {
    /// The device was registered.
    Registered(RegisterDeviceResponse),
    /// The nonce for the next request.
    Nonce(SerializableNonce),
    /// The pending device was verified.
    Verified,
    /// The pending devices.
    VerificationDevices(Vec<NeedsVerificationDevice>),
    /// The enrolled devices.
    Devices(Vec<PublicDevice>),
    /// The passwords, without their secrets.
    Passwords(Vec<PublicPassword>),
    /// The password was stored.
    PostedPassword(PublicPassword),
    /// The secret of a password.
    Password(PasswordResponse),
}

/// The payload that the request of a route carries.
pub open spec fn spec_payload_kind(route: Route) -> PayloadKind {
    match route {
        Route::Register => PayloadKind::RegisterDevice,
        Route::Verify => PayloadKind::Verify,
        Route::PostPassword => PayloadKind::RegisterPassword,
        _ => PayloadKind::Nothing,
    }
}

/// Whether `res` and `after` are what the handler of `route` gives in state
/// `before`, for a request with this path, client and payload.
///
/// Each route is answered by its handler, in the words of the handler's own
/// contract. A route that reads a payload refuses a request that carries
/// another; a route that reads none ignores what the request carries.
pub open spec fn spec_handled(
    route: Route,
    path: Seq<char>,
    client_id: Option<Seq<char>>,
    payload: Payload,
    before: AppStateView,
    after: AppStateView,
    res: Result<Reply, Error>,
) -> bool {
    match route {
        Route::Register => match payload {
            Payload::RegisterDevice(request) => match res {
                Ok(Reply::Registered(response)) => spec_registered(
                    request,
                    before,
                    after,
                    Ok(response),
                ),
                Ok(_) => false,
                Err(e) => spec_registered(request, before, after, Err(e)),
            },
            _ => res matches Err(Error::InvalidPayload) && after == before,
        },
        Route::Nonce => match res {
            Ok(Reply::Nonce(nonce)) => spec_nonce_issued(client_id, before, after, Ok(nonce)),
            Ok(_) => false,
            Err(e) => spec_nonce_issued(client_id, before, after, Err(e)),
        },
        Route::Verify => match (payload, client_id) {
            (Payload::Verify(request), Some(id)) => {
                &&& after == spec_verify_state(before, request@, id)
                &&& match spec_verify_result(before, request@, id) {
                    Ok(_) => res matches Ok(Reply::Verified),
                    Err(e) => res matches Err(err) && err == e,
                }
            },
            (Payload::Verify(_), None) => res matches Err(Error::ClientIdNotSet) && after
                == before,
            _ => res matches Err(Error::InvalidPayload) && after == before,
        },
        Route::VerificationDevices => {
            &&& after == before
            &&& res matches Ok(Reply::VerificationDevices(list))
            &&& list@.len() == before.verification_devices.len()
            &&& forall|i: int|
                0 <= i < list@.len() ==> (#[trigger] list@[i])@ == spec_needs_verification(
                    before.verification_devices[i],
                )
        },
        Route::Devices => {
            &&& after == before
            &&& res matches Ok(Reply::Devices(list))
            &&& list@.len() == before.devices.len()
            &&& forall|i: int|
                0 <= i < list@.len() ==> (#[trigger] list@[i])@ == spec_public_device(
                    before.devices[i],
                )
        },
        Route::Passwords => {
            &&& after == before
            &&& res matches Ok(Reply::Passwords(list))
            &&& list@.len() == before.passwords.len()
            &&& forall|i: int|
                0 <= i < list@.len() ==> (#[trigger] list@[i])@ == spec_public_password(
                    before.passwords[i],
                )
        },
        Route::PostPassword => match payload {
            Payload::RegisterPassword(request) => {
                &&& res matches Ok(Reply::PostedPassword(public))
                &&& is_id(public@.id)
                &&& after == (AppStateView {
                    passwords: before.passwords.push(spec_to_password(request, public@.id)),
                    ..before
                })
                &&& public@ == spec_public_password(spec_to_password(request, public@.id))
            },
            _ => res matches Err(Error::InvalidPayload) && after == before,
        },
        Route::Password => {
            &&& after == before
            &&& match spec_password_id(path) {
                Some(id) => match res {
                    Ok(Reply::Password(response)) => has_password(before.passwords, id)
                        && response.password@ == first_password(before.passwords, id).password,
                    Ok(_) => false,
                    Err(e) => e == Error::PasswordNotFound && !has_password(
                        before.passwords,
                        id,
                    ),
                },
                None => res matches Err(Error::PasswordNotFound),
            }
        },
    }
}

/// The path prefix of a single password: its identifier follows.
pub open spec fn password_prefix() -> Seq<char> {
    "/v1/passwords/"@
}

/// The identifier in the path of a single password: what follows the prefix,
/// where that is not empty and holds no further `/`.
pub open spec fn spec_password_id(path: Seq<char>) -> Option<Seq<char>> {
    let id = path.skip(password_prefix().len() as int);
    if password_prefix().is_prefix_of(path) && id.len() > 0 && !id.contains('/') {
        Some(id)
    } else {
        None
    }
}

/// The route of a method and a path, if there is one.
pub open spec fn spec_route(method: Method, path: Seq<char>) -> Option<Route> {
    if method == Method::Post && path == "/v1/register"@ {
        Some(Route::Register)
    } else if method == Method::Post && path == "/v1/nonce"@ {
        Some(Route::Nonce)
    } else if method == Method::Post && path == "/v1/verify"@ {
        Some(Route::Verify)
    } else if method == Method::Get && path == "/v1/verification_devices"@ {
        Some(Route::VerificationDevices)
    } else if method == Method::Get && path == "/v1/devices"@ {
        Some(Route::Devices)
    } else if method == Method::Get && path == "/v1/passwords"@ {
        Some(Route::Passwords)
    } else if method == Method::Post && path == "/v1/passwords"@ {
        Some(Route::PostPassword)
    } else if method == Method::Get && spec_password_id(path) is Some {
        Some(Route::Password)
    } else {
        None
    }
}

/// What the router answers: no route for a peer that the guard refuses,
/// whatever it asks for.
pub open spec fn spec_router(method: Method, path: Seq<char>, peer_addr: Option<ClientIp>)
    -> Option<Route> {
    if spec_check(peer_addr) {
        spec_route(method, path)
    } else {
        None
    }
}

/// Whether requests and replies of the route are encrypted: all are, but for
/// registering a device and getting a nonce.
pub open spec fn spec_is_encrypted(route: Route) -> bool {
    route != Route::Register && route != Route::Nonce
}

impl Route {
    /// Whether requests and replies of the route go through the encrypted
    /// pipeline.
    pub fn is_encrypted(&self) -> (res: bool)
        ensures
            res == spec_is_encrypted(*self),
    {
        match self {
            Route::Register => false,
            Route::Nonce => false,
            _ => true,
        }
    }
}

impl Route {
    /// The payload that the request of the route carries.
    pub fn payload_kind(&self) -> (res: PayloadKind)
        ensures
            res == spec_payload_kind(*self),
    {
        match self {
            Route::Register => PayloadKind::RegisterDevice,
            Route::Verify => PayloadKind::Verify,
            Route::PostPassword => PayloadKind::RegisterPassword,
            _ => PayloadKind::Nothing,
        }
    }
}

/// Let the handler of a route answer a request.
///
/// `client_id` is the client that the request names: for an encrypted route
/// the client whose request was opened, for a nonce request the value of the
/// client header.
pub fn handle(
    route: Route,
    path: &str,
    client_id: Option<&str>,
    payload: &Payload,
    state: &mut AppState,
) -> (res: Result<Reply, Error>)
    ensures
        spec_handled(
            route,
            path@,
            opt_str_view(client_id),
            *payload,
            old(state)@,
            final(state)@,
            res,
        ),
{
    match route {
        Route::Register => match payload {
            Payload::RegisterDevice(request) => match register(request, state) {
                Ok(response) => Ok(Reply::Registered(response)),
                Err(e) => Err(e),
            },
            _ => Err(Error::InvalidPayload),
        },
        Route::Nonce => match nonce(client_id, state) {
            Ok(nonce) => Ok(Reply::Nonce(nonce)),
            Err(e) => Err(e),
        },
        Route::Verify => match payload {
            Payload::Verify(request) => match client_id {
                Some(id) => match verify(request, id, state) {
                    Ok(_) => Ok(Reply::Verified),
                    Err(e) => Err(e),
                },
                None => Err(Error::ClientIdNotSet),
            },
            _ => Err(Error::InvalidPayload),
        },
        Route::VerificationDevices => Ok(Reply::VerificationDevices(verification_devices(state))),
        Route::Devices => Ok(Reply::Devices(devices(state))),
        Route::Passwords => Ok(Reply::Passwords(get_passwords(state))),
        Route::PostPassword => match payload {
            Payload::RegisterPassword(request) => Ok(
                Reply::PostedPassword(post_passwords(request, state)),
            ),
            _ => Err(Error::InvalidPayload),
        },
        Route::Password => match password_id(path) {
            Some(id) => match get_password(id, state) {
                Ok(response) => Ok(Reply::Password(response)),
                Err(e) => Err(e),
            },
            None => Err(Error::PasswordNotFound),
        },
    }
}

/// The identifier in the path of a single password.
pub fn password_id(path: &str) -> (res: Option<&str>)
    ensures
        match res {
            Some(id) => spec_password_id(path@) == Some(id@),
            None => spec_password_id(path@) is None,
        },
{
    match str_strip_prefix(path, "/v1/passwords/") {
        Some(id) => {
            if !id.is_empty() && !str_contains_ascii(id, 0x2f) {
                Some(id)
            } else {
                None
            }
        },
        None => None,
    }
}

/// The route of a method and a path, if there is one.
pub fn route(method: Method, path: &str) -> (res: Option<Route>)
    ensures
        res == spec_route(method, path@),
{
    match method {
        Method::Post => {
            if str_eq(path, "/v1/register") {
                Some(Route::Register)
            } else if str_eq(path, "/v1/nonce") {
                Some(Route::Nonce)
            } else if str_eq(path, "/v1/verify") {
                Some(Route::Verify)
            } else if str_eq(path, "/v1/passwords") {
                Some(Route::PostPassword)
            } else {
                None
            }
        },
        Method::Get => {
            if str_eq(path, "/v1/verification_devices") {
                Some(Route::VerificationDevices)
            } else if str_eq(path, "/v1/devices") {
                Some(Route::Devices)
            } else if str_eq(path, "/v1/passwords") {
                Some(Route::Passwords)
            } else if password_id(path).is_some() {
                Some(Route::Password)
            } else {
                None
            }
        },
        Method::Other => None,
    }
}

/// The route of a request, if the guard lets its peer through and the server
/// has a route for its method and path.
pub fn router(method: Method, path: &str, peer_addr: Option<ClientIp>) -> (res: Option<Route>)
    ensures
        res == spec_router(method, path@, peer_addr),
        !spec_check(peer_addr) ==> res is None,
{
    let guard = TorGuard;
    if guard.check(peer_addr) {
        route(method, path)
    } else {
        None
    }
}

} // verus!
