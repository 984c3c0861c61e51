//! The protocol as a whole: the steps that change the state, and what holds
//! of the state whatever steps are taken.
//!
//! Each step is what one handler does to the state, written with the same
//! specification functions as the handler's own contract.

use vstd::prelude::*;

use crate::app::AppStateView;
use crate::body::{spec_consume_nonce, spec_from_request};
use crate::device::nonce::spec_nonce_state;
use crate::device::register::{
    first_pending, lemma_first_pending, lemma_pending_push, lemma_remove, pending_has_id,
    spec_register_response, spec_register_state, spec_verify_result, spec_verify_state,
};
use crate::device::{
    first_device, first_index, has_id, lemma_first_with_id, lemma_has_id_push,
    lemma_set_keeps_ids, DeviceView,
};
use crate::error::Error;
use crate::net::ClientIp;
use crate::password::PasswordView;
use crate::device::register::spec_to_device;
use crate::password::spec_to_password;
use crate::route::{spec_handled, spec_router, Method, Payload, Reply, Route};
use crate::text::trimmed;
use crate::types::NeedsVerificationDeviceView;

verus! {

/// A step of the protocol.
pub enum Step {
    /// A registration was accepted for `device`; `code` is the verification
    /// code made for it.
    Register { device: DeviceView, code: Seq<char> },
    /// A nonce was asked for `client_id`, and `nonce` was made for it.
    Nonce { client_id: Seq<char>, nonce: Seq<u8> },
    /// The enrolled device `client_id` asked to verify a pending device.
    Verify { request: NeedsVerificationDeviceView, client_id: Seq<char> },
    /// The body of a request with this client header was opened.
    Open { client_id_header: Option<Seq<char>> },
    /// A password was stored.
    PostPassword { password: PasswordView },
}

/// The state after a step.
pub open spec fn next(state: AppStateView, step: Step) -> AppStateView {
    match step {
        Step::Register { device, code } => spec_register_state(state, device, code),
        Step::Nonce { client_id, nonce } => if has_id(state.devices, client_id) {
            spec_nonce_state(state, first_index(state.devices, client_id), nonce)
        } else {
            state
        },
        Step::Verify { request, client_id } => spec_verify_state(state, request, client_id),
        Step::Open { client_id_header } => spec_consume_nonce(state, client_id_header),
        Step::PostPassword { password } => AppStateView {
            passwords: state.passwords.push(password),
            ..state
        },
    }
}

/// No identifier is both enrolled and pending.
pub open spec fn ids_apart(state: AppStateView) -> bool {
    forall|id: Seq<char>|
        !(#[trigger] has_id(state.devices, id) && pending_has_id(state.verification_devices, id))
}

/// No pending device holds a nonce.
pub open spec fn pending_hold_no_nonce(state: AppStateView) -> bool {
    forall|i: int|
        0 <= i < state.verification_devices.len() ==> (
        #[trigger] state.verification_devices[i]).1.nonce is None
}

/// No enrolled record of this identifier holds a nonce.
pub open spec fn holds_no_nonce(devices: Seq<DeviceView>, id: Seq<char>) -> bool {
    forall|i: int|
        0 <= i < devices.len() && (#[trigger] devices[i]).id == id ==> devices[i].nonce is None
}

/// Whether the identifier is in neither list.
pub open spec fn is_new_id(state: AppStateView, id: Seq<char>) -> bool {
    !has_id(state.devices, id) && !pending_has_id(state.verification_devices, id)
}

/// Whether a step that registers a device does so under an identifier that
/// is in neither list. The server draws identifiers at random; this is what
/// holds unless it draws one twice.
pub open spec fn registers_new_id(state: AppStateView, step: Step) -> bool {
    step matches Step::Register { device, .. } ==> is_new_id(state, device.id)
}

/// Whether a step that registers a device does so without a nonce, as the
/// server makes every device.
pub open spec fn registers_without_nonce(step: Step) -> bool {
    step matches Step::Register { device, .. } ==> device.nonce is None
}

/// Whether a step registers a device as the server makes it: under an
/// identifier that is in neither list, and without a nonce. Every other step
/// is as it should be.
pub open spec fn is_proper(state: AppStateView, step: Step) -> bool {
    registers_new_id(state, step) && registers_without_nonce(step)
}

/// Whether a step is a verification that moves the pending device `id` to the
/// enrolled devices.
pub open spec fn verifies(state: AppStateView, step: Step, id: Seq<char>) -> bool {
    step matches Step::Verify { request, client_id } && request.id == id && spec_verify_result(
        state,
        request,
        client_id,
    ) is Ok
}

/// Whatever a handler answers, it leaves the state as it was or takes one
/// step of the protocol, and a device that it registers holds no nonce. The
/// pipeline takes a step as well when it opens a request.
pub proof fn law_handlers_take_steps(
    route: Route,
    path: Seq<char>,
    client_id: Option<Seq<char>>,
    payload: Payload,
    before: AppStateView,
    after: AppStateView,
    res: Result<Reply, Error>,
)
    requires
        spec_handled(route, path, client_id, payload, before, after, res),
    ensures
        after == before || exists|step: Step|
            after == #[trigger] next(before, step) && registers_without_nonce(step),
        forall|header: Option<Seq<char>>|
            spec_consume_nonce(before, header) == next(
                before,
                Step::Open { client_id_header: header },
            ),
{
    match route {
        Route::Register => {
            if let Payload::RegisterDevice(request) = payload {
                if let Ok(Reply::Registered(response)) = res {
                    let device = spec_to_device(request, response@.id).unwrap();
                    let step = Step::Register { device, code: response@.verification_code };
                    assert(after == next(before, step) && registers_without_nonce(step));
                }
            }
        },
        Route::Nonce => {
            if let Ok(Reply::Nonce(nonce)) = res {
                let step = Step::Nonce { client_id: trimmed(client_id.unwrap()), nonce: nonce@ };
                assert(after == next(before, step) && registers_without_nonce(step));
            }
        },
        Route::Verify => {
            if let Payload::Verify(request) = payload {
                if let Some(id) = client_id {
                    let step = Step::Verify { request: request@, client_id: id };
                    assert(after == next(before, step) && registers_without_nonce(step));
                }
            }
        },
        Route::PostPassword => {
            if let Payload::RegisterPassword(request) = payload {
                if let Ok(Reply::PostedPassword(public)) = res {
                    let step = Step::PostPassword {
                        password: spec_to_password(request, public@.id),
                    };
                    assert(after == next(before, step) && registers_without_nonce(step));
                }
            }
        },
        _ => {},
    }
}

/// What holds of a state that the server has made: no identifier is both
/// enrolled and pending, and no pending device holds a nonce.
pub open spec fn is_consistent(state: AppStateView) -> bool {
    ids_apart(state) && pending_hold_no_nonce(state)
}

/// The state that the server starts with, without devices, is consistent.
pub proof fn law_new_state_is_consistent(state: AppStateView)
    requires
        state.devices.len() == 0,
        state.verification_devices.len() == 0,
    ensures
        is_consistent(state),
{
}

/// Every proper step keeps the state consistent.
pub proof fn law_steps_keep_consistency(state: AppStateView, step: Step)
    requires
        is_consistent(state),
        is_proper(state, step),
    ensures
        is_consistent(next(state, step)),
{
    law_ids_stay_apart(state, step);
    law_pending_hold_no_nonce(state, step);
}

/// No identifier appears both among the enrolled and among the pending
/// devices, as long as every device registers under an identifier that is in
/// neither list.
pub proof fn law_ids_stay_apart(state: AppStateView, step: Step)
    requires
        ids_apart(state),
        registers_new_id(state, step),
    ensures
        ids_apart(next(state, step)),
{
    let after = next(state, step);
    assert forall|id: Seq<char>|
        !(#[trigger] has_id(after.devices, id) && pending_has_id(
            after.verification_devices,
            id,
        )) by {
        assert(!(has_id(state.devices, id) && pending_has_id(state.verification_devices, id)));
        match step {
            Step::Register { device, code } => {
                lemma_has_id_push(state.devices, device, id);
                lemma_pending_push(state.verification_devices, (code, device), id);
            },
            Step::Nonce { client_id, nonce } => {
                if has_id(state.devices, client_id) {
                    let i = first_index(state.devices, client_id);
                    lemma_set_keeps_ids(
                        state.devices,
                        DeviceView { nonce: Some(nonce), ..state.devices[i] },
                        id,
                    );
                }
            },
            Step::Verify { request, client_id } => {
                if spec_verify_result(state, request, client_id) is Ok {
                    let moved = first_pending(state.verification_devices, request.id);
                    lemma_first_pending(state.verification_devices, request.id);
                    lemma_has_id_push(state.devices, moved.1, id);
                    lemma_remove(state.verification_devices, request.id);
                    assert(!(has_id(state.devices, request.id) && pending_has_id(
                        state.verification_devices,
                        request.id,
                    )));
                }
            },
            Step::Open { client_id_header } => {
                if let Some(client_id) = client_id_header {
                    lemma_set_keeps_ids(
                        state.devices,
                        DeviceView { nonce: None, ..first_device(state.devices, client_id) },
                        id,
                    );
                }
            },
            Step::PostPassword { password } => {},
        }
    }
}

/// The first device that registers is enrolled at once, with an empty code,
/// and nothing waits for verification on its account.
pub proof fn law_first_device_is_enrolled(state: AppStateView, device: DeviceView, code: Seq<char>)
    requires
        state.devices.len() == 0,
    ensures
        spec_register_state(state, device, code).devices == seq![device],
        spec_register_state(state, device, code).verification_devices
            == state.verification_devices,
        spec_register_response(state, device, code).verification_code == Seq::<char>::empty(),
{
    assert(state.devices.push(device) =~= seq![device]);
}

/// A device that registers when another is enrolled already is placed among
/// the pending devices and not among the enrolled ones.
pub proof fn law_later_device_is_pending(state: AppStateView, device: DeviceView, code: Seq<char>)
    requires
        state.devices.len() > 0,
        is_new_id(state, device.id),
    ensures
        pending_has_id(spec_register_state(state, device, code).verification_devices, device.id),
        !has_id(spec_register_state(state, device, code).devices, device.id),
        spec_register_state(state, device, code).verification_devices.last() == (code, device),
{
    lemma_pending_push(state.verification_devices, (code, device), device.id);
}

/// A pending device stays pending, and out of the enrolled devices, through
/// every step that is not a successful verification of it.
pub proof fn law_pending_until_verified(state: AppStateView, step: Step, id: Seq<char>)
    requires
        pending_has_id(state.verification_devices, id),
        !has_id(state.devices, id),
        registers_new_id(state, step),
        !verifies(state, step, id),
    ensures
        pending_has_id(next(state, step).verification_devices, id),
        !has_id(next(state, step).devices, id),
{
    match step {
        Step::Register { device, code } => {
            lemma_has_id_push(state.devices, device, id);
            lemma_pending_push(state.verification_devices, (code, device), id);
        },
        Step::Nonce { client_id, nonce } => {
            if has_id(state.devices, client_id) {
                let i = first_index(state.devices, client_id);
                lemma_set_keeps_ids(
                    state.devices,
                    DeviceView { nonce: Some(nonce), ..state.devices[i] },
                    id,
                );
            }
        },
        Step::Verify { request, client_id } => {
            if spec_verify_result(state, request, client_id) is Ok {
                let moved = first_pending(state.verification_devices, request.id);
                lemma_first_pending(state.verification_devices, request.id);
                lemma_has_id_push(state.devices, moved.1, id);
                lemma_remove(state.verification_devices, request.id);
            }
        },
        Step::Open { client_id_header } => {
            if let Some(client_id) = client_id_header {
                lemma_set_keeps_ids(
                    state.devices,
                    DeviceView { nonce: None, ..first_device(state.devices, client_id) },
                    id,
                );
            }
        },
        Step::PostPassword { password } => {},
    }
}

/// A successful verification enrolls the device: its identifier is among the
/// enrolled devices afterwards, and no longer among the pending ones.
pub proof fn law_verified_device_is_enrolled(state: AppStateView, step: Step, id: Seq<char>)
    requires
        verifies(state, step, id),
    ensures
        has_id(next(state, step).devices, id),
        !pending_has_id(next(state, step).verification_devices, id),
{
    let moved = first_pending(state.verification_devices, id);
    lemma_first_pending(state.verification_devices, id);
    lemma_has_id_push(state.devices, moved.1, id);
    lemma_remove(state.verification_devices, id);
}

/// A nonce is used once: when the server has opened a request of a device,
/// no record of the device holds a nonce, and the next request of the device
/// is refused for want of a nonce, whatever its body.
pub proof fn law_nonce_is_single_use(
    state: AppStateView,
    client_id: Seq<char>,
    body: Seq<u8>,
    next_body: Seq<u8>,
)
    requires
        spec_from_request(state, Some(client_id), body) is Ok,
    ensures
        holds_no_nonce(spec_consume_nonce(state, Some(client_id)).devices, client_id),
        spec_from_request(spec_consume_nonce(state, Some(client_id)), Some(client_id), next_body)
            == Err::<crate::body::EncryptedBodyView, Error>(Error::NoNonce),
{
    let device = first_device(state.devices, client_id);
    let cleared = DeviceView { nonce: None, ..device };
    let after = spec_consume_nonce(state, Some(client_id));
    lemma_first_with_id(state.devices, client_id);
    lemma_set_keeps_ids(state.devices, cleared, client_id);
    lemma_first_with_id(after.devices, client_id);
    assert(first_index(after.devices, client_id) == first_index(state.devices, client_id));
}

/// A failed attempt to open a request consumes the nonce as well, if the
/// device has one: the nonce is gone whether or not the body is authentic.
pub proof fn law_nonce_is_consumed_on_failure(
    state: AppStateView,
    client_id: Seq<char>,
    body: Seq<u8>,
)
    requires
        has_id(state.devices, client_id),
    ensures
        holds_no_nonce(spec_consume_nonce(state, Some(client_id)).devices, client_id) || (
        first_device(state.devices, client_id).nonce is None && spec_consume_nonce(
            state,
            Some(client_id),
        ) == state),
{
    let device = first_device(state.devices, client_id);
    lemma_first_with_id(state.devices, client_id);
    lemma_set_keeps_ids(state.devices, DeviceView { nonce: None, ..device }, client_id);
}

/// A device without a nonce gets one only by asking for it: no record of the
/// device holds a nonce after a step that is not a nonce request of the
/// device.
pub proof fn law_no_nonce_until_asked(state: AppStateView, step: Step, id: Seq<char>)
    requires
        holds_no_nonce(state.devices, id),
        pending_hold_no_nonce(state),
        registers_without_nonce(step),
        !(step matches Step::Nonce { client_id, .. } && client_id == id),
    ensures
        holds_no_nonce(next(state, step).devices, id),
{
    match step {
        Step::Register { device, code } => {},
        Step::Nonce { client_id, nonce } => {
            if has_id(state.devices, client_id) {
                lemma_first_with_id(state.devices, client_id);
            }
        },
        Step::Verify { request, client_id } => {
            if spec_verify_result(state, request, client_id) is Ok {
                lemma_first_pending(state.verification_devices, request.id);
                let moved = first_pending(state.verification_devices, request.id);
                let j = choose|j: int|
                    0 <= j < state.verification_devices.len() && state.verification_devices[j]
                        == moved;
                assert(state.verification_devices[j].1.nonce is None);
            }
        },
        Step::Open { client_id_header } => {},
        Step::PostPassword { password } => {},
    }
}

/// No pending device ever holds a nonce, as long as devices register without
/// one.
pub proof fn law_pending_hold_no_nonce(state: AppStateView, step: Step)
    requires
        pending_hold_no_nonce(state),
        registers_without_nonce(step),
    ensures
        pending_hold_no_nonce(next(state, step)),
{
    match step {
        Step::Verify { request, client_id } => {
            lemma_remove(state.verification_devices, request.id);
            let after = next(state, step).verification_devices;
            assert forall|i: int| 0 <= i < after.len() implies (#[trigger] after[i]).1.nonce
                is None by {
                if spec_verify_result(state, request, client_id) is Ok {
                    assert(state.verification_devices.contains(after[i]));
                    let j = choose|j: int|
                        0 <= j < state.verification_devices.len()
                            && state.verification_devices[j] == after[i];
                    assert(state.verification_devices[j].1.nonce is None);
                }
            }
        },
        _ => {},
    }
}

/// No step takes a device out of the enrolled devices: once a device is
/// enrolled, the list is never empty again.
pub proof fn law_enrolled_devices_stay(state: AppStateView, step: Step, id: Seq<char>)
    ensures
        state.devices.len() <= next(state, step).devices.len(),
        has_id(state.devices, id) ==> has_id(next(state, step).devices, id),
{
    match step {
        Step::Register { device, code } => {
            lemma_has_id_push(state.devices, device, id);
        },
        Step::Nonce { client_id, nonce } => {
            if has_id(state.devices, client_id) {
                let i = first_index(state.devices, client_id);
                lemma_set_keeps_ids(
                    state.devices,
                    DeviceView { nonce: Some(nonce), ..state.devices[i] },
                    id,
                );
            }
        },
        Step::Verify { request, client_id } => {
            if spec_verify_result(state, request, client_id) is Ok {
                lemma_has_id_push(
                    state.devices,
                    first_pending(state.verification_devices, request.id).1,
                    id,
                );
            }
        },
        Step::Open { client_id_header } => {
            if let Some(client_id) = client_id_header {
                lemma_set_keeps_ids(
                    state.devices,
                    DeviceView { nonce: None, ..first_device(state.devices, client_id) },
                    id,
                );
            }
        },
        Step::PostPassword { password } => {},
    }
}

/// A request whose peer is not the IPv4 loopback address gets no route,
/// whatever its method and path: the server does nothing for it.
pub proof fn law_loopback_guard(method: Method, path: Seq<char>, peer_addr: Option<ClientIp>)
    requires
        !(peer_addr matches Some(ClientIp::V4(octets)) && octets@ == seq![127u8, 0u8, 0u8, 1u8]),
    ensures
        spec_router(method, path, peer_addr) is None,
{
}

} // verus!
