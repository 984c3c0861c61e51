//! Enrollment: registering a device, and verifying it from a device that is
//! enrolled already.

use vstd::prelude::*;

use crate::app::{AppState, AppStateView};
use crate::crypto::{key_from_bytes, public_key, x25519_public};
use crate::device::{Device, DeviceView};
use crate::error::Error;
use crate::id::{generate_id, is_id};
use crate::text::{str_eq, str_starts_with};
use crate::types::{
    NeedsVerificationDevice, NeedsVerificationDeviceView, RegisterDeviceRequest,
    RegisterDeviceResponse, RegisterDeviceResponseView,
};

verus! {

/// A human-readable passphrase that the server hands out at registration and
/// matches at verification.
#[derive(Debug, PartialEq, Eq)]
pub struct VerificationCode(pub String);

impl View for VerificationCode {
    type V = Seq<char>;

    open spec fn view(&self) -> Seq<char> {
        self.0@
    }
}

impl Clone for VerificationCode {
    fn clone(&self) -> (res: Self)
        ensures
            res@ == self@,
    {
        VerificationCode(self.0.clone())
    }
}

impl VerificationCode {
    /// Generate a new random string of words.
    pub fn generate() -> (res: Self)
        ensures
            res@.len() > 0,
    {
        VerificationCode(random_passphrase())
    }

    /// Get the code.
    pub fn as_str(&self) -> (res: &str)
        ensures
            res@ == self@,
    {
        self.0.as_str()
    }

    /// Whether the code is this text.
    pub fn eq(&self, other: &str) -> (res: bool)
        ensures
            res == (self@ == other@),
    {
        str_eq(self.0.as_str(), other)
    }
}

/// A pending record as mathematical values: the code, then the device.
pub type PendingView = (Seq<char>, DeviceView);

/// Whether some pending record has this identifier.
pub open spec fn pending_has_id(pending: Seq<PendingView>, id: Seq<char>) -> bool {
    exists|i: int| 0 <= i < pending.len() && (#[trigger] pending[i]).1.id == id
}

/// Whether index `i` holds the first pending record with this identifier.
pub open spec fn is_first_pending_with_id(pending: Seq<PendingView>, id: Seq<char>, i: int)
    -> bool {
    &&& 0 <= i < pending.len()
    &&& pending[i].1.id == id
    &&& forall|j: int| 0 <= j < i ==> (#[trigger] pending[j]).1.id != id
}

/// The index of the first pending record with this identifier.
pub open spec fn first_pending_index(pending: Seq<PendingView>, id: Seq<char>) -> int {
    choose|i: int| is_first_pending_with_id(pending, id, i)
}

/// The first pending record with this identifier.
pub open spec fn first_pending(pending: Seq<PendingView>, id: Seq<char>) -> PendingView {
    pending[first_pending_index(pending, id)]
}

/// A pending list that has a record with an identifier has a first such
/// record, and only one index holds it.
pub proof fn lemma_first_pending(pending: Seq<PendingView>, id: Seq<char>)
    requires
        pending_has_id(pending, id),
    ensures
        is_first_pending_with_id(pending, id, first_pending_index(pending, id)),
        first_pending(pending, id).1.id == id,
        pending.contains(first_pending(pending, id)),
        forall|i: int|
            is_first_pending_with_id(pending, id, i) ==> i == first_pending_index(pending, id),
{
    let n = choose|i: int| 0 <= i < pending.len() && (#[trigger] pending[i]).1.id == id;
    lemma_first_pending_up_to(pending, id, n);
    let k = first_pending_index(pending, id);
    assert(pending[k] == first_pending(pending, id));
    assert forall|i: int| is_first_pending_with_id(pending, id, i) implies i == k by {
        if i < k {
            assert(pending[i].1.id != id);
        } else if k < i {
            assert(pending[k].1.id != id);
        }
    }
}

/// Below or at an index that holds the identifier lies the first index that
/// holds it.
proof fn lemma_first_pending_up_to(pending: Seq<PendingView>, id: Seq<char>, n: int)
    requires
        0 <= n < pending.len(),
        pending[n].1.id == id,
    ensures
        exists|k: int| is_first_pending_with_id(pending, id, k),
    decreases n,
{
    if forall|j: int| 0 <= j < n ==> (#[trigger] pending[j]).1.id != id {
        assert(is_first_pending_with_id(pending, id, n));
    } else {
        let j = choose|j: int| 0 <= j < n && (#[trigger] pending[j]).1.id == id;
        lemma_first_pending_up_to(pending, id, j);
    }
}

/// The pending records without those that have this identifier.
pub open spec fn spec_remove(pending: Seq<PendingView>, id: Seq<char>) -> Seq<PendingView> {
    pending.filter(|entry: PendingView| entry.1.id != id)
}

/// Adding a pending record adds its identifier to those of the list, and no
/// other.
pub proof fn lemma_pending_push(pending: Seq<PendingView>, entry: PendingView, id: Seq<char>)
    ensures
        pending_has_id(pending.push(entry), id) <==> pending_has_id(pending, id) || entry.1.id
            == id,
{
    let pushed = pending.push(entry);
    if pending_has_id(pending, id) {
        let i = choose|i: int| 0 <= i < pending.len() && (#[trigger] pending[i]).1.id == id;
        assert(pushed[i].1.id == id);
    }
    if entry.1.id == id {
        assert(pushed[pending.len() as int].1.id == id);
    }
    if pending_has_id(pushed, id) {
        let i = choose|i: int| 0 <= i < pushed.len() && (#[trigger] pushed[i]).1.id == id;
        if i < pending.len() {
            assert(pending[i].1.id == id);
        }
    }
}

/// Removing an identifier from the pending list takes every record with it
/// away and leaves the records of every other identifier; each record that is
/// left was in the list before.
pub proof fn lemma_remove(pending: Seq<PendingView>, id: Seq<char>)
    ensures
        !pending_has_id(spec_remove(pending, id), id),
        forall|other: Seq<char>|
            other != id ==> (#[trigger] pending_has_id(spec_remove(pending, id), other)
                <==> pending_has_id(pending, other)),
        forall|i: int|
            0 <= i < spec_remove(pending, id).len() ==> pending.contains(
                #[trigger] spec_remove(pending, id)[i],
            ),
    decreases pending.len(),
{
    reveal(Seq::filter);
    let keep = |entry: PendingView| entry.1.id != id;
    let removed = spec_remove(pending, id);
    if pending.len() > 0 {
        let front = pending.drop_last();
        let last = pending.last();
        lemma_remove(front, id);
        let front_removed = spec_remove(front, id);
        assert(removed == if keep(last) {
            front_removed.push(last)
        } else {
            front_removed
        });
        assert(pending =~= front.push(last));
        assert forall|i: int| 0 <= i < removed.len() implies pending.contains(
            #[trigger] removed[i],
        ) by {
            if i < front_removed.len() {
                assert(front.contains(front_removed[i]));
                let j = choose|j: int| 0 <= j < front.len() && front[j] == front_removed[i];
                assert(pending[j] == removed[i]);
            } else {
                assert(pending[pending.len() - 1] == removed[i]);
            }
        }
        assert forall|other: Seq<char>| other != id implies (#[trigger] pending_has_id(
            removed,
            other,
        ) <==> pending_has_id(pending, other)) by {
            lemma_pending_push(front, last, other);
            if keep(last) {
                lemma_pending_push(front_removed, last, other);
            }
            assert(pending_has_id(front_removed, other) <==> pending_has_id(front, other));
        }
        if keep(last) {
            lemma_pending_push(front_removed, last, id);
        }
    }
}

/// What a client may see of a pending record.
pub open spec fn spec_needs_verification(entry: PendingView) -> NeedsVerificationDeviceView {
    NeedsVerificationDeviceView { id: entry.1.id, name: entry.1.name, verification_code: entry.0 }
}

/// A list of endpoints awaiting registration.
#[derive(Debug, PartialEq)]
pub struct VerificationDevices {
    /// Tuples of devices with the verification strings.
    pub devices: Vec<(VerificationCode, Device)>,
}

impl View for VerificationDevices {
    type V = Seq<PendingView>;

    open spec fn view(&self) -> Seq<PendingView> {
        self.devices@.map_values(|entry: (VerificationCode, Device)| (entry.0@, entry.1@))
    }
}

impl Default for VerificationDevices {
    fn default() -> (res: Self)
        ensures
            res@ == Seq::<PendingView>::empty(),
    {
        VerificationDevices { devices: Vec::new() }
    }
}

impl Clone for VerificationDevices {
    fn clone(&self) -> (res: Self)
        ensures
            res@ == self@,
    {
        let mut devices: Vec<(VerificationCode, Device)> = Vec::new();
        let mut i: usize = 0;
        while i < self.devices.len()
            invariant
                i <= self.devices.len(),
                devices@.len() == i,
                forall|j: int|
                    0 <= j < i ==> (#[trigger] devices@[j]).0@ == self.devices@[j].0@
                        && devices@[j].1@ == self.devices@[j].1@,
            decreases self.devices.len() - i,
        {
            devices.push((self.devices[i].0.clone(), self.devices[i].1.clone()));
            i += 1;
        }
        let res = VerificationDevices { devices };
        assert(res@ =~= self@);
        res
    }
}

impl VerificationDevices {
    /// Register a new device: it becomes the last of the list.
    pub fn register(&mut self, device: Device, verification_code: VerificationCode)
        ensures
            final(self)@ == old(self)@.push((verification_code@, device@)),
    {
        self.devices.push((verification_code, device));
        assert(self@ =~= old(self)@.push((verification_code@, device@)));
    }

    /// Get the first device with the ID, and its code.
    pub fn find(&self, id: &str) -> (res: Option<&(VerificationCode, Device)>)
        ensures
            match res {
                Some(entry) => pending_has_id(self@, id@) && (entry.0@, entry.1@)
                    == first_pending(self@, id@),
                None => !pending_has_id(self@, id@),
            },
    {
        let mut i: usize = 0;
        while i < self.devices.len()
            invariant
                i <= self.devices.len(),
                forall|j: int| 0 <= j < i ==> (#[trigger] self@[j]).1.id != id@,
            decreases self.devices.len() - i,
        {
            if str_eq(self.devices[i].1.id.as_str(), id) {
                proof {
                    assert(is_first_pending_with_id(self@, id@, i as int));
                    lemma_first_pending(self@, id@);
                }
                return Some(&self.devices[i]);
            }
            i += 1;
        }
        None
    }

    /// Remove a verification device from the list: every record with the ID
    /// goes, the others stay in their order.
    pub fn remove(&mut self, id: &str)
        ensures
            final(self)@ == spec_remove(old(self)@, id@),
    {
        let ghost keep = |entry: PendingView| entry.1.id != id@;
        let mut kept: Vec<(VerificationCode, Device)> = Vec::new();
        let mut i: usize = 0;
        assert(self@.take(0).filter(keep) =~= Seq::<PendingView>::empty()) by {
            reveal(Seq::filter);
        }
        while i < self.devices.len()
            invariant
                i <= self.devices.len(),
                *self == *old(self),
                keep == |entry: PendingView| entry.1.id != id@,
                kept@.map_values(|entry: (VerificationCode, Device)| (entry.0@, entry.1@))
                    == self@.take(i as int).filter(keep),
            decreases self.devices.len() - i,
        {
            let ghost before = kept@.map_values(
                |entry: (VerificationCode, Device)| (entry.0@, entry.1@),
            );
            proof {
                reveal(Seq::filter);
                assert(self@.take(i + 1).drop_last() =~= self@.take(i as int));
                assert(self@.take(i + 1).last() == self@[i as int]);
            }
            if !str_eq(self.devices[i].1.id.as_str(), id) {
                kept.push((self.devices[i].0.clone(), self.devices[i].1.clone()));
                assert(kept@.map_values(
                    |entry: (VerificationCode, Device)| (entry.0@, entry.1@),
                ) =~= before.push(self@[i as int]));
            }
            i += 1;
        }
        assert(self@.take(self.devices.len() as int) =~= self@);
        self.devices = kept;
    }

    /// Get a vector of devices that need to be registered as allowed to be
    /// shown to the clients.
    pub fn to_needs_verification_vec(&self) -> (res: Vec<NeedsVerificationDevice>)
        ensures
            res@.len() == self@.len(),
            forall|i: int|
                0 <= i < self@.len() ==> (#[trigger] res@[i])@ == spec_needs_verification(
                    self@[i],
                ),
    {
        let mut res: Vec<NeedsVerificationDevice> = Vec::new();
        let mut i: usize = 0;
        while i < self.devices.len()
            invariant
                i <= self.devices.len(),
                res@.len() == i,
                forall|j: int|
                    0 <= j < i ==> (#[trigger] res@[j])@ == spec_needs_verification(self@[j]),
            decreases self.devices.len() - i,
        {
            res.push(self.devices[i].1.to_needs_verification_device(&self.devices[i].0));
            i += 1;
        }
        res
    }
}

impl Device {
    /// Create a public verification device of this device.
    pub fn to_needs_verification_device(&self, verification_code: &VerificationCode) -> (res:
        NeedsVerificationDevice)
        ensures
            res@ == spec_needs_verification((verification_code@, self@)),
    {
        NeedsVerificationDevice {
            id: self.id.clone(),
            name: self.name.clone(),
            verification_code: verification_code.0.clone(),
        }
    }
}

/// The bytes that a base64 text stands for, if it is base64.
pub uninterp spec fn base64_decoded(text: Seq<char>) -> Option<Seq<u8>>;

/// The base64 text of a run of bytes.
pub uninterp spec fn base64_encoded(bytes: Seq<u8>) -> Seq<char>;

/// The public key that a registration carries: the bytes behind its base64
/// text, if they are 32.
pub open spec fn spec_public_key_bytes(text: Seq<char>) -> Option<Seq<u8>> {
    match base64_decoded(text) {
        Some(bytes) => if bytes.len() == 32 {
            Some(bytes)
        } else {
            None
        },
        None => None,
    }
}

/// The device that a registration describes, under a given identifier.
pub open spec fn spec_to_device(request: RegisterDeviceRequest, id: Seq<char>) -> Option<
    DeviceView,
> {
    match spec_public_key_bytes(request.public_key@) {
        Some(public_key) => Some(
            DeviceView { id, name: request.name@, public_key, nonce: None },
        ),
        None => None,
    }
}

/// The state after a device registered: the first device is enrolled at once,
/// every later one awaits verification under its code.
pub open spec fn spec_register_state(state: AppStateView, device: DeviceView, code: Seq<char>)
    -> AppStateView {
    if state.devices.len() == 0 {
        AppStateView { devices: state.devices.push(device), ..state }
    } else {
        AppStateView {
            verification_devices: state.verification_devices.push((code, device)),
            ..state
        }
    }
}

/// The answer to a registration: the code is empty for the first device.
pub open spec fn spec_register_response(state: AppStateView, device: DeviceView, code: Seq<char>)
    -> RegisterDeviceResponseView {
    RegisterDeviceResponseView {
        id: device.id,
        name: device.name,
        server_public_key: x25519_public(state.secret_key),
        verification_code: if state.devices.len() == 0 {
            Seq::empty()
        } else {
            code
        },
    }
}


/// Whether a verification is accepted, and why not.
pub open spec fn spec_verify_result(
    state: AppStateView,
    request: NeedsVerificationDeviceView,
    client_id: Seq<char>,
) -> Result<(), Error> {
    if client_id.is_prefix_of(request.id) {
        Err(Error::SelfVerification)
    } else if !pending_has_id(state.verification_devices, request.id) {
        Err(Error::DeviceNotFound)
    } else if first_pending(state.verification_devices, request.id).0
        != request.verification_code {
        Err(Error::VerificationMismatch)
    } else {
        Ok(())
    }
}

/// The state after a verification: an accepted one moves the device from the
/// pending list to the end of the enrolled list, a refused one changes nothing.
pub open spec fn spec_verify_state(
    state: AppStateView,
    request: NeedsVerificationDeviceView,
    client_id: Seq<char>,
) -> AppStateView {
    if spec_verify_result(state, request, client_id) is Ok {
        AppStateView {
            devices: state.devices.push(first_pending(state.verification_devices, request.id).1),
            verification_devices: spec_remove(state.verification_devices, request.id),
            ..state
        }
    } else {
        state
    }
}

impl RegisterDeviceRequest {
    /// Construct a new registration: the public key goes in as base64.
    pub fn new(name: &str, public_key: &[u8; 32]) -> (res: Self)
        ensures
            res.name@ == name@,
            res.public_key@ == base64_encoded(public_key@),
            spec_public_key_bytes(res.public_key@) == Some(public_key@),
    {
        RegisterDeviceRequest { name: name.to_owned(), public_key: base64_encode(public_key) }
    }

    /// Convert this into a device that can be stored, under a given
    /// identifier. Fails when the public key is not the base64 of 32 bytes.
    pub fn to_device_with_id(&self, id: String) -> (res: Result<Device, Error>)
        ensures
            match res {
                Ok(device) => spec_to_device(*self, id@) == Some(device@),
                Err(e) => e == Error::InvalidPublicKey && spec_to_device(*self, id@) is None,
            },
    {
        match self.decode_public_key() {
            Some(public_key) => Ok(Device { id, name: self.name.clone(), public_key, nonce: None }),
            None => Err(Error::InvalidPublicKey),
        }
    }

    /// The public key that the registration carries, if its text is the
    /// base64 of 32 bytes.
    pub fn decode_public_key(&self) -> (res: Option<[u8; 32]>)
        ensures
            match res {
                Some(key) => spec_public_key_bytes(self.public_key@) == Some(key@),
                None => spec_public_key_bytes(self.public_key@) is None,
            },
    {
        match base64_decode(self.public_key.as_str()) {
            Some(bytes) => key_from_bytes(bytes.as_slice()),
            None => None,
        }
    }

    /// Convert this into a device that can be stored, under a new identifier.
    pub fn to_device(&self) -> (res: Result<Device, Error>)
        ensures
            match res {
                Ok(device) => is_id(device@.id) && spec_to_device(*self, device@.id) == Some(
                    device@,
                ),
                Err(e) => e == Error::InvalidPublicKey && spec_public_key_bytes(self.public_key@)
                    is None,
            },
    {
        match self.decode_public_key() {
            Some(public_key) => Ok(
                Device { id: generate_id(), name: self.name.clone(), public_key, nonce: None },
            ),
            None => Err(Error::InvalidPublicKey),
        }
    }
}

impl Device {
    /// Create the result when registering a new device.
    pub fn to_register_device_result(&self, server_key: &[u8; 32], verification_code: &str) -> (res:
        RegisterDeviceResponse)
        ensures
            res@ == (RegisterDeviceResponseView {
                id: self@.id,
                name: self@.name,
                server_public_key: x25519_public(server_key@),
                verification_code: verification_code@,
            }),
    {
        RegisterDeviceResponse {
            id: self.id.clone(),
            name: self.name.clone(),
            server_public_key: public_key(server_key),
            verification_code: verification_code.to_owned(),
        }
    }
}

/// Get a list of all device endpoints that need to be verified.
pub fn verification_devices(state: &AppState) -> (res: Vec<NeedsVerificationDevice>)
    ensures
        res@.len() == state@.verification_devices.len(),
        forall|i: int|
            0 <= i < res@.len() ==> (#[trigger] res@[i])@ == spec_needs_verification(
                state@.verification_devices[i],
            ),
{
    state.verification_devices.to_needs_verification_vec()
}

/// Whether `res` and `after` are what a registration gives in state `before`:
/// a device under an identifier of 32 hexadecimal digits, enrolled at once if
/// it is the first, else pending under a code that is not empty; or the refusal of a public key that
/// is not the base64 of 32 bytes, with nothing changed.
pub open spec fn spec_registered(
    request: RegisterDeviceRequest,
    before: AppStateView,
    after: AppStateView,
    res: Result<RegisterDeviceResponse, Error>,
) -> bool {
    match res {
        Ok(response) => {
            &&& is_id(response@.id)
            &&& before.devices.len() > 0 ==> response@.verification_code.len() > 0
            &&& spec_to_device(request, response@.id) matches Some(device)
            &&& after == spec_register_state(before, device, response@.verification_code)
            &&& response@ == spec_register_response(before, device, response@.verification_code)
        },
        Err(e) => {
            &&& e == Error::InvalidPublicKey
            &&& spec_public_key_bytes(request.public_key@) is None
            &&& after == before
        },
    }
}

/// Place a device in the registry: the first device is enrolled at once and
/// gets an empty code; every later one awaits verification under
/// `verification_code`.
pub fn register_device(device: Device, verification_code: VerificationCode, state: &mut AppState)
    -> (res: RegisterDeviceResponse)
    ensures
        final(state)@ == spec_register_state(old(state)@, device@, verification_code@),
        res@ == spec_register_response(old(state)@, device@, verification_code@),
{
    if state.devices.is_empty() {
        let response = device.to_register_device_result(&state.secret_key, "");
        proof {
            reveal_strlit("");
            assert(""@ =~= Seq::<char>::empty());
        }
        state.devices.register(device);
        response
    } else {
        let response = device.to_register_device_result(
            &state.secret_key,
            verification_code.as_str(),
        );
        state.verification_devices.register(device, verification_code);
        response
    }
}

/// Register a new device endpoint.
///
/// The device gets an identifier drawn at random. The first device is
/// enrolled at once; a later one gets a verification code drawn at random and
/// waits until an enrolled device verifies it. A public key that is not the base64 of 32 bytes is refused,
/// and nothing changes.
pub fn register(register_device: &RegisterDeviceRequest, state: &mut AppState) -> (res: Result<
    RegisterDeviceResponse,
    Error,
>)
    ensures
        spec_registered(*register_device, old(state)@, final(state)@, res),
{
    let device = match register_device.to_device() {
        Ok(device) => device,
        Err(e) => {
            return Err(e);
        },
    };
    let verification_code = if state.devices.is_empty() {
        VerificationCode(String::new())
    } else {
        VerificationCode::generate()
    };
    Ok(self::register_device(device, verification_code, state))
}

/// Verify a device.
///
/// `client_id` is the identifier of the enrolled device that sent the
/// request. A device cannot verify itself: the request is refused when
/// `client_id` is a prefix of the identifier to verify. Else the first pending
/// device with that identifier is looked up and its code compared; on a match
/// the device is enrolled and every pending record with its identifier
/// removed.
pub fn verify(verification_device: &NeedsVerificationDevice, client_id: &str, state: &mut AppState)
    -> (res: Result<(), Error>)
    ensures
        res == spec_verify_result(old(state)@, verification_device@, client_id@),
        final(state)@ == spec_verify_state(old(state)@, verification_device@, client_id@),
{
    if str_starts_with(verification_device.id.as_str(), client_id) {
        return Err(Error::SelfVerification);
    }
    let device = match state.verification_devices.find(verification_device.id.as_str()) {
        None => {
            return Err(Error::DeviceNotFound);
        },
        Some(entry) => {
            if !entry.0.eq(verification_device.verification_code.as_str()) {
                return Err(Error::VerificationMismatch);
            }
            entry.1.clone()
        },
    };
    state.devices.register(device);
    state.verification_devices.remove(verification_device.id.as_str());
    Ok(())
}

/// Calls `base64::decode` on the text. Assumed: whether it succeeds, and with
/// which bytes, depends on the text alone.
#[verifier::external_body]
fn base64_decode(text: &str) -> (bytes: Option<Vec<u8>>)
    ensures
        bytes is Some <==> base64_decoded(text@) is Some,
        bytes matches Some(decoded) ==> base64_decoded(text@) == Some(decoded@),
{
    base64::decode(text).ok()
}

/// Calls `base64::encode` on the 32 bytes of a key. Assumed: the text depends
/// on the bytes alone, and `base64::decode` gives the bytes back from it.
#[verifier::external_body]
fn base64_encode(bytes: &[u8; 32]) -> (text: String)
    ensures
        text@ == base64_encoded(bytes@),
        base64_decoded(text@) == Some(bytes@),
{
    base64::encode(bytes)
}

/// Calls `chbs::passphrase`. Assumed, as it joins five words by spaces: the
/// text is not empty. Which words is left open: they differ from call to
/// call. It panics where the generator of the thread cannot be seeded.
#[verifier::external_body]
fn random_passphrase() -> (words: String)
    ensures
        words@.len() > 0,
{
    chbs::passphrase()
}

} // verus!
