use keybear::app::AppState;
use keybear::body::EncryptedBody;
use keybear::device::nonce::SerializableNonce;
use keybear::device::Device;
use keybear::error::Error;
use keybear::route::{Method, Reply};
use keybear::test::TestClient;

#[test]
fn nonce() {
    // Setup the server and register a single client
    let (mut state, client) = TestClient::setup().unwrap();

    // Perform a request to get a nonce
    client.perform_nonce_request(&mut state).unwrap();
}

#[test]
#[should_panic]
fn request_without_nonce() {
    // Setup the server and register a single client
    let (mut state, client) = TestClient::setup().unwrap();

    // Do a request without a nonce request, this should fail
    client
        .perform_encrypted_request_without_nonce(&mut state, "/v1/passwords", Method::Get)
        .unwrap();
}

#[test]
#[should_panic]
fn request_reset_nonce() {
    // Setup the server and register a single client
    let (mut state, client) = TestClient::setup().unwrap();

    // Do a request that will set the nonce only for this request, it should be cleared after this
    let _: Reply = client
        .perform_encrypted_request(&mut state, "/v1/passwords", Method::Get)
        .unwrap();

    // Do a request without a nonce request, this should fail
    client
        .perform_encrypted_request_without_nonce(&mut state, "/v1/passwords", Method::Get)
        .unwrap();
}

#[test]
fn nonce_is_single_use() {
    let (mut state, client) = TestClient::setup().unwrap();

    // One nonce, one authenticated GET /v1/passwords that succeeds
    let nonce = client.perform_nonce_request(&mut state).unwrap();
    assert_eq!(state.devices.devices[0].nonce, Some(nonce.clone()));
    let sealed = client.encrypt_request(&nonce, "").unwrap();
    let opened = EncryptedBody::from_request(Some(&client.id), &sealed, &mut state).unwrap();
    assert_eq!(opened.nonce, Some(nonce.clone()));
    assert!(keybear::password::get_passwords(&state).is_empty());
    assert_eq!(state.devices.devices[0].nonce, None);

    // A second one without a fresh nonce fails with 401
    let error = EncryptedBody::from_request(Some(&client.id), &sealed, &mut state).unwrap_err();
    assert_eq!(error, Error::NoNonce);
    assert_eq!(error.status(), 401);
    let error = client
        .perform_encrypted_request_without_nonce(&mut state, "/v1/passwords", Method::Get)
        .unwrap_err();
    assert_eq!(error, Error::NoNonce);
    assert_eq!(
        client.open_request_without_nonce(&mut state, "").unwrap_err(),
        Error::NoNonce
    );

    // A fresh nonce opens the next one
    let reply = client
        .perform_encrypted_request(&mut state, "/v1/passwords", Method::Get)
        .unwrap();
    assert!(matches!(reply, Reply::Passwords(list) if list.is_empty()));
    assert_eq!(state.devices.devices[0].nonce, None);
}

#[test]
fn nonce_is_stored_in_place_of_the_last() {
    let (mut state, client) = TestClient::setup().unwrap();
    let first = client.perform_nonce_request(&mut state).unwrap();
    let second = client.perform_nonce_request(&mut state).unwrap();
    assert_ne!(first, second);
    assert_eq!(first.as_slice().len(), 12);
    assert_eq!(state.devices.devices[0].nonce, Some(second.clone()));

    // The first nonce is of no use any more
    let sealed = client.encrypt_request(&first, "hello").unwrap();
    let error = EncryptedBody::from_request(Some(&client.id), &sealed, &mut state).unwrap_err();
    assert_eq!(error, Error::Decrypt);
    assert_eq!(error.status(), 400);
    // And the second was consumed by the attempt
    assert_eq!(state.devices.devices[0].nonce, None);
}

#[test]
fn nonce_request_errors() {
    let (mut state, client) = TestClient::setup().unwrap();
    let error = keybear::device::nonce::nonce(None, &mut state).unwrap_err();
    assert_eq!(error, Error::NonceWithoutClientId);
    assert_eq!(error.status(), 400);
    let error = keybear::device::nonce::nonce(Some("nobody"), &mut state).unwrap_err();
    assert_eq!(error, Error::NonceForUnknownDevice);
    assert_eq!(error.status(), 400);
    assert_eq!(state.devices.devices[0].nonce, None);

    // White space around the identifier is ignored
    let header = format!("  {}\t", client.id);
    let nonce = keybear::device::nonce::nonce(Some(&header), &mut state).unwrap();
    assert_eq!(state.devices.devices[0].nonce, Some(nonce));
}

#[test]
fn nonce_goes_to_every_record_of_the_device() {
    let mut state = AppState::new([9; 32]);
    state.devices.register(Device::new("other".to_string(), "o".to_string(), [1; 32]));
    state.devices.register(Device::new("twin".to_string(), "first".to_string(), [2; 32]));
    state.devices.register(Device::new("twin".to_string(), "second".to_string(), [3; 32]));
    let nonce = keybear::device::nonce::nonce(Some("twin"), &mut state).unwrap();
    assert_eq!(state.devices.devices[0].nonce, None);
    assert_eq!(state.devices.devices[0].name, "o");
    // Both records are now copies of the first one, with the nonce
    for i in [1, 2] {
        assert_eq!(state.devices.devices[i].name, "first");
        assert_eq!(state.devices.devices[i].public_key, [2; 32]);
        assert_eq!(state.devices.devices[i].nonce, Some(nonce.clone()));
    }
}

#[test]
fn issue_given_nonce() {
    let mut state = AppState::new([9; 32]);
    state.devices.register(Device::new("a".to_string(), "first".to_string(), [1; 32]));
    state.devices.register(Device::new("b".to_string(), "second".to_string(), [2; 32]));
    let issued =
        keybear::device::nonce::issue_nonce("b", SerializableNonce([4; 12]), &mut state).unwrap();
    assert_eq!(issued, SerializableNonce([4; 12]));
    assert_eq!(state.devices.devices[0].nonce, None);
    assert_eq!(state.devices.devices[1].nonce, Some(SerializableNonce([4; 12])));
    assert_eq!(state.devices.devices[1].name, "second");

    // The next nonce takes the place of the last
    keybear::device::nonce::issue_nonce("b", SerializableNonce([5; 12]), &mut state).unwrap();
    assert_eq!(state.devices.devices[1].nonce, Some(SerializableNonce([5; 12])));

    assert_eq!(
        keybear::device::nonce::issue_nonce("c", SerializableNonce([6; 12]), &mut state),
        Err(Error::NonceForUnknownDevice)
    );
}
