use keybear::app::AppState;
use keybear::body::EncryptedBody;
use keybear::crypto::{public_key, StaticSecret};
use keybear::device::devices;
use keybear::device::register::{register_device, verification_devices, verify, VerificationCode};
use keybear::device::Device;
use keybear::error::Error;
use keybear::route::{Method, Payload, Reply};
use keybear::test::{app_state, TestClient};
use keybear::types::{NeedsVerificationDevice, RegisterDeviceRequest, RegisterDeviceResponse};

fn is_id(id: &str) -> bool {
    id.len() == 32 && id.chars().all(|c| matches!(c, '0'..='9' | 'a'..='f'))
}

fn enroll(
    request: &RegisterDeviceRequest,
    state: &mut AppState,
) -> Result<keybear::types::RegisterDeviceResponse, Error> {
    keybear::device::register::register(request, state)
}

fn fresh_state() -> AppState {
    app_state()
}

fn registered(reply: Result<Reply, Error>) -> RegisterDeviceResponse {
    match reply {
        Ok(Reply::Registered(response)) => response,
        other => panic!("not registered: {:?}", other),
    }
}

#[test]
fn register() {
    // Create the state of the server with the routes
    let mut app = fresh_state();

    // Create a public and a secret key for the device
    let secret_key = StaticSecret::new_with_os_rand().to_bytes();
    let public = public_key(&secret_key);

    // Setup a fake device to register
    let register_device =
        Payload::RegisterDevice(RegisterDeviceRequest::new("test_device", &public));

    // Register the device, the first device is always accepted
    let registered1 = registered(TestClient::perform_request_with_body(
        &mut app,
        "/v1/register",
        Method::Post,
        &register_device,
    ));
    assert_eq!(registered1.name, "test_device");

    // Create a test client from the results
    let client = TestClient {
        id: registered1.id.clone(),
        server_public_key: registered1.server_public_key,
        client_secret_key: secret_key,
    };

    // Create a public and a secret key for the device
    let secret_key2 = StaticSecret::new_with_os_rand().to_bytes();
    let public_key2 = public_key(&secret_key2);

    // Setup another fake device to register
    let register_device2 =
        Payload::RegisterDevice(RegisterDeviceRequest::new("test_device2", &public_key2));

    // Register a new device, this device needs to be verified
    let registered2 = registered(TestClient::perform_request_with_body(
        &mut app,
        "/v1/register",
        Method::Post,
        &register_device2,
    ));
    assert_eq!(registered2.name, "test_device2");

    // Create another test client from the results
    let client2 = TestClient {
        id: registered2.id.clone(),
        server_public_key: registered2.server_public_key,
        client_secret_key: secret_key2,
    };

    // Verify this device with the first device
    let verification_device = Payload::Verify(NeedsVerificationDevice {
        id: registered2.id.clone(),
        name: registered2.name.clone(),
        verification_code: registered2.verification_code.clone(),
    });
    let verified = client
        .perform_encrypted_request_with_body(
            &mut app,
            "/v1/verify",
            Method::Post,
            "{}",
            &verification_device,
        )
        .unwrap();
    assert!(matches!(verified, Reply::Verified));

    // Now verify they are both in the list of devices
    // Perform this request from the verified device to ensure that it has proper access
    let devices = match client2
        .perform_encrypted_request(&mut app, "/v1/devices", Method::Get)
        .unwrap()
    {
        Reply::Devices(devices) => devices,
        other => panic!("no devices: {:?}", other),
    };
    assert_eq!(devices.len(), 2);
    assert_eq!(devices[0].id, registered1.id);
    assert_eq!(devices[1].id, registered2.id);
}

#[test]
#[should_panic]
fn illegal_verify() {
    // Create the state of the server with the routes
    let mut app = fresh_state();

    // Create a public and a secret key for the device
    let secret_key = StaticSecret::new_with_os_rand().to_bytes();
    let public = public_key(&secret_key);

    // Setup a fake device to register
    let register_device =
        Payload::RegisterDevice(RegisterDeviceRequest::new("test_device", &public));

    // Register the device
    let registered1 = registered(TestClient::perform_request_with_body(
        &mut app,
        "/v1/register",
        Method::Post,
        &register_device,
    ));
    assert_eq!(registered1.name, "test_device");

    // Create a test client from the results
    let client = TestClient {
        id: registered1.id.clone(),
        server_public_key: registered1.server_public_key,
        client_secret_key: secret_key,
    };

    // Try to verify with the device we are registering with, which is illegal
    let verification_device = Payload::Verify(NeedsVerificationDevice {
        id: registered1.id.clone(),
        name: registered1.name.clone(),
        verification_code: registered1.verification_code.clone(),
    });
    client
        .perform_encrypted_request_with_body(
            &mut app,
            "/v1/verify",
            Method::Post,
            "{}",
            &verification_device,
        )
        .unwrap();
}

#[test]
fn first_device_bootstrap() {
    let mut state = fresh_state();
    let server_public = public_key(&state.secret_key);
    let secret_a = StaticSecret::new_with_os_rand().to_bytes();

    let response = enroll(&RegisterDeviceRequest::new("a", &public_key(&secret_a)), &mut state)
        .unwrap();
    assert!(is_id(&response.id));
    assert_eq!(response.name, "a");
    assert_eq!(response.server_public_key, server_public);
    assert_eq!(response.verification_code, "");
    assert_eq!(state.devices.devices.len(), 1);
    assert_eq!(state.devices.devices[0].public_key, public_key(&secret_a));
    assert_eq!(state.devices.devices[0].nonce, None);
    assert!(state.verification_devices.devices.is_empty());

    // GET /v1/devices, authenticated via (id, nonce)
    let client = TestClient {
        id: response.id.clone(),
        server_public_key: response.server_public_key,
        client_secret_key: secret_a,
    };
    let opened = client.open_request(&mut state).unwrap();
    assert_eq!(opened.client_id().unwrap(), response.id);
    let list = devices(&state);
    assert_eq!(list.len(), 1);
    assert_eq!(list[0].id, response.id);
    assert_eq!(list[0].name, "a");

    // The reply is sealed for the client under the nonce of the cycle
    let nonce = opened.nonce.clone().unwrap();
    let reply = format!("[{{\"id\":\"{}\",\"name\":\"a\"}}]", list[0].id);
    let sealed = EncryptedBody::new(reply.clone()).respond_to(&opened).unwrap();
    assert_eq!(client.decrypt_response(&nonce, &sealed).unwrap(), reply);
}

#[test]
fn second_device_requires_verify() {
    let (mut state, a) = TestClient::setup().unwrap();
    let secret_b = StaticSecret::new_with_os_rand().to_bytes();

    let response = enroll(&RegisterDeviceRequest::new("b", &public_key(&secret_b)), &mut state)
        .unwrap();
    assert!(!response.verification_code.is_empty());
    assert_eq!(response.name, "b");
    assert_ne!(response.id, a.id);
    assert_eq!(state.devices.devices.len(), 1);
    assert_eq!(state.verification_devices.devices.len(), 1);
    assert_eq!(state.verification_devices.devices[0].1.id, response.id);
    assert_eq!(state.verification_devices.devices[0].0.as_str(), response.verification_code);

    let b = TestClient {
        id: response.id.clone(),
        server_public_key: response.server_public_key,
        client_secret_key: secret_b,
    };

    // GET /v1/devices as B fails with 401: B cannot even get a nonce
    assert_eq!(
        b.perform_nonce_request(&mut state).unwrap_err(),
        Error::NonceForUnknownDevice
    );
    assert!(b.perform_encrypted_request(&mut state, "/v1/devices", Method::Get).is_err());
    let error = EncryptedBody::from_request(Some(b.id.as_str()), &[], &mut state).unwrap_err();
    assert_eq!(error, Error::UnknownDevice);
    assert_eq!(error.status(), 401);

    // The pending device is listed with its code
    let pending = verification_devices(&state);
    assert_eq!(pending.len(), 1);
    assert_eq!(pending[0].id, response.id);
    assert_eq!(pending[0].name, "b");
    assert_eq!(pending[0].verification_code, response.verification_code);

    // A verifies B
    let request = NeedsVerificationDevice {
        id: response.id.clone(),
        name: "b".to_string(),
        verification_code: response.verification_code.clone(),
    };
    let reply = a
        .perform_encrypted_request_with_body(
            &mut state,
            "/v1/verify",
            Method::Post,
            "{}",
            &Payload::Verify(request),
        )
        .unwrap();
    assert!(matches!(reply, Reply::Verified));
    assert!(state.verification_devices.devices.is_empty());

    // GET /v1/devices as B succeeds and returns two entries
    let list = match b.perform_encrypted_request(&mut state, "/v1/devices", Method::Get) {
        Ok(Reply::Devices(list)) => list,
        other => panic!("no devices: {:?}", other),
    };
    assert_eq!(list.len(), 2);
    assert_eq!(list[0].id, a.id);
    assert_eq!(list[1].id, b.id);
}

#[test]
fn self_verify_is_rejected() {
    let (mut state, _a) = TestClient::setup().unwrap();
    let secret_b = StaticSecret::new_with_os_rand().to_bytes();
    let response = enroll(&RegisterDeviceRequest::new("b", &public_key(&secret_b)), &mut state)
        .unwrap();

    let request = NeedsVerificationDevice {
        id: response.id.clone(),
        name: "b".to_string(),
        verification_code: response.verification_code.clone(),
    };
    let error = verify(&request, &response.id, &mut state).unwrap_err();
    assert_eq!(error, Error::SelfVerification);
    assert_eq!(error.status(), 400);

    // Nor does the pending device get through the pipeline
    let b = TestClient {
        id: response.id.clone(),
        server_public_key: response.server_public_key,
        client_secret_key: secret_b,
    };
    let error = b
        .perform_encrypted_request_with_body(
            &mut state,
            "/v1/verify",
            Method::Post,
            "{}",
            &Payload::Verify(request),
        )
        .unwrap_err();
    assert_eq!(error.status(), 400);

    // B remains pending
    assert_eq!(state.devices.devices.len(), 1);
    assert_eq!(state.verification_devices.devices.len(), 1);
    assert_eq!(state.verification_devices.devices[0].1.id, response.id);
}

#[test]
fn verify_compares_by_prefix() {
    let (mut state, _a) = TestClient::setup().unwrap();
    state.verification_devices.register(
        Device::new("abcdef".to_string(), "b".to_string(), [1; 32]),
        VerificationCode("code".to_string()),
    );
    let request = NeedsVerificationDevice {
        id: "abcdef".to_string(),
        name: "b".to_string(),
        verification_code: "code".to_string(),
    };
    // A client whose identifier begins the pending identifier is refused
    assert_eq!(verify(&request, "abc", &mut state), Err(Error::SelfVerification));
    assert_eq!(verify(&request, "", &mut state), Err(Error::SelfVerification));
    assert_eq!(verify(&request, "abcdef", &mut state), Err(Error::SelfVerification));
    // Not the other way round
    assert_eq!(verify(&request, "abcdefg", &mut state), Ok(()));
}

#[test]
fn verify_errors() {
    let (mut state, a) = TestClient::setup().unwrap();
    let secret_b = StaticSecret::new_with_os_rand().to_bytes();
    let response = enroll(&RegisterDeviceRequest::new("b", &public_key(&secret_b)), &mut state)
        .unwrap();

    // Unknown pending identifier
    let unknown = NeedsVerificationDevice {
        id: "ffffffffffffffffffffffffffffffff0".to_string(),
        name: "b".to_string(),
        verification_code: response.verification_code.clone(),
    };
    let error = verify(&unknown, &a.id, &mut state).unwrap_err();
    assert_eq!(error, Error::DeviceNotFound);
    assert_eq!(error.status(), 404);

    // Wrong code
    let wrong = NeedsVerificationDevice {
        id: response.id.clone(),
        name: "b".to_string(),
        verification_code: format!("{}x", response.verification_code),
    };
    let error = verify(&wrong, &a.id, &mut state).unwrap_err();
    assert_eq!(error, Error::VerificationMismatch);
    assert_eq!(error.status(), 400);

    // Nothing changed
    assert_eq!(state.devices.devices.len(), 1);
    assert_eq!(state.verification_devices.devices.len(), 1);

    // A second verification of the same device finds it gone
    let right = NeedsVerificationDevice {
        id: response.id.clone(),
        name: "b".to_string(),
        verification_code: response.verification_code.clone(),
    };
    assert_eq!(verify(&right, &a.id, &mut state), Ok(()));
    assert_eq!(verify(&right, &a.id, &mut state), Err(Error::DeviceNotFound));
    assert_eq!(state.devices.devices.len(), 2);
}

#[test]
fn register_refuses_bad_public_key() {
    let mut state = fresh_state();
    for public_key in ["", "not base64!", "AAAA", "aGVsbG8gd29ybGQ="] {
        let request = RegisterDeviceRequest {
            name: "a".to_string(),
            public_key: public_key.to_string(),
        };
        let error = enroll(&request, &mut state).unwrap_err();
        assert_eq!(error, Error::InvalidPublicKey);
        assert_eq!(error.status(), 500);
        assert_eq!(request.decode_public_key(), None);
    }
    assert!(state.devices.devices.is_empty());
    assert!(state.verification_devices.devices.is_empty());
}

#[test]
fn register_decodes_public_key() {
    let mut state = fresh_state();
    // 32 bytes from 0 to 31
    let request = RegisterDeviceRequest {
        name: "a".to_string(),
        public_key: "AAECAwQFBgcICQoLDA0ODxAREhMUFRYXGBkaGxwdHh8=".to_string(),
    };
    let expected: Vec<u8> = (0..32).collect();
    assert_eq!(request.decode_public_key().unwrap().to_vec(), expected);
    enroll(&request, &mut state).unwrap();
    assert_eq!(state.devices.devices[0].public_key.to_vec(), expected);

    let built = RegisterDeviceRequest::new("a", &request.decode_public_key().unwrap());
    assert_eq!(built.public_key, request.public_key);
}

#[test]
fn to_device_with_given_id() {
    let request = RegisterDeviceRequest::new("phone", &[3; 32]);
    let device = request.to_device_with_id("0123".to_string()).unwrap();
    assert_eq!(device, Device::new("0123".to_string(), "phone".to_string(), [3; 32]));
    let device = request.to_device().unwrap();
    assert!(is_id(device.id()));
    assert_eq!(device.name(), "phone");
    assert_eq!(device.nonce, None);
}

#[test]
fn register_device_with_given_values() {
    let mut state = AppState::new([5; 32]);
    let first = Device::new("01".to_string(), "a".to_string(), [1; 32]);
    let response =
        register_device(first.clone(), VerificationCode("unused".to_string()), &mut state);
    assert_eq!(response.id, "01");
    assert_eq!(response.name, "a");
    assert_eq!(response.verification_code, "");
    assert_eq!(response.server_public_key, public_key(&[5; 32]));
    assert_eq!(state.devices.devices, vec![first]);

    let second = Device::new("02".to_string(), "b".to_string(), [2; 32]);
    let response = register_device(
        second.clone(),
        VerificationCode("four words of code".to_string()),
        &mut state,
    );
    assert_eq!(response.id, "02");
    assert_eq!(response.verification_code, "four words of code");
    assert_eq!(state.devices.devices.len(), 1);
    assert_eq!(
        state.verification_devices.devices,
        vec![(VerificationCode("four words of code".to_string()), second)]
    );
}

#[test]
fn verification_codes() {
    let one = VerificationCode::generate();
    let two = VerificationCode::generate();
    assert!(!one.as_str().is_empty());
    assert_ne!(one, two);
    assert!(one.eq(one.as_str()));
    assert!(!one.eq(two.as_str()));
    assert!(VerificationCode("a b".to_string()).eq("a b"));
    assert!(!VerificationCode("a b".to_string()).eq("a"));
}

#[test]
fn ids_never_in_both_lists() {
    let (mut state, a) = TestClient::setup().unwrap();
    let mut pending = Vec::new();
    for name in ["b", "c", "d"] {
        let secret = StaticSecret::new_with_os_rand().to_bytes();
        let response =
            enroll(&RegisterDeviceRequest::new(name, &public_key(&secret)), &mut state).unwrap();
        pending.push(response);
    }
    let apart = |state: &AppState| {
        state.devices.devices.iter().all(|device| {
            state.verification_devices.find(device.id()).is_none()
        })
    };
    assert!(apart(&state));
    for response in pending {
        let request = NeedsVerificationDevice {
            id: response.id.clone(),
            name: response.name.clone(),
            verification_code: response.verification_code.clone(),
        };
        verify(&request, &a.id, &mut state).unwrap();
        assert!(apart(&state));
        assert!(state.devices.find(&response.id).is_some());
    }
    assert_eq!(state.devices.devices.len(), 4);
    assert!(state.verification_devices.devices.is_empty());
}
