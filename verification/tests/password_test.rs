use keybear::app::AppState;
use keybear::body::EncryptedBody;
use keybear::error::Error;
use keybear::password::{get_password, get_passwords, post_passwords, Password, Passwords};
use keybear::route::{Method, Payload, Reply};
use keybear::test::TestClient;
use keybear::types::RegisterPasswordRequest;

#[test]
fn save() {
    // Setup the server and register a single client
    let (mut app, client) = TestClient::setup().unwrap();

    // Create a password to save
    let password = RegisterPasswordRequest {
        name: "test".to_string(),
        password: "test_password".to_string(),
        email: None,
        website: None,
    };
    let name = password.name.clone();
    let secret = password.password.clone();

    // Save the password
    let created = match client
        .perform_encrypted_request_with_body(
            &mut app,
            "/v1/passwords",
            Method::Post,
            "{\"name\":\"test\",\"password\":\"test_password\"}",
            &Payload::RegisterPassword(password),
        )
        .unwrap()
    {
        Reply::PostedPassword(created) => created,
        other => panic!("not created: {:?}", other),
    };
    assert_eq!(name, created.name);

    // Verify it's in the list of passwords
    let passwords = match client
        .perform_encrypted_request(&mut app, "/v1/passwords", Method::Get)
        .unwrap()
    {
        Reply::Passwords(passwords) => passwords,
        other => panic!("no passwords: {:?}", other),
    };
    assert_eq!(passwords.len(), 1);
    assert_eq!(passwords[0].id, created.id);

    // Try to get the password by it's ID
    let stored_password = match client
        .perform_encrypted_request(
            &mut app,
            &format!("{}/{}", "/v1/passwords", created.id),
            Method::Get,
        )
        .unwrap()
    {
        Reply::Password(stored_password) => stored_password,
        other => panic!("no password: {:?}", other),
    };
    assert_eq!(stored_password.password, secret);
}

#[test]
fn password_round_trip() {
    let (mut state, client) = TestClient::setup().unwrap();

    // POST /v1/passwords {name:"x", password:"p"}
    let body = "{\"name\":\"x\",\"password\":\"p\"}";
    let opened = client.open_request_with_body(&mut state, body).unwrap();
    assert_eq!(opened.data, body);
    let request = RegisterPasswordRequest {
        name: "x".to_string(),
        password: "p".to_string(),
        email: None,
        website: None,
    };
    let created = post_passwords(&request, &mut state);
    assert_eq!(created.name, "x");
    assert_eq!(created.id.len(), 32);
    assert_eq!(created.email, None);
    assert_eq!(created.website, None);
    let reply = format!("{{\"id\":\"{}\",\"name\":\"x\"}}", created.id);
    let nonce = opened.nonce.clone().unwrap();
    let sealed = EncryptedBody::new(reply.clone()).respond_to(&opened).unwrap();
    assert_eq!(client.decrypt_response(&nonce, &sealed).unwrap(), reply);

    // GET /v1/passwords/{id}
    client.open_request(&mut state).unwrap();
    assert_eq!(get_password(&created.id, &state).unwrap().password, "p");

    // GET /v1/passwords lists the id, without the secret
    client.open_request(&mut state).unwrap();
    let list = get_passwords(&state);
    assert_eq!(list.len(), 1);
    assert_eq!(list[0].id, created.id);
    assert_eq!(list[0].name, "x");
}

#[test]
fn password_not_found() {
    let mut state = AppState::new([1; 32]);
    let error = get_password("missing", &state).unwrap_err();
    assert_eq!(error, Error::PasswordNotFound);
    assert_eq!(error.status(), 404);
    let created = post_passwords(
        &RegisterPasswordRequest {
            name: "x".to_string(),
            password: "p".to_string(),
            email: Some("x@example.com".to_string()),
            website: Some("example.com".to_string()),
        },
        &mut state,
    );
    assert_eq!(created.email.as_deref(), Some("x@example.com"));
    assert_eq!(created.website.as_deref(), Some("example.com"));
    assert_eq!(get_password("missing", &state).unwrap_err(), Error::PasswordNotFound);
    assert_eq!(get_password(&created.id[..31], &state).unwrap_err(), Error::PasswordNotFound);
}

#[test]
fn passwords_collection() {
    let mut passwords = Passwords::default();
    assert!(passwords.by_id("1").is_none());
    assert!(passwords.to_public_vec().is_empty());
    let entry = |id: &str, secret: &str| Password {
        id: id.to_string(),
        name: format!("name of {}", id),
        password: secret.to_string(),
        email: None,
        website: Some("w".to_string()),
    };
    passwords.register(entry("1", "one"));
    passwords.register(entry("2", "two"));
    passwords.register(entry("1", "again"));
    assert_eq!(passwords.passwords.len(), 3);
    // The first with the identifier is found
    assert_eq!(passwords.by_id("1").unwrap().password, "one");
    assert_eq!(passwords.by_id("2").unwrap().password, "two");
    assert!(passwords.by_id("3").is_none());
    assert_eq!(passwords.by_id("2").unwrap().to_response().password, "two");

    let public = passwords.to_public_vec();
    assert_eq!(public.len(), 3);
    assert_eq!(public[1].id, "2");
    assert_eq!(public[1].name, "name of 2");
    assert_eq!(public[1].email, None);
    assert_eq!(public[1].website.as_deref(), Some("w"));
    assert_eq!(public[2].id, "1");

    assert_eq!(passwords.by_id("1").unwrap().clone(), entry("1", "one"));
}

#[test]
fn to_password_keeps_the_request() {
    let request = RegisterPasswordRequest {
        name: "n".to_string(),
        password: "p".to_string(),
        email: Some("e".to_string()),
        website: None,
    };
    let password = request.to_password_with_id("id".to_string());
    assert_eq!(
        password,
        Password {
            id: "id".to_string(),
            name: "n".to_string(),
            password: "p".to_string(),
            email: Some("e".to_string()),
            website: None,
        }
    );
    let one = request.to_password();
    let two = request.to_password();
    assert_eq!(one.id.len(), 32);
    assert!(one.id.chars().all(|c| matches!(c, '0'..='9' | 'a'..='f')));
    assert_ne!(one.id, two.id);
    assert_eq!(one.password, "p");
}
