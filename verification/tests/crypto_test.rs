use chacha20poly1305::aead::{Aead, NewAead};
use keybear::crypto::{
    decrypt, encrypt, key_from_bytes, public_key, shared_key, CryptoError, KeyError, KeyFile,
    StaticSecret,
};

fn hex(text: &str) -> [u8; 32] {
    let mut bytes = [0u8; 32];
    for i in 0..32 {
        bytes[i] = u8::from_str_radix(&text[2 * i..2 * i + 2], 16).unwrap();
    }
    bytes
}

const ALICE_SECRET: &str = "77076d0a7318a57d3c16c17251b26645df4c2f87ebc0992ab177fba51db92c2a";
const ALICE_PUBLIC: &str = "8520f0098930a754748b7ddcb43ef75a0dbf3a0d26381af4eba4a98eaa9b4e6a";
const BOB_SECRET: &str = "5dab087e624a8a4b79e17f8b83800ee66f3bb1292618b6fd1c2f8b27ff88e0eb";
const BOB_PUBLIC: &str = "de9edb7d7b7dc1b4d35b61c2ece435373f8343c85b78674dadfc7e146f882b4f";
const SHARED: &str = "4a5d9d5ba4ce2de1728e3bf480350f25e07e21c947d19e3376f09b3c1e161742";

#[test]
fn default() {
    // Nothing lies at the path: a new key is generated, and is to be saved
    let (_key, save) = StaticSecret::from_file_or_generate(&KeyFile::Missing).unwrap();
    assert!(save);
}

#[test]
fn verify() {
    // A non-existing file means it's not a valid file for the keys
    assert_eq!(StaticSecret::verify_file(&KeyFile::Missing), false);
}

#[test]
fn verify_file_kinds() {
    assert!(StaticSecret::verify_file(&KeyFile::File(vec![])));
    assert!(!StaticSecret::verify_file(&KeyFile::NotAFile));
}

#[test]
fn save_and_load() {
    // Generate a new pair of keys.
    let secret = StaticSecret::new_with_os_rand();

    // What saving the secret key leaves on disk
    let file = KeyFile::File(secret.to_bytes().to_vec());

    // Load the saved secret key
    let disk_secret = StaticSecret::from_file(&file).unwrap();

    // Check if they are the same
    assert_eq!(secret.to_bytes(), disk_secret.to_bytes());
}

#[test]
fn load_existing_key_is_not_saved_again() {
    let bytes: Vec<u8> = (1..=32).collect();
    let (key, save) = StaticSecret::from_file_or_generate(&KeyFile::File(bytes.clone())).unwrap();
    assert!(!save);
    assert_eq!(key.to_bytes().to_vec(), bytes);
}

#[test]
fn malformed_key_file_is_an_error() {
    assert_eq!(
        StaticSecret::from_file(&KeyFile::File(vec![0; 31])).unwrap_err(),
        KeyError::WrongSize
    );
    assert_eq!(
        StaticSecret::from_file(&KeyFile::File(vec![0; 33])).unwrap_err(),
        KeyError::WrongSize
    );
    assert_eq!(
        StaticSecret::from_file(&KeyFile::File(vec![])).unwrap_err(),
        KeyError::WrongSize
    );
    assert_eq!(StaticSecret::from_file(&KeyFile::NotAFile).unwrap_err(), KeyError::NotAFile);
    assert_eq!(StaticSecret::from_file(&KeyFile::Missing).unwrap_err(), KeyError::NotAFile);
    // Never regenerate silently
    assert_eq!(
        StaticSecret::from_file_or_generate(&KeyFile::File(vec![0; 31])).unwrap_err(),
        KeyError::WrongSize
    );
    assert_eq!(
        StaticSecret::from_file_or_generate(&KeyFile::NotAFile).unwrap_err(),
        KeyError::NotAFile
    );
}

#[test]
fn generated_keys_differ() {
    let a = StaticSecret::new_with_os_rand();
    let b = StaticSecret::new_with_os_rand();
    assert_ne!(a.to_bytes(), b.to_bytes());
}

#[test]
fn key_from_bytes_wants_32() {
    let bytes: Vec<u8> = (0..32).collect();
    assert_eq!(key_from_bytes(&bytes).unwrap().to_vec(), bytes);
    assert_eq!(key_from_bytes(&bytes[..31]), None);
    assert_eq!(key_from_bytes(&[]), None);
}

#[test]
fn encrypt_decrypt() {
    // Generate a new shared key
    let alice_secret = StaticSecret::new_with_os_rand().to_bytes();
    let bob_secret = StaticSecret::new_with_os_rand().to_bytes();
    let bob_public = public_key(&bob_secret);
    let shared_secret = shared_key(&alice_secret, &bob_public);

    let plaintext = "Oh hi Mark!";

    // Encrypt a string
    let cipher_bytes = encrypt(&shared_secret, b"unique nonce", plaintext).unwrap();

    // Decrypt the string
    let decrypted = decrypt(&shared_secret, b"unique nonce", &cipher_bytes).unwrap();

    assert_eq!(plaintext, decrypted);
}

#[test]
fn public_key_known_answer() {
    assert_eq!(public_key(&hex(ALICE_SECRET)), hex(ALICE_PUBLIC));
    assert_eq!(public_key(&hex(BOB_SECRET)), hex(BOB_PUBLIC));
}

#[test]
fn shared_key_known_answer() {
    assert_eq!(shared_key(&hex(ALICE_SECRET), &hex(BOB_PUBLIC)), hex(SHARED));
    assert_eq!(shared_key(&hex(BOB_SECRET), &hex(ALICE_PUBLIC)), hex(SHARED));
}

#[test]
fn shared_key_is_symmetric() {
    let server = StaticSecret::new_with_os_rand().to_bytes();
    let client = StaticSecret::new_with_os_rand().to_bytes();
    assert_eq!(
        shared_key(&server, &public_key(&client)),
        shared_key(&client, &public_key(&server))
    );
}

#[test]
fn round_trip_between_both_sides() {
    let server = hex(ALICE_SECRET);
    let client = hex(BOB_SECRET);
    let nonce = [7u8; 12];
    let message = "{\"name\":\"x\",\"password\":\"p\"}";
    let sealed = encrypt(&shared_key(&client, &public_key(&server)), &nonce, message).unwrap();
    let opened = decrypt(&shared_key(&server, &public_key(&client)), &nonce, &sealed).unwrap();
    assert_eq!(opened, message);
}

#[test]
fn ciphertext_is_message_and_tag() {
    let key = hex(SHARED);
    let nonce = [1u8; 12];
    let sealed = encrypt(&key, &nonce, "hello").unwrap();
    assert_eq!(sealed.len(), 5 + 16);
    assert_ne!(&sealed[..5], b"hello");
    // The same as the cipher gives when called directly
    let cipher = chacha20poly1305::ChaCha20Poly1305::new(chacha20poly1305::Key::from_slice(&key));
    let direct = cipher
        .encrypt(chacha20poly1305::Nonce::from_slice(&nonce), "hello".as_bytes())
        .unwrap();
    assert_eq!(sealed, direct);
    // The empty message is a tag alone
    assert_eq!(encrypt(&key, &nonce, "").unwrap().len(), 16);
}

#[test]
fn decrypt_refuses_what_is_not_authentic() {
    let key = hex(SHARED);
    let nonce = [1u8; 12];
    let sealed = encrypt(&key, &nonce, "hello").unwrap();

    // Another nonce
    assert_eq!(decrypt(&key, &[2u8; 12], &sealed), Err(CryptoError::Decrypt));
    // Another key
    assert_eq!(decrypt(&hex(ALICE_SECRET), &nonce, &sealed), Err(CryptoError::Decrypt));
    // A changed byte
    let mut changed = sealed.clone();
    changed[0] ^= 1;
    assert_eq!(decrypt(&key, &nonce, &changed), Err(CryptoError::Decrypt));
    // Too short to hold a tag
    assert_eq!(decrypt(&key, &nonce, &sealed[..15]), Err(CryptoError::Decrypt));
    assert_eq!(decrypt(&key, &nonce, &[]), Err(CryptoError::Decrypt));
}

#[test]
fn decrypt_refuses_what_is_no_text() {
    let key = hex(SHARED);
    let nonce = [1u8; 12];
    let cipher = chacha20poly1305::ChaCha20Poly1305::new(chacha20poly1305::Key::from_slice(&key));
    let sealed = cipher
        .encrypt(chacha20poly1305::Nonce::from_slice(&nonce), &[0xff_u8, 0xfe][..])
        .unwrap();
    assert_eq!(decrypt(&key, &nonce, &sealed), Err(CryptoError::InvalidUtf8));
}

#[test]
fn decrypt_keeps_unicode() {
    let key = hex(SHARED);
    let nonce = [9u8; 12];
    let message = "pässwörd ✓";
    let sealed = encrypt(&key, &nonce, message).unwrap();
    assert_eq!(sealed.len(), message.len() + 16);
    assert_eq!(decrypt(&key, &nonce, &sealed).unwrap(), message);
}
