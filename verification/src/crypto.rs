//! Session crypto: key agreement over Curve25519 and authenticated encryption
//! of message bodies under a per-device shared key and a single-use nonce.
//!
//! Keys and nonces are held as plain byte arrays. The curve arithmetic and the
//! cipher are the work of `x25519-dalek` and `chacha20poly1305`; what this
//! module assumes of them is written on the private functions at its end.

use vstd::prelude::*;
use vstd::string::StringSliceAdditionalSpecFns;
use vstd::utf8::{decode_utf8, encode_utf8, valid_utf8};
use vstd::utf8::{encode_utf8_decode_utf8, encode_utf8_valid_utf8};

use chacha20poly1305::aead::{Aead, NewAead};

verus! {

/// Number of bytes in a secret key, a public key and a shared key.
pub const KEY_LEN: usize = 32;

/// Number of bytes in a nonce.
pub const NONCE_LEN: usize = 12;

/// Number of bytes the authentication tag adds to a sealed message.
pub const TAG_LEN: usize = 16;

/// Messages of this many bytes or more are refused by the cipher.
pub const MAX_MESSAGE_LEN: u64 = 0x3f_ffff_ffc0;

/// The public key that belongs to a secret key.
pub uninterp spec fn x25519_public(secret: Seq<u8>) -> Seq<u8>;

/// The key two parties agree on from one's secret key and the other's public key.
pub uninterp spec fn x25519_shared(secret: Seq<u8>, public: Seq<u8>) -> Seq<u8>;

/// The ciphertext, tag included, of a message under a key and a nonce.
pub uninterp spec fn aead_sealed(key: Seq<u8>, nonce: Seq<u8>, plaintext: Seq<u8>) -> Seq<u8>;

/// The message inside a ciphertext, where the tag proves it authentic under the
/// key and the nonce.
pub uninterp spec fn aead_opened(key: Seq<u8>, nonce: Seq<u8>, ciphertext: Seq<u8>) -> Option<
    Seq<u8>,
>;

/// Why a message could not be sealed or opened.
#[derive(Debug, PartialEq, Eq, Structural, Clone, Copy)]
pub enum CryptoError {
    /// The message is too long for the cipher.
    Encrypt,
    /// The ciphertext is not authentic under this key and nonce.
    Decrypt,
    /// The decrypted bytes are not valid UTF-8.
    InvalidUtf8,
}

/// What `encrypt` returns for a key, a nonce and a message.
pub open spec fn spec_encrypt(key: Seq<u8>, nonce: Seq<u8>, message: Seq<char>) -> Result<
    Seq<u8>,
    CryptoError,
> {
    if encode_utf8(message).len() < MAX_MESSAGE_LEN {
        Ok(aead_sealed(key, nonce, encode_utf8(message)))
    } else {
        Err(CryptoError::Encrypt)
    }
}

/// What `decrypt` returns for a key, a nonce and a ciphertext.
pub open spec fn spec_decrypt(key: Seq<u8>, nonce: Seq<u8>, ciphertext: Seq<u8>) -> Result<
    Seq<char>,
    CryptoError,
> {
    match aead_opened(key, nonce, ciphertext) {
        None => Err(CryptoError::Decrypt),
        Some(bytes) => if valid_utf8(bytes) {
            Ok(decode_utf8(bytes))
        } else {
            Err(CryptoError::InvalidUtf8)
        },
    }
}

/// The view of an `encrypt` result.
pub open spec fn sealed_view(res: Result<Vec<u8>, CryptoError>) -> Result<Seq<u8>, CryptoError> {
    match res {
        Ok(bytes) => Ok(bytes@),
        Err(e) => Err(e),
    }
}

/// The view of a `decrypt` result.
pub open spec fn opened_view(res: Result<String, CryptoError>) -> Result<Seq<char>, CryptoError> {
    match res {
        Ok(text) => Ok(text@),
        Err(e) => Err(e),
    }
}

/// The public key for a secret key.
pub fn public_key(secret: &[u8; 32]) -> (public: [u8; 32])
    ensures
        public@ == x25519_public(secret@),
{
    x25519_public_key(secret)
}

/// The key shared between the holder of `secret` and the holder of the secret
/// key behind `their_public`.
///
/// The exchange is symmetric: the other party computes the same key from its
/// own secret and this party's public key.
pub fn shared_key(secret: &[u8; 32], their_public: &[u8; 32]) -> (shared: [u8; 32])
    ensures
        shared@ == x25519_shared(secret@, their_public@),
        forall|their_secret: Seq<u8>|
            their_secret.len() == KEY_LEN && their_public@ == x25519_public(their_secret)
                ==> shared@ == #[trigger] x25519_shared(
                their_secret,
                x25519_public(secret@),
            ),
{
    x25519_diffie_hellman(secret, their_public)
}

/// The key that a run of bytes holds: the bytes themselves, if they are 32.
pub fn key_from_bytes(bytes: &[u8]) -> (res: Option<[u8; 32]>)
    ensures
        match res {
            Some(key) => key@ == bytes@,
            None => bytes@.len() != KEY_LEN,
        },
{
    if bytes.len() != 32 {
        return None;
    }
    let mut key: [u8; 32] = [0u8; 32];
    let mut i: usize = 0;
    while i < 32
        invariant
            i <= 32,
            bytes@.len() == 32,
            forall|j: int| 0 <= j < i ==> key@[j] == bytes@[j],
        decreases 32 - i,
    {
        key[i] = bytes[i];
        i += 1;
    }
    assert(key@ =~= bytes@);
    Some(key)
}

/// What lies at the path of the key file.
#[derive(Debug)]
pub enum KeyFile {
    /// Nothing: the path does not exist.
    Missing,
    /// Something that is no regular file.
    NotAFile,
    /// A regular file with these contents.
    File(Vec<u8>),
}

/// Why the key file could not be used.
#[derive(Debug, PartialEq, Eq, Structural, Clone, Copy)]
pub enum KeyError {
    /// The path does not hold a regular file.
    NotAFile,
    /// The file does not hold exactly 32 bytes: it might be corrupt.
    WrongSize,
}

/// The server's long-term secret key.
#[derive(Debug)]
pub struct StaticSecret(pub [u8; 32]);

impl View for StaticSecret {
    type V = Seq<u8>;

    open spec fn view(&self) -> Seq<u8> {
        self.0@
    }
}

/// What loading the key file gives.
pub open spec fn spec_from_file(file: KeyFile) -> Result<Seq<u8>, KeyError> {
    match file {
        KeyFile::File(bytes) => if bytes@.len() == KEY_LEN {
            Ok(bytes@)
        } else {
            Err(KeyError::WrongSize)
        },
        _ => Err(KeyError::NotAFile),
    }
}

/// The view of a loaded key or an error.
pub open spec fn secret_view(res: Result<StaticSecret, KeyError>) -> Result<Seq<u8>, KeyError> {
    match res {
        Ok(key) => Ok(key@),
        Err(e) => Err(e),
    }
}

impl StaticSecret {
    /// Check whether there is a file containing the crypto keys.
    pub fn verify_file(file: &KeyFile) -> (res: bool)
        ensures
            res == (*file is File),
    {
        match file {
            KeyFile::File(_) => true,
            _ => false,
        }
    }

    /// Generate a new secret key with the OS random number generator.
    pub fn new_with_os_rand() -> (res: Self) {
        StaticSecret(random_secret())
    }

    /// Load the crypto keys from what the key file holds: it must be a
    /// regular file of exactly 32 bytes.
    pub fn from_file(file: &KeyFile) -> (res: Result<Self, KeyError>)
        ensures
            secret_view(res) == spec_from_file(*file),
    {
        match file {
            KeyFile::File(bytes) => match key_from_bytes(bytes.as_slice()) {
                Some(key) => Ok(StaticSecret(key)),
                None => Err(KeyError::WrongSize),
            },
            _ => Err(KeyError::NotAFile),
        }
    }

    /// Load the crypto key or generate a new one.
    ///
    /// A key is generated only where nothing lies at the path; the flag that
    /// comes with it then says that it is to be saved there. A path that holds
    /// anything but a regular file of 32 bytes is an error: the key is never
    /// replaced silently.
    pub fn from_file_or_generate(file: &KeyFile) -> (res: Result<(Self, bool), KeyError>)
        ensures
            match res {
                Ok((key, save)) => match *file {
                    KeyFile::Missing => save,
                    _ => !save && spec_from_file(*file) == Ok::<Seq<u8>, KeyError>(key@),
                },
                Err(e) => !(*file is Missing) && spec_from_file(*file) == Err::<
                    Seq<u8>,
                    KeyError,
                >(e),
            },
    {
        match file {
            KeyFile::Missing => Ok((Self::new_with_os_rand(), true)),
            _ => match Self::from_file(file) {
                Ok(key) => Ok((key, false)),
                Err(e) => Err(e),
            },
        }
    }

    /// The bytes of the key, as they are saved.
    pub fn to_bytes(&self) -> (res: [u8; 32])
        ensures
            res@ == self@,
    {
        self.0
    }
}

/// Encrypt a message under a shared key and a nonce. The result carries the
/// authentication tag behind the encrypted bytes.
pub fn encrypt(shared_secret_key: &[u8; 32], nonce: &[u8; 12], message: &str) -> (res: Result<
    Vec<u8>,
    CryptoError,
>)
    ensures
        sealed_view(res) == spec_encrypt(shared_secret_key@, nonce@, message@),
        res matches Ok(sealed) ==> {
            &&& sealed@.len() == message.spec_bytes().len() + TAG_LEN
            &&& spec_decrypt(shared_secret_key@, nonce@, sealed@) == Ok::<
                Seq<char>,
                CryptoError,
            >(message@)
        },
{
    proof {
        encode_utf8_valid_utf8(message@);
        encode_utf8_decode_utf8(message@);
    }
    match aead_seal(shared_secret_key, nonce, message.as_bytes()) {
        Some(sealed) => Ok(sealed),
        None => Err(CryptoError::Encrypt),
    }
}

/// Decrypt a ciphertext under a shared key and a nonce into the text it holds.
pub fn decrypt(shared_secret_key: &[u8; 32], nonce: &[u8; 12], cipher_bytes: &[u8]) -> (res:
    Result<String, CryptoError>)
    ensures
        opened_view(res) == spec_decrypt(shared_secret_key@, nonce@, cipher_bytes@),
        cipher_bytes@.len() < TAG_LEN ==> res == Err::<String, CryptoError>(CryptoError::Decrypt),
{
    match aead_open(shared_secret_key, nonce, cipher_bytes) {
        None => Err(CryptoError::Decrypt),
        Some(bytes) => match string_from_utf8(bytes) {
            Some(text) => Ok(text),
            None => Err(CryptoError::InvalidUtf8),
        },
    }
}

/// Calls `StaticSecret::new` of `x25519-dalek` with the random number
/// generator of the operating system (`OsRng` of `rand`). Nothing is assumed
/// of the bytes: they differ from call to call. It panics where the operating
/// system hands out no random bytes.
#[verifier::external_body]
fn random_secret() -> (secret: [u8; 32]) {
    x25519_dalek::StaticSecret::new(rand::rngs::OsRng).to_bytes()
}

/// Calls `PublicKey::from(&StaticSecret)` of `x25519-dalek` on the secret key
/// made from these bytes. Assumed: the bytes that come back depend on the
/// secret's bytes alone.
#[verifier::external_body]
fn x25519_public_key(secret: &[u8; 32]) -> (public: [u8; 32])
    ensures
        public@ == x25519_public(secret@),
{
    x25519_dalek::PublicKey::from(&x25519_dalek::StaticSecret::from(*secret)).to_bytes()
}

/// Calls `StaticSecret::diffie_hellman` of `x25519-dalek`. Assumed: the shared
/// bytes depend on the two keys alone, and the exchange is symmetric: whoever
/// holds the secret behind `their_public` gets the same bytes from this
/// secret's public key.
#[verifier::external_body]
fn x25519_diffie_hellman(secret: &[u8; 32], their_public: &[u8; 32]) -> (shared: [u8; 32])
    ensures
        shared@ == x25519_shared(secret@, their_public@),
        forall|their_secret: Seq<u8>|
            their_secret.len() == KEY_LEN && their_public@ == x25519_public(their_secret)
                ==> shared@ == #[trigger] x25519_shared(
                their_secret,
                x25519_public(secret@),
            ),
{
    let secret = x25519_dalek::StaticSecret::from(*secret);
    secret.diffie_hellman(&x25519_dalek::PublicKey::from(*their_public)).to_bytes()
}

/// Calls `Aead::encrypt` of `chacha20poly1305` with no associated data.
/// Assumed: it fails only on a message of `MAX_MESSAGE_LEN` bytes or more; the
/// ciphertext depends on key, nonce and message alone, is one tag longer than
/// the message, and opens to the message under the same key and nonce.
#[verifier::external_body]
#[allow(deprecated)]
fn aead_seal(key: &[u8; 32], nonce: &[u8; 12], plaintext: &[u8]) -> (sealed: Option<Vec<u8>>)
    ensures
        plaintext@.len() < MAX_MESSAGE_LEN ==> sealed is Some,
        sealed matches Some(bytes) ==> {
            &&& plaintext@.len() < MAX_MESSAGE_LEN
            &&& bytes@ == aead_sealed(key@, nonce@, plaintext@)
            &&& bytes@.len() == plaintext@.len() + TAG_LEN
            &&& aead_opened(key@, nonce@, bytes@) == Some(plaintext@)
        },
{
    let cipher = chacha20poly1305::ChaCha20Poly1305::new(chacha20poly1305::Key::from_slice(key));
    cipher.encrypt(chacha20poly1305::Nonce::from_slice(nonce), plaintext).ok()
}

/// Calls `Aead::decrypt` of `chacha20poly1305` with no associated data.
/// Assumed: whether it succeeds, and with which message, depends on key, nonce
/// and ciphertext alone; a ciphertext shorter than a tag is refused, and a
/// message that comes out is one tag shorter than the ciphertext.
#[verifier::external_body]
#[allow(deprecated)]
fn aead_open(key: &[u8; 32], nonce: &[u8; 12], ciphertext: &[u8]) -> (opened: Option<Vec<u8>>)
    ensures
        opened is Some <==> aead_opened(key@, nonce@, ciphertext@) is Some,
        opened matches Some(bytes) ==> {
            &&& aead_opened(key@, nonce@, ciphertext@) == Some(bytes@)
            &&& bytes@.len() + TAG_LEN == ciphertext@.len()
        },
        ciphertext@.len() < TAG_LEN ==> opened is None,
{
    let cipher = chacha20poly1305::ChaCha20Poly1305::new(chacha20poly1305::Key::from_slice(key));
    cipher.decrypt(chacha20poly1305::Nonce::from_slice(nonce), ciphertext).ok()
}

/// Calls `String::from_utf8` of std. Assumed, as its documentation says: it
/// succeeds exactly on valid UTF-8, and the string then holds the decoded text.
#[verifier::external_body]
fn string_from_utf8(bytes: Vec<u8>) -> (text: Option<String>)
    ensures
        text is Some <==> valid_utf8(bytes@),
        text matches Some(s) ==> s@ == decode_utf8(bytes@),
{
    String::from_utf8(bytes).ok()
}

} // verus!
