//! Shared-secret authentication of the websocket upgrade: the signed salt,
//! the derived signing key and the four `x-nh-*` headers.
use crate::text::{concat, decimal, owned, u64_decimal};
use hmac::Mac;
use vstd::utf8::encode_utf8;
use vstd::prelude::*;

verus! {

/// The algorithm string: HMAC over SHA-256, 1000 PBKDF2 iterations, a
/// 32-byte key.
pub const SHARED_SECRET_ALG: &'static str = "NH1-HMAC-sha256-1000-32";

/// PBKDF2 iterations named by the algorithm string.
pub const SHARED_SECRET_ITERATIONS: u32 = 1000;

/// Length in bytes of the derived signing key.
pub const SHARED_SECRET_KEY_LEN: usize = 32;

/// What PBKDF2 with HMAC-SHA256 derives from a password and a salt.
pub uninterp spec fn pbkdf2_sha256(password: Seq<u8>, salt: Seq<u8>, rounds: u32, len: usize) -> Seq<u8>;

/// What HMAC-SHA256 computes for a key and a message.
pub uninterp spec fn hmac_sha256(key: Seq<u8>, message: Seq<u8>) -> Seq<u8>;

/// What standard, padded base64 encoding gives for bytes.
pub uninterp spec fn base64_standard_encode(bytes: Seq<u8>) -> Seq<char>;

/// `pbkdf2::pbkdf2_hmac::<Sha256>`: derives `len` bytes from `password` and
/// `salt` with `rounds` iterations. The output is produced in 32-byte blocks
/// numbered from one by a `u32`, so at most that many blocks are asked for.
#[verifier::external_body]
fn derive_key(password: &[u8], salt: &[u8], rounds: u32, len: usize) -> (r: Vec<u8>)
    requires
        len as int <= 32 * 0xffff_ffff,
    ensures
        r@ == pbkdf2_sha256(password@, salt@, rounds, len),
        r@.len() == len,
{
    let mut out = vec![0u8; len];
    pbkdf2::pbkdf2_hmac::<sha2::Sha256>(password, salt, rounds, &mut out);
    out
}

/// `Hmac::<Sha256>`: the 32-byte tag of `message` under `key` (any key
/// length is accepted).
#[verifier::external_body]
fn sign(key: &[u8], message: &[u8]) -> (r: Vec<u8>)
    ensures
        r@ == hmac_sha256(key@, message@),
        r@.len() == 32,
{
    match hmac::Hmac::<sha2::Sha256>::new_from_slice(key) {
        Ok(mut mac) => {
            mac.update(message);
            mac.finalize().into_bytes().to_vec()
        },
        Err(_) => Vec::new(),
    }
}

/// `base64::engine::general_purpose::STANDARD.encode`.
#[verifier::external_body]
fn encode_standard(bytes: &[u8]) -> (r: String)
    requires
        bytes@.len() <= usize::MAX / 4,
    ensures
        r@ == base64_standard_encode(bytes@),
{
    base64::Engine::encode(&base64::engine::general_purpose::STANDARD, bytes)
}

/// The salt signed for a connection: the connect purpose, then the algorithm,
/// key and time headers.
pub open spec fn salt_text(key: Seq<char>, timestamp: u64) -> Seq<char> {
    "NH1:device-socket:shared-secret:connect\n\nx-nh-alg="@ + SHARED_SECRET_ALG@ + "\nx-nh-key="@
        + key + "\nx-nh-time="@ + decimal(timestamp as nat)
}

/// The signature of `serial`: the UTF-8 serial signed with the key derived
/// by PBKDF2 from the UTF-8 secret and salt, in base64.
pub open spec fn signature_text(key: Seq<char>, secret: Seq<char>, serial: Seq<char>, timestamp: u64) -> Seq<char> {
    base64_standard_encode(
        hmac_sha256(
            pbkdf2_sha256(
                encode_utf8(secret),
                encode_utf8(salt_text(key, timestamp)),
                SHARED_SECRET_ITERATIONS,
                SHARED_SECRET_KEY_LEN,
            ),
            encode_utf8(serial),
        ),
    )
}

/// Shared-secret credentials: a key identifier and its secret.
#[derive(Debug, Clone)]
pub struct SharedSecretAuth {
    key: String,
    secret: String,
}

impl SharedSecretAuth {
    /// The key identifier.
    pub closed spec fn key_text(&self) -> Seq<char> {
        self.key@
    }

    /// The secret.
    pub closed spec fn secret_text(&self) -> Seq<char> {
        self.secret@
    }

    /// Credentials of `key` and `secret`.
    pub fn new(key: &str, secret: &str) -> (r: SharedSecretAuth)
        ensures
            r.key_text() == key@,
            r.secret_text() == secret@,
    {
        SharedSecretAuth { key: owned(key), secret: owned(secret) }
    }

    /// The algorithm string.
    pub fn algorithm(&self) -> (r: &'static str)
        ensures
            r@ == SHARED_SECRET_ALG@,
    {
        SHARED_SECRET_ALG
    }

    /// The salt signed for a connection made at `timestamp` (seconds since
    /// the Unix epoch).
    pub fn salt(&self, timestamp: u64) -> (r: String)
        ensures
            r@ == salt_text(self.key_text(), timestamp),
    {
        let mut s = concat("NH1:device-socket:shared-secret:connect\n\nx-nh-alg=", SHARED_SECRET_ALG);
        s.append("\nx-nh-key=");
        s.append(self.key.as_str());
        s.append("\nx-nh-time=");
        s.append(u64_decimal(timestamp).as_str());
        s
    }

    /// The four authentication headers for `serial` at `timestamp`, in the
    /// order `x-nh-alg`, `x-nh-key`, `x-nh-time`, `x-nh-signature`.
    pub fn auth_headers(&self, serial: &str, timestamp: u64) -> (r: Vec<(String, String)>)
        ensures
            r@.len() == 4,
            r@[0].0@ == "x-nh-alg"@ && r@[0].1@ == SHARED_SECRET_ALG@,
            r@[1].0@ == "x-nh-key"@ && r@[1].1@ == self.key_text(),
            r@[2].0@ == "x-nh-time"@ && r@[2].1@ == decimal(timestamp as nat),
            r@[3].0@ == "x-nh-signature"@,
            r@[3].1@ == signature_text(self.key_text(), self.secret_text(), serial@, timestamp),
    {
        let salt = self.salt(timestamp);
        let signing_key = derive_key(
            self.secret.as_str().as_bytes(),
            salt.as_str().as_bytes(),
            SHARED_SECRET_ITERATIONS,
            SHARED_SECRET_KEY_LEN,
        );
        let tag = sign(signing_key.as_slice(), serial.as_bytes());
        let signature = encode_standard(tag.as_slice());
        let mut headers: Vec<(String, String)> = Vec::new();
        headers.push((owned("x-nh-alg"), owned(SHARED_SECRET_ALG)));
        headers.push((owned("x-nh-key"), self.key.clone()));
        headers.push((owned("x-nh-time"), u64_decimal(timestamp)));
        headers.push((owned("x-nh-signature"), signature));
        headers
    }
}

} // verus!
