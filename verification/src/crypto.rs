//! The cryptographic primitives of the protocol, each a call into an outside crate.

use vstd::prelude::*;
use hmac::Mac;
use rand::RngCore;
use vstd::string::StringExecFns;
use crate::validations::utf8_len;

verus! {

/// HMAC-SHA256 tag of `message` under `key`.
pub uninterp spec fn hmac_sha256(key: Seq<u8>, message: Seq<u8>) -> Seq<u8>;

/// Whether `signature` is an ASN.1-encoded ECDSA P-256/SHA-256 signature of `message`
/// under the public key `public_key`.
pub uninterp spec fn ecdsa_p256_sha256_valid(
    public_key: Seq<u8>,
    message: Seq<u8>,
    signature: Seq<u8>,
) -> bool;

/// SHA-256 digest of `message`.
pub uninterp spec fn sha256(message: Seq<u8>) -> Seq<u8>;

/// Argon2id hash, with the interactive cost settings of dryoc, of `password` under `salt`.
pub uninterp spec fn argon2id_interactive(password: Seq<u8>, salt: Seq<u8>) -> Seq<u8>;

/// Upper-case hexadecimal digits.
pub open spec fn hex_digits_upper() -> Seq<char> {
    seq!['0', '1', '2', '3', '4', '5', '6', '7', '8', '9', 'A', 'B', 'C', 'D', 'E', 'F']
}

/// Upper-case hexadecimal encoding: two digits per byte, high nibble first.
pub open spec fn hex_upper(data: Seq<u8>) -> Seq<char>
    decreases data.len(),
{
    if data.len() == 0 {
        Seq::empty()
    } else {
        seq![hex_digits_upper()[(data[0] / 16) as int], hex_digits_upper()[(data[0] % 16) as int]] + hex_upper(
            data.drop_first(),
        )
    }
}

/// Computes the tag with `hmac::Hmac::<sha2::Sha256>` (`new_from_slice`, `update`,
/// `finalize`). The source of hmac 0.12 accepts keys of every length, and SHA-256 makes the
/// tag 32 bytes long; the tag itself is only named, not stated.
#[verifier::external_body]
fn hmac_sha256_tag(key: &[u8], message: &[u8]) -> (tag: Vec<u8>)
    ensures
        tag@ == hmac_sha256(key@, message@),
        tag@.len() == 32,
{
    let mut mac = hmac::Hmac::<sha2::Sha256>::new_from_slice(key).expect("HMAC can take key of any size");
    mac.update(message);
    mac.finalize().into_bytes().to_vec()
}

/// Computes the digest with `ring::digest::digest` under `ring::digest::SHA256`, which is a
/// function of the message alone and 32 bytes long; the digest itself is only named.
#[verifier::external_body]
fn sha256_digest(message: &[u8]) -> (d: Vec<u8>)
    ensures
        d@ == sha256(message@),
        d@.len() == 32,
{
    ring::digest::digest(&ring::digest::SHA256, message).as_ref().to_vec()
}

/// Fills `buf` from `rand::rngs::EntropyRng::fill_bytes`, the operating system's source of
/// randomness. Nothing is claimed of the bytes but their number; the call panics if the
/// operating system cannot deliver randomness, which no argument can cause or prevent.
#[verifier::external_body]
fn fill_from_entropy(buf: &mut [u8])
    ensures
        final(buf)@.len() == old(buf)@.len(),
{
    #[allow(deprecated)]
    let mut rng = rand::rngs::EntropyRng::new();
    rng.fill_bytes(buf);
}

/// Checks a signature with `ring::signature::UnparsedPublicKey::verify` under
/// `ECDSA_P256_SHA256_ASN1`; the result is named, as it is a function of the three
/// arguments alone.
#[verifier::external_body]
fn ecdsa_p256_sha256_verify(public_key: &[u8], message: &[u8], signature: &[u8]) -> (ok: bool)
    ensures
        ok == ecdsa_p256_sha256_valid(public_key@, message@, signature@),
{
    let key = ring::signature::UnparsedPublicKey::new(&ring::signature::ECDSA_P256_SHA256_ASN1, public_key);
    key.verify(message, signature).is_ok()
}

/// Encodes `data` with `hex::encode_upper`, which writes each byte as two digits of
/// `0123456789ABCDEF`, the high nibble first.
#[verifier::external_body]
fn hex_encode_upper(data: &[u8]) -> (s: String)
    ensures
        s@ == hex_upper(data@),
{
    hex::encode_upper(data)
}

/// Hashes `password` with `dryoc::pwhash::PwHash::hash_interactive`, which draws a salt of
/// `Config::interactive().salt_length` (16) random bytes and then hashes exactly as
/// `hash_with_salt` does with that salt; returns the hash and the salt (`into_parts`).
/// Argon2 refuses passwords longer than `0xFFFF_FFFF` bytes, hence the `requires`; the
/// call also panics if the operating system gives no randomness or no memory for the
/// interactive cost, which no argument can cause or prevent.
#[verifier::external_body]
fn argon2id_interactive_random_salt(password: &[u8]) -> (r: (Vec<u8>, Vec<u8>))
    requires
        password@.len() <= 0xFFFF_FFFF,
    ensures
        r.1@.len() == 16,
        r.0@ == argon2id_interactive(password@, r.1@),
        r.0@.len() == 32,
{
    let pwhash: dryoc::pwhash::VecPwHash = dryoc::pwhash::PwHash::hash_interactive(&password)
        .expect("unable to hash password");
    let (hash, salt, _) = pwhash.into_parts();
    (hash, salt)
}

/// Hashes `password` under `salt` with `dryoc::pwhash::PwHash::hash_with_salt` and
/// `Config::interactive()`; returns the hash and the salt (`into_parts`). Argon2 refuses salts
/// shorter than 8 or longer than `0xFFFF_FFFF` bytes and passwords longer than `0xFFFF_FFFF`
/// bytes, hence the `requires`; the hash is 32 bytes long (`STR_HASHBYTES`).
#[verifier::external_body]
fn argon2id_interactive_with_salt(password: &[u8], salt: &[u8]) -> (r: (Vec<u8>, Vec<u8>))
    requires
        password@.len() <= 0xFFFF_FFFF,
        8 <= salt@.len() <= 0xFFFF_FFFF,
    ensures
        r.0@ == argon2id_interactive(password@, salt@),
        r.0@.len() == 32,
        r.1@ == salt@,
{
    let pwhash: dryoc::pwhash::VecPwHash = dryoc::pwhash::PwHash::hash_with_salt(
        &password,
        salt.to_vec(),
        dryoc::pwhash::Config::interactive(),
    ).expect("unable to hash password");
    let (hash, salt, _) = pwhash.into_parts();
    (hash, salt)
}

/// A password hash and the salt it was made with.
#[derive(Clone, Debug, PartialEq, Eq)]
pub struct PasswordHash {
    pub hash: Vec<u8>,
    pub salt: Vec<u8>,
}

/// Hashes `password` under a fresh random salt of 16 bytes.
pub fn hash_pwd(password: String) -> (h: PasswordHash)
    requires
        utf8_len(password@) <= 0xFFFF_FFFF,
    ensures
        h.salt@.len() == 16,
        h.hash@ == argon2id_interactive(vstd::utf8::encode_utf8(password@), h.salt@),
        h.hash@.len() == 32,
{
    let bytes = password.as_str().as_bytes();
    let (hash, salt) = argon2id_interactive_random_salt(bytes);
    PasswordHash { hash, salt }
}

/// Hashes `password` under `salt`.
pub fn hash_pwd_with_salt(password: String, salt: Vec<u8>) -> (h: PasswordHash)
    requires
        utf8_len(password@) <= 0xFFFF_FFFF,
        8 <= salt@.len() <= 0xFFFF_FFFF,
    ensures
        h.salt@ == salt@,
        h.hash@ == argon2id_interactive(vstd::utf8::encode_utf8(password@), salt@),
        h.hash@.len() == 32,
{
    let bytes = password.as_str().as_bytes();
    let (hash, salt) = argon2id_interactive_with_salt(bytes, salt.as_slice());
    PasswordHash { hash, salt }
}

/// HMAC-SHA256 of `message` under `key`.
pub fn get_mac(key: &Vec<u8>, message: &Vec<u8>) -> (mac: Vec<u8>)
    ensures
        mac@ == hmac_sha256(key@, message@),
        mac@.len() == 32,
{
    hmac_sha256_tag(key.as_slice(), message.as_slice())
}

/// Overwrites `result` with random bytes; its length is kept.
pub fn random_bytes(result: &mut [u8])
    ensures
        final(result)@.len() == old(result)@.len(),
{
    fill_from_entropy(result)
}

/// A fresh vector of `len` random bytes.
pub fn random_vec(len: usize) -> (v: Vec<u8>)
    ensures
        v@.len() == len,
{
    let mut v: Vec<u8> = vec![0u8; len];
    random_bytes(v.as_mut_slice());
    v
}

/// The signature check failed.
#[derive(PartialEq, Eq, Structural, Debug)]
pub struct VerificationError;

impl VerificationError {
    /// The text of this error.
    pub fn message(&self) -> (s: String)
        ensures
            s@ == "Verification Error"@,
    {
        String::from_str("Verification Error")
    }
}

/// Accepts `signature` if it is a valid ECDSA P-256/SHA-256 signature of `message` under `pk`.
pub fn verify_signature(pk: &Vec<u8>, message: &Vec<u8>, signature: &Vec<u8>) -> (r: Result<
    (),
    VerificationError,
>)
    ensures
        r is Ok <==> ecdsa_p256_sha256_valid(pk@, message@, signature@),
{
    if ecdsa_p256_sha256_verify(pk.as_slice(), message.as_slice(), signature.as_slice()) {
        Ok(())
    } else {
        Err(VerificationError)
    }
}

/// The bytes that the Yubikey signs for `message`: its SHA-256 digest, which the ECDSA
/// P-256/SHA-256 check at the server recomputes from the message.
pub fn signing_input(message: &Vec<u8>) -> (d: Vec<u8>)
    ensures
        d@ == sha256(message@),
        d@.len() == 32,
{
    sha256_digest(message.as_slice())
}

/// The upper-case hexadecimal text of `data`.
pub fn encode_upper(data: &Vec<u8>) -> (s: String)
    ensures
        s@ == hex_upper(data@),
{
    hex_encode_upper(data.as_slice())
}

} // verus!
