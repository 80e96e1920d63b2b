//! Keys and signatures, as the `ethsign` crate provides them. What is
//! said of the crate's functions is not proved. Which address a key has,
//! which key a keyfile holds, how a keyfile derives its key and which
//! signature a key gives over a hash are given names.

use vstd::prelude::*;

verus! {

#[verifier::external_type_specification]
#[verifier::external_body]
pub struct ExSecretKey(ethsign::SecretKey);

#[verifier::external_type_specification]
#[verifier::external_body]
pub struct ExKeyFile(ethsign::KeyFile);

#[verifier::external_type_specification]
#[verifier::external_body]
pub struct ExProtected(ethsign::Protected);

/// A signature over a 32-byte hash.
#[derive(Debug, Clone, Copy, PartialEq, Eq)]
pub struct Recoverable {
    /// The recovery byte.
    pub v: u8,
    /// The first half.
    pub r: [u8; 32],
    /// The second half.
    pub s: [u8; 32],
}

/// How a keyfile derives its key from the password.
#[derive(Debug, Clone, Copy, PartialEq, Eq, Structural)]
pub enum Derivation {
    /// By PBKDF2.
    Pbkdf2,
    /// By scrypt, with the cost `n`, the block size `r` and the
    /// parallelism `p`.
    Scrypt { n: u32, r: u32, p: u32 },
}

/// The largest product of cost, or parallelism, and block size for which
/// scrypt can ask for its memory at all: it takes 128 bytes for each.
pub open spec fn scrypt_limit() -> int {
    isize::MAX as int / 128
}

/// Whether the key can be derived: scrypt needs a cost that is not zero,
/// and memory of a size that can be asked for.
pub open spec fn can_derive(derivation: Derivation) -> bool {
    match derivation {
        Derivation::Pbkdf2 => true,
        Derivation::Scrypt { n, r, p } => n != 0 && (r == 0 || (n as int <= scrypt_limit() / (r as int)
            && p as int <= scrypt_limit() / (r as int))),
    }
}

impl Derivation {
    /// Whether the key can be derived.
    pub fn fits(&self) -> (r: bool)
        ensures
            r == can_derive(*self),
    {
        match self {
            Derivation::Pbkdf2 => true,
            Derivation::Scrypt { n, r, p } => {
                if *n == 0 {
                    false
                } else if *r == 0 {
                    true
                } else {
                    let limit: u64 = (isize::MAX as u64) / 128;
                    let most: u64 = limit / (*r as u64);
                    (*n as u64) <= most && (*p as u64) <= most
                }
            },
        }
    }
}

/// How a keyfile derives its key.
pub uninterp spec fn derivation_of(key: ethsign::KeyFile) -> Derivation;

/// The address of the account that a key belongs to.
pub uninterp spec fn key_address(secret: ethsign::SecretKey) -> Seq<u8>;

/// The key that a keyfile holds when it is opened with a password, if the
/// password opens it.
pub uninterp spec fn opened_key(key: ethsign::KeyFile, password: ethsign::Protected) -> Option<
    ethsign::SecretKey,
>;

/// The password with the given characters.
pub uninterp spec fn password_of(text: Seq<char>) -> ethsign::Protected;

/// `ethsign::SecretKey::public` and `ethsign::PublicKey::address`: the
/// address of the account that the key belongs to.
#[verifier::external_body]
pub(crate) fn address_of(secret: &ethsign::SecretKey) -> (r: [u8; 20])
    ensures
        r@ == key_address(*secret),
{
    *secret.public().address()
}

/// The signature that a key gives over a hash, if it gives one. The nonce
/// of the signature is derived from the key and the hash as RFC 6979
/// describes, so that the signature depends on the two alone.
pub uninterp spec fn signature_of(secret: ethsign::SecretKey, hash: Seq<u8>) -> Option<Recoverable>;

/// `ethsign::SecretKey::sign`: the signature of the key over `hash`, or
/// nothing where the crate reports an error.
#[verifier::external_body]
pub(crate) fn sign(secret: &ethsign::SecretKey, hash: &[u8; 32]) -> (r: Option<Recoverable>)
    ensures
        r == signature_of(*secret, hash@),
{
    secret.sign(hash).ok().map(|signature| Recoverable { v: signature.v, r: signature.r, s: signature.s })
}

/// The field `kdf` of the `crypto` of an `ethsign::KeyFile`: how the
/// keyfile derives its key, with the numbers that scrypt takes.
#[verifier::external_body]
pub(crate) fn derivation(key: &ethsign::KeyFile) -> (r: Derivation)
    ensures
        r == derivation_of(*key),
{
    match &key.crypto.kdf {
        ethsign::keyfile::Kdf::Pbkdf2(_) => Derivation::Pbkdf2,
        ethsign::keyfile::Kdf::Scrypt(scrypt) => Derivation::Scrypt { n: scrypt.n, r: scrypt.r, p: scrypt.p },
    }
}

/// `ethsign::KeyFile::to_secret_key`: the key that the file holds, or
/// nothing where the password does not open it. The crate takes the
/// logarithm of the cost of scrypt and asks for its memory at once, which
/// fails on a cost of zero and on a size that cannot be asked for: such a
/// keyfile is not handed to it.
#[verifier::external_body]
pub(crate) fn to_secret_key(key: &ethsign::KeyFile, password: &ethsign::Protected) -> (r: Option<
    ethsign::SecretKey,
>)
    requires
        can_derive(derivation_of(*key)),
    ensures
        r == opened_key(*key, *password),
{
    key.to_secret_key(password).ok()
}

/// `ethsign::Protected::from` on a text: the password with these characters.
#[verifier::external_body]
pub(crate) fn password(text: String) -> (r: ethsign::Protected)
    ensures
        r == password_of(text@),
{
    ethsign::Protected::from(text)
}

/// `serde_json::from_slice` for `ethsign::KeyFile`: the keyfile that the
/// JSON text holds, or the reason why it holds none.
#[verifier::external_body]
pub(crate) fn read_key_file(json: &[u8]) -> Result<ethsign::KeyFile, String> {
    serde_json::from_slice::<ethsign::KeyFile>(json).map_err(|e| format!("{}", e))
}

} // verus!
