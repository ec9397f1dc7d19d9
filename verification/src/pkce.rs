//! PKCE material: random verifiers and state tokens, and the challenge
//! derived from a verifier.

use base64::engine::general_purpose::URL_SAFE_NO_PAD;
use base64::Engine;
use rand::Rng;
use sha2::{Digest, Sha256};
use vstd::prelude::*;
use vstd::string::StringSliceAdditionalSpecFns;
use vstd::utf8::encode_utf8;

verus! {

/// Bytes of randomness behind a code verifier.
pub const VERIFIER_ENTROPY_BYTES: usize = 32;

/// Bytes of randomness behind a state token.
pub const STATE_ENTROPY_BYTES: usize = 8;

/// The SHA-256 digest of a byte string.
pub uninterp spec fn sha256(data: Seq<u8>) -> Seq<u8>;

/// The unpadded base64 text of a byte string in the URL-safe alphabet.
pub uninterp spec fn base64_url(data: Seq<u8>) -> Seq<char>;

/// The code challenge that belongs to a code verifier: the URL-safe base64
/// text of the SHA-256 digest of the verifier's UTF-8 bytes.
pub open spec fn challenge_of(verifier: Seq<char>) -> Seq<char> {
    base64_url(sha256(encode_utf8(verifier)))
}

/// Whether `token` is the text of some `entropy` random bytes.
pub open spec fn encodes_entropy(token: Seq<char>, entropy: nat) -> bool {
    exists|bytes: Seq<u8>| bytes.len() == entropy && token == #[trigger] base64_url(bytes)
}

/// `Sha256::digest` of the `sha2` crate: the result is the SHA-256 digest of
/// `data`, which is 32 bytes long.
#[verifier::external_body]
fn sha256_digest(data: &[u8]) -> (digest: Vec<u8>)
    ensures
        digest@ == sha256(data@),
        digest@.len() == 32,
{
    Sha256::digest(data).to_vec()
}

/// `Engine::encode` of the `base64` crate on its `URL_SAFE_NO_PAD` engine:
/// the result is the unpadded URL-safe base64 text of `data`. The call
/// panics where the encoded length does not fit in `usize`, so such inputs
/// are left out.
#[verifier::external_body]
fn encode_base64_url(data: &[u8]) -> (text: String)
    requires
        data@.len() / 3 * 4 + 3 <= usize::MAX,
    ensures
        text@ == base64_url(data@),
{
    URL_SAFE_NO_PAD.encode(data)
}

/// `Rng::gen` of the `rand` crate on its thread-local generator: one random
/// byte, of which nothing is known beforehand.
#[verifier::external_body]
fn random_byte() -> u8 {
    rand::thread_rng().gen()
}

/// Draws `count` random bytes.
fn random_bytes(count: usize) -> (bytes: Vec<u8>)
    ensures
        bytes@.len() == count,
{
    let mut bytes: Vec<u8> = Vec::new();
    let mut drawn: usize = 0;
    while drawn < count
        invariant
            drawn <= count,
            bytes@.len() == drawn,
        decreases count - drawn,
    {
        bytes.push(random_byte());
        drawn = drawn + 1;
    }
    bytes
}

/// A fresh code verifier: 32 random bytes as URL-safe base64 text.
pub fn generate_code_verifier() -> (verifier: String)
    ensures
        encodes_entropy(verifier@, VERIFIER_ENTROPY_BYTES as nat),
{
    let bytes = random_bytes(VERIFIER_ENTROPY_BYTES);
    encode_base64_url(bytes.as_slice())
}

/// The code challenge of `code_verifier`. The same verifier always gives
/// the same challenge.
pub fn generate_code_challenge(code_verifier: &str) -> (challenge: String)
    ensures
        challenge@ == challenge_of(code_verifier@),
{
    let digest = sha256_digest(code_verifier.as_bytes());
    encode_base64_url(digest.as_slice())
}

/// A fresh state token: 8 random bytes as URL-safe base64 text.
pub fn generate_state() -> (state: String)
    ensures
        encodes_entropy(state@, STATE_ENTROPY_BYTES as nat),
{
    let bytes = random_bytes(STATE_ENTROPY_BYTES);
    encode_base64_url(bytes.as_slice())
}

} // verus!
