//! PKCE material and the state token.

use vstd::prelude::*;
use vstd::string::*;
use vstd::utf8::*;
use crate::error::OidcError;
use crate::trusted::{
    base64url,
    base64url_encode,
    fill_random,
    is_base64url_char,
    sha256,
    sha256_digest,
};

verus! {

/// The characters a code verifier may hold: letters, digits, `-`, `.`, `_`
/// and `~`.
pub open spec fn is_unreserved(c: char) -> bool {
    ('A' <= c && c <= 'Z') || ('a' <= c && c <= 'z') || ('0' <= c && c <= '9') || c == '-' || c
        == '.' || c == '_' || c == '~'
}

/// A well-formed code verifier: 43 to 128 unreserved characters.
pub open spec fn is_code_verifier(v: Seq<char>) -> bool {
    &&& 43 <= v.len() <= 128
    &&& forall|i: int| 0 <= i < v.len() ==> is_unreserved(#[trigger] v[i])
}

/// The S256 challenge of a verifier: the base64url text of the SHA-256 digest
/// of the verifier's UTF-8 bytes.
pub open spec fn challenge_of(verifier: Seq<char>) -> Seq<char> {
    base64url(sha256_digest(encode_utf8(verifier)))
}

/// Whether a text holds characters of the URL-safe base64 alphabet only:
/// letters, digits, `-` and `_`, and so no padding.
pub open spec fn is_base64url_text(s: Seq<char>) -> bool {
    forall|i: int| 0 <= i < s.len() ==> is_base64url_char(#[trigger] s[i])
}

/// A state token: the base64url text of 16 bytes, which has 22 characters of
/// the URL-safe base64 alphabet.
pub open spec fn is_state_token(s: Seq<char>) -> bool {
    &&& s.len() == 22
    &&& is_base64url_text(s)
    &&& exists|bytes: Seq<u8>| bytes.len() == 16 && s == #[trigger] base64url(bytes)
}

/// A verifier with its challenge.
#[derive(Debug)]
pub struct PkceChallenge {
    pub verifier: String,
    pub challenge: String,
}

impl PkceChallenge {
    /// The challenge is the one that belongs to the verifier, and the verifier
    /// is well formed.
    pub open spec fn wf(&self) -> bool {
        &&& is_code_verifier(self.verifier@)
        &&& self.challenge@ == challenge_of(self.verifier@)
    }

    /// A fresh verifier and its challenge: both have 43 characters of the
    /// URL-safe base64 alphabet.
    pub fn new() -> (r: Result<PkceChallenge, OidcError>)
        ensures
            r matches Ok(p) && p.wf() && p.verifier@.len() == 43 && p.challenge@.len() == 43
                && is_base64url_text(p.verifier@) && is_base64url_text(p.challenge@),
    {
        let verifier = match generate_code_verifier() {
            Ok(v) => v,
            Err(e) => { return Err(e); },
        };
        let challenge = match create_code_challenge(verifier.as_str()) {
            Ok(c) => c,
            Err(e) => { return Err(e); },
        };
        Ok(PkceChallenge { verifier, challenge })
    }
}

/// `count` random bytes.
fn random_bytes(count: usize) -> (r: Vec<u8>)
    ensures
        r@.len() == count,
{
    let mut bytes: Vec<u8> = Vec::new();
    while bytes.len() < count
        invariant
            bytes@.len() <= count,
        decreases count - bytes@.len(),
    {
        bytes.push(0);
    }
    fill_random(&mut bytes);
    bytes
}

/// The code verifier that 32 drawn bytes give: their base64url text, which
/// has 43 characters of the URL-safe base64 alphabet.
pub fn code_verifier_from(bytes: &[u8]) -> (r: String)
    requires
        bytes@.len() == 32,
    ensures
        r@ == base64url(bytes@),
        r@.len() == 43,
        is_base64url_text(r@),
        is_code_verifier(r@),
{
    let verifier = base64url_encode(bytes);
    proof {
        assert forall|i: int| 0 <= i < verifier@.len() implies is_unreserved(
            #[trigger] verifier@[i],
        ) by {
            assert(is_base64url_char(verifier@[i]));
        }
    }
    verifier
}

/// The state token that 16 drawn bytes give: their base64url text, which has
/// 22 characters of the URL-safe base64 alphabet.
pub fn state_from(bytes: &[u8]) -> (r: String)
    requires
        bytes@.len() == 16,
    ensures
        r@ == base64url(bytes@),
        r@.len() == 22,
        is_state_token(r@),
{
    base64url_encode(bytes)
}

/// A fresh code verifier: the code verifier of 32 random bytes.
pub fn generate_code_verifier() -> (r: Result<String, OidcError>)
    ensures
        r matches Ok(v) && v@.len() == 43 && is_base64url_text(v@) && is_code_verifier(v@)
            && exists|bytes: Seq<u8>| bytes.len() == 32 && v@ == #[trigger] base64url(bytes),
{
    let bytes = random_bytes(32);
    let verifier = code_verifier_from(bytes.as_slice());
    proof {
        assert(verifier@ == base64url(bytes@));
        assert(is_ascii_chars(verifier@)) by {
            assert forall|i: int| 0 <= i < verifier@.len() implies '\0' <= #[trigger] verifier@[i]
                <= '\u{7f}' by {
                assert(is_base64url_char(verifier@[i]));
            }
        }
        is_ascii_chars_encode_utf8(verifier@);
    }
    if verifier.as_str().len() < 43 {
        return Err(
            OidcError::Config("Code verifier must be at least 43 characters".to_string()),
        );
    }
    Ok(verifier)
}

/// The S256 challenge of `verifier`. The same verifier always gives the same
/// challenge, of 43 characters of the URL-safe base64 alphabet.
pub fn create_code_challenge(verifier: &str) -> (r: Result<String, OidcError>)
    ensures
        r matches Ok(c) && c@ == challenge_of(verifier@) && c@.len() == 43 && is_base64url_text(
            c@,
        ),
{
    let digest = sha256(verifier.as_bytes());
    Ok(base64url_encode(digest.as_slice()))
}

/// A fresh state token: the state token of 16 random bytes.
pub fn generate_state() -> (r: Result<String, OidcError>)
    ensures
        r matches Ok(s) && is_state_token(s@),
{
    let bytes = random_bytes(16);
    Ok(state_from(bytes.as_slice()))
}

/// Deriving a challenge is deterministic: whatever two derivations from one
/// verifier return, they return the same text.
pub proof fn challenge_is_deterministic(verifier: Seq<char>, first: Seq<char>, second: Seq<char>)
    requires
        first == challenge_of(verifier),
        second == challenge_of(verifier),
    ensures
        first == second,
{
}

} // verus!
