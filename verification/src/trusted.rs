//! The boundary of what is proved. Every item in this file is believed, not
//! verified: each states what a function of the standard library or of another
//! crate returns, and the rest of the library is proved against these
//! statements only.

use vstd::prelude::*;
use base64::Engine;
use rand::Rng;
use sha2::Digest;
use crate::utils::url::{UrlHost, UrlModel, UrlParts};

verus! {

/// `str`'s `==`: two string slices are equal exactly when they hold the same
/// characters.
pub assume_specification[ <str as PartialEq>::eq ](a: &str, b: &str) -> (r: bool)
    ensures
        r == (a@ == b@),
;

/// Whether a character has the Unicode `White_Space` property, as
/// `char::is_whitespace` reports it.
pub uninterp spec fn is_whitespace(c: char) -> bool;

/// `char::is_whitespace`: the answer is a function of the character alone.
#[verifier::external_body]
pub(crate) fn char_is_whitespace(c: char) -> (r: bool)
    ensures
        r == is_whitespace(c),
{
    c.is_whitespace()
}

/// A text in lower case, as `str::to_lowercase` writes it.
pub uninterp spec fn lowercased(text: Seq<char>) -> Seq<char>;

/// `str::to_lowercase`: the result is a function of the text alone.
#[verifier::external_body]
pub(crate) fn to_lowercase(text: &str) -> (r: String)
    ensures
        r@ == lowercased(text@),
{
    text.to_lowercase()
}

/// The `Display` text of a URL parse error (`url::ParseError`'s `to_string`).
/// Nothing is claimed of the text.
#[verifier::external_body]
pub(crate) fn parse_error_text(e: &url::ParseError) -> (r: String) {
    e.to_string()
}

/// `std::path::PathBuf`, carried through opaquely.
#[verifier::external_type_specification]
#[verifier::external_body]
pub struct ExPathBuf(std::path::PathBuf);

/// `PathBuf::push`: the path extended by one component. Nothing is claimed of
/// the result.
#[verifier::external_body]
pub(crate) fn path_with(mut base: std::path::PathBuf, component: &str) -> (r: std::path::PathBuf) {
    base.push(component);
    base
}

/// `url::ParseError`, carried through opaquely.
#[verifier::external_type_specification]
#[verifier::external_body]
pub struct ExParseError(url::ParseError);

/// What `url::Url::parse` makes of a text: the parts of the URL, or nothing
/// where the text is no absolute URL.
pub uninterp spec fn url_parse(input: Seq<char>) -> Option<UrlModel>;

/// `Url::parse`, then the accessors `scheme`, `host`, `port`, `path` and
/// `query` of the parsed URL, each copied as it is. The parts are a function
/// of the text alone.
#[verifier::external_body]
pub(crate) fn parse_url(input: &str) -> (r: Result<UrlParts, url::ParseError>)
    ensures
        r matches Ok(parts) ==> url_parse(input@) == Some(parts@),
        r is Err ==> url_parse(input@) is None,
{
    let url = url::Url::parse(input)?;
    let host = match url.host() {
        Some(url::Host::Domain(name)) => Some(UrlHost::Domain(name.to_string())),
        Some(url::Host::Ipv4(address)) => Some(UrlHost::Ipv4(address.octets())),
        Some(url::Host::Ipv6(address)) => Some(UrlHost::Ipv6(address.segments())),
        None => None,
    };
    let (scheme, path) = (url.scheme().to_string(), url.path().to_string());
    Ok(UrlParts { scheme, host, port: url.port(), path, query: url.query().map(String::from) })
}

/// The text of the URL `base` after the name and value pairs were appended to
/// its query in `application/x-www-form-urlencoded` form, as
/// `Url::query_pairs_mut` and `extend_pairs` write it.
pub uninterp spec fn url_with_query(base: Seq<char>, pairs: Seq<(Seq<char>, Seq<char>)>) -> Seq<
    char,
>;

/// The longest text, in characters, that `append_query_pairs` takes for the
/// URL, a name or a value.
pub const MAX_QUERY_TEXT: usize = 0x10_0000;

/// Whether a URL and pairs are small enough for `append_query_pairs`: at most
/// sixteen pairs, no text over `MAX_QUERY_TEXT` characters.
pub open spec fn query_fits(base: Seq<char>, pairs: Seq<(Seq<char>, Seq<char>)>) -> bool {
    &&& base.len() <= MAX_QUERY_TEXT
    &&& pairs.len() <= 16
    &&& forall|i: int|
        0 <= i < pairs.len() ==> (#[trigger] pairs[i]).0.len() <= MAX_QUERY_TEXT && pairs[i].1.len()
            <= MAX_QUERY_TEXT
}

/// `Url::parse` of `base`, `query_pairs_mut().extend_pairs(pairs)`, and the
/// URL's text. It fails exactly when `base` does not parse, and the text is a
/// function of `base` and the pairs. The URL keeps its length in 32 bits and
/// panics beyond them, which `requires` rules out.
#[verifier::external_body]
pub(crate) fn append_query_pairs(base: &str, pairs: &Vec<(String, String)>) -> (r: Result<
    String,
    url::ParseError,
>)
    requires
        query_fits(base@, pairs.deep_view()),
    ensures
        r is Ok <==> url_parse(base@) is Some,
        r matches Ok(text) ==> text@ == url_with_query(base@, pairs.deep_view()),
{
    let mut url = url::Url::parse(base)?;
    url.query_pairs_mut().extend_pairs(pairs);
    Ok(url.to_string())
}

/// What `urlencoding::decode` makes of a text: each `%` with two hex digits
/// replaced by that byte and the bytes read as UTF-8, or nothing where they
/// are not UTF-8.
pub uninterp spec fn percent_decoded(text: Seq<char>) -> Option<Seq<char>>;

/// Whether a text holds a percent sign.
pub open spec fn has_escape(text: Seq<char>) -> bool {
    text.contains('%')
}

/// `urlencoding::decode`. The result is a function of the text, and a text
/// without a percent sign comes back as it is.
#[verifier::external_body]
pub(crate) fn percent_decode(text: &str) -> (r: Option<String>)
    ensures
        r matches Some(decoded) ==> percent_decoded(text@) == Some(decoded@) && (has_escape(text@)
            || decoded@ == text@),
        r is None ==> percent_decoded(text@) is None && has_escape(text@),
{
    urlencoding::decode(text).ok().map(|decoded| decoded.into_owned())
}

/// `Rng::fill` of the thread-local cryptographic generator
/// (`rand::thread_rng`): the bytes are overwritten with random ones. Only
/// their number is known, and two calls may write different bytes. The
/// generator aborts the program when the operating system cannot seed it.
#[verifier::external_body]
pub(crate) fn fill_random(bytes: &mut Vec<u8>)
    ensures
        final(bytes)@.len() == old(bytes)@.len(),
{
    rand::thread_rng().fill(&mut bytes[..]);
}

/// The base64 text of `bytes` in the URL-safe alphabet without padding, as
/// `base64`'s `URL_SAFE_NO_PAD` engine writes it.
pub uninterp spec fn base64url(bytes: Seq<u8>) -> Seq<char>;

/// The URL-safe base64 alphabet: letters, digits, `-` and `_`.
pub open spec fn is_base64url_char(c: char) -> bool {
    ('A' <= c && c <= 'Z') || ('a' <= c && c <= 'z') || ('0' <= c && c <= '9') || c == '-' || c
        == '_'
}

/// `Engine::encode` of `URL_SAFE_NO_PAD`. The text is a function of the bytes;
/// it has four characters for every three bytes, two or three for a rest of
/// one or two bytes, and holds only characters of the URL-safe alphabet. The
/// call panics when that length does not fit in `usize`, which `requires`
/// rules out.
#[verifier::external_body]
pub(crate) fn base64url_encode(bytes: &[u8]) -> (r: String)
    requires
        4 * bytes@.len() + 3 <= usize::MAX,
    ensures
        r@ == base64url(bytes@),
        r@.len() == (4 * bytes@.len() + 2) / 3,
        forall|i: int| 0 <= i < r@.len() ==> is_base64url_char(#[trigger] r@[i]),
{
    base64::engine::general_purpose::URL_SAFE_NO_PAD.encode(bytes)
}

/// The SHA-256 digest of `data`, as `sha2::Sha256` computes it.
pub uninterp spec fn sha256_digest(data: Seq<u8>) -> Seq<u8>;

/// `Sha256::new`, `update` with `data`, `finalize`: the digest is a function
/// of the data and has 32 bytes.
#[verifier::external_body]
pub(crate) fn sha256(data: &[u8]) -> (r: Vec<u8>)
    ensures
        r@ == sha256_digest(data@),
        r@.len() == 32,
{
    let mut hasher = sha2::Sha256::new();
    hasher.update(data);
    hasher.finalize().to_vec()
}

} // verus!
