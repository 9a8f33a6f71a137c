//! Construction of the basic-auth `authorization` header value.
//!
//! The header is a pure function of the client's tenant domain and secret
//! key: the scheme token `"Basic "` followed by the standard, padded base64
//! encoding of `"<domain>:<key>"`. No character of domain or key is
//! validated or escaped; the bytes are encoded as they stand.

use vstd::prelude::*;
use vstd::string::StringExecFns;

verus! {

/// The standard-alphabet, padded base64 encoding of a string's bytes,
/// as a function of its characters. Named rather than written out: the
/// `base64` crate computes it, and its value depends on the input alone.
pub uninterp spec fn base64_std_of(s: Seq<char>) -> Seq<char>;

/// Relies on `base64::engine::general_purpose::STANDARD` and
/// `base64::Engine::encode`: the standard alphabet with padding, a pure
/// function of the input bytes. It cannot panic on a real string: its only
/// internal failure is an overflow computing the output size, and a string's
/// byte length is bounded well below that.
#[verifier::external_body]
fn base64_encode(s: &str) -> (r: String)
    ensures
        r@ == base64_std_of(s@),
{
    base64::Engine::encode(&base64::engine::general_purpose::STANDARD, s)
}

/// The exact header value owed for a tenant `domain` and secret `key`:
/// `"Basic "`, then the base64 encoding of `domain`, one colon, `key`,
/// and nothing else.
pub open spec fn auth_header_of(domain: Seq<char>, key: Seq<char>) -> Seq<char> {
    "Basic "@ + base64_std_of(domain + ":"@ + key)
}

/// Builds the `authorization` header value for `domain` and `key`.
pub fn auth_header(domain: &str, key: &str) -> (h: String)
    ensures
        h@ == auth_header_of(domain@, key@),
{
    let mut token = domain.to_owned();
    token.append(":");
    token.append(key);
    let encoded = base64_encode(token.as_str());
    let mut h = "Basic ".to_owned();
    h.append(encoded.as_str());
    h
}

} // verus!
