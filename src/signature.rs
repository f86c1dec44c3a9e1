//! Signature integrity, the first check a presented token must pass: it is
//! done before any claim is read.
use vstd::prelude::*;
use crate::text::{strip_whitespace, without_whitespace};

verus! {

/// Whether `signature` is a valid RS256 signature of `message` under the
/// DER-encoded RSA public key `key`.
pub uninterp spec fn rs256_signature_valid(signature: Seq<char>, message: Seq<char>, key: Seq<u8>) -> bool;

/// Whether the header segment of `token` decodes and names RS256.
pub uninterp spec fn header_names_rs256(token: Seq<char>) -> bool;

/// Relies on jsonwebtoken's `crypto::verify` with RS256 and a DER key: the
/// answer depends on the three inputs alone; an error (a signature or key that
/// does not decode) counts as a failed check.
#[verifier::external_body]
fn rs256_verify(signature: &str, message: &str, key_der: &[u8]) -> (r: bool)
    ensures
        r == rs256_signature_valid(signature@, message@, key_der@),
{
    let key = jsonwebtoken::DecodingKey::from_rsa_der(key_der);
    jsonwebtoken::crypto::verify(signature, message, &key, jsonwebtoken::Algorithm::RS256).unwrap_or(false)
}

/// Relies on jsonwebtoken's `decode_header`: whether the header decodes and
/// its `alg` is RS256 depends on the token text alone.
#[verifier::external_body]
fn header_is_rs256(token: &str) -> (r: bool)
    ensures
        r == header_names_rs256(token@),
{
    match jsonwebtoken::decode_header(token) {
        Ok(header) => header.alg == jsonwebtoken::Algorithm::RS256,
        Err(_) => false,
    }
}

/// Position of the last `c` in `s`.
pub open spec fn last_index_of(s: Seq<char>, c: char) -> Option<int> {
    if exists|i: int| 0 <= i < s.len() && s[i] == c {
        Some(choose|i: int| 0 <= i < s.len() && s[i] == c && forall|j: int| i < j < s.len() ==> s[j] != c)
    } else {
        None
    }
}

fn find_last(s: &str, n: usize, c: char) -> (r: Option<usize>)
    requires
        n == s@.len(),
    ensures
        r is Some <==> last_index_of(s@, c) is Some,
        r is Some ==> r->Some_0 as int == last_index_of(s@, c)->Some_0 && r->Some_0 < n,
{
    let mut i: usize = n;
    while i > 0
        invariant
            n == s@.len(),
            i <= n,
            forall|j: int| i <= j < n ==> s@[j] != c,
        decreases i,
    {
        i = i - 1;
        if s.get_char(i) == c {
            proof {
                let k = choose|k: int| 0 <= k < s@.len() && s@[k] == c && forall|j: int| k < j < s@.len() ==> s@[j] != c;
                if k < i {
                    assert(s@[i as int] != c);
                } else if k > i {
                    assert(s@[k] != c);
                }
            }
            return Some(i);
        }
    }
    None
}

/// Whether the token has the shape `header.claims.signature`, names RS256 in
/// its header, and carries a valid signature over `header.claims` under `key`.
pub open spec fn signature_accepted(token: Seq<char>, key: Seq<u8>) -> bool {
    match last_index_of(token, '.') {
        None => false,
        Some(i) => {
            let message = token.subrange(0, i);
            let signature = token.subrange(i + 1, token.len() as int);
            &&& last_index_of(message, '.') is Some
            &&& header_names_rs256(token)
            &&& rs256_signature_valid(signature, message, key)
        },
    }
}

/// The token as presented was not signed by this deployment's key.
#[derive(Clone, Copy, Debug, PartialEq, Eq, Structural)]
pub struct BadSignature;

/// Removes white space from a presented token and checks its signature under
/// the public key; the cleaned token when it holds.
pub fn signed_token(raw: &str, public_key_der: &[u8]) -> (r: Result<String, BadSignature>)
    ensures
        r is Ok <==> signature_accepted(without_whitespace(raw@), public_key_der@),
        r is Ok ==> r->Ok_0@ == without_whitespace(raw@),
{
    let token = strip_whitespace(raw);
    let n = token.as_str().unicode_len();
    let dot = match find_last(token.as_str(), n, '.') {
        None => return Err(BadSignature),
        Some(d) => d,
    };
    let message = token.as_str().substring_char(0, dot);
    let signature = token.as_str().substring_char(dot + 1, n);
    if find_last(message, dot, '.').is_none() {
        return Err(BadSignature);
    }
    if !header_is_rs256(token.as_str()) {
        return Err(BadSignature);
    }
    if !rs256_verify(signature, message, public_key_der) {
        return Err(BadSignature);
    }
    Ok(token)
}

} // verus!
