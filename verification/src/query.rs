//! The point in time that an event query looks back from.
//!
//! The `q` parameter carries a `YYYY-MM-DD HH:MM:SS` text in URL-safe Base64;
//! where it does not decode to UTF-8 text it is taken as it stands, and where
//! it is absent the local time now is used.

use vstd::prelude::*;
use vstd::utf8::{decode_utf8, encode_utf8, valid_utf8};
use crate::dates::{format_date_time, local_now, storage_text, DateTime};

verus! {

/// What the `base64` crate's `URL_SAFE` engine decodes from a byte string
/// (canonical padding required), or nothing where it reports an error.
pub uninterp spec fn base64_url_safe_decoded(input: Seq<u8>) -> Option<Seq<u8>>;

/// Decodes with `base64::engine::general_purpose::URL_SAFE` (`Engine::decode`).
///
/// Trusted: the result is named `base64_url_safe_decoded` of the input bytes;
/// an error of the crate becomes `None`.
#[verifier::external_body]
fn decode_url_safe(input: &[u8]) -> (decoded: Option<Vec<u8>>)
    ensures
        match decoded {
            Some(bytes) => base64_url_safe_decoded(input@) == Some(bytes@),
            None => base64_url_safe_decoded(input@) is None,
        },
{
    match base64::Engine::decode(&base64::engine::general_purpose::URL_SAFE, input) {
        Ok(bytes) => Some(bytes),
        Err(_) => None,
    }
}

/// Reads bytes as UTF-8 text (`String::from_utf8`).
///
/// Trusted: std documents that `from_utf8` succeeds exactly on valid UTF-8 and
/// then holds the decoded characters; the contract says so with vstd's
/// definition of UTF-8.
#[verifier::external_body]
pub(crate) fn string_from_utf8(bytes: Vec<u8>) -> (text: Option<String>)
    ensures
        text is Some <==> valid_utf8(bytes@),
        text matches Some(t) ==> t@ == decode_utf8(bytes@),
{
    match String::from_utf8(bytes) {
        Ok(t) => Some(t),
        Err(_) => None,
    }
}

/// The time text taken from a present `q`, given what Base64 decoding gave.
pub open spec fn time_from_decoded(q: Seq<char>, decoded: Option<Seq<u8>>) -> Seq<char> {
    match decoded {
        Some(bytes) => if valid_utf8(bytes) {
            decode_utf8(bytes)
        } else {
            q
        },
        None => q,
    }
}

/// The time text taken from a present `q` parameter.
pub open spec fn spec_query_time(q: Seq<char>) -> Seq<char> {
    time_from_decoded(q, base64_url_safe_decoded(encode_utf8(q)))
}

/// The time text of a present `q`, given what Base64 decoding of it gave.
pub fn query_time_from_decoded(q: &String, decoded: Option<Vec<u8>>) -> (time: String)
    ensures
        time@ == time_from_decoded(
            q@,
            match decoded {
                Some(b) => Some(b@),
                None => None,
            },
        ),
{
    match decoded {
        Some(bytes) => match string_from_utf8(bytes) {
            Some(text) => text,
            None => q.clone(),
        },
        None => q.clone(),
    }
}

/// The time text of a present `q` parameter.
pub fn query_time(q: &String) -> (time: String)
    ensures
        time@ == spec_query_time(q@),
{
    let decoded = decode_url_safe(q.as_str().as_bytes());
    query_time_from_decoded(q, decoded)
}

/// A clock reading printed as `YYYY-MM-DD HH:MM:SS`, the form of a `q` time.
pub fn now_text(now: &DateTime) -> (text: String)
    requires
        now.valid(),
    ensures
        text@ == storage_text(now.fields()),
{
    format_date_time(now, "%Y-%m-%d %H:%M:%S")
}

/// The time an event query looks back from: that of `q` where it is given,
/// else the local time now printed as `YYYY-MM-DD HH:MM:SS`.
pub fn query_point(q: Option<&String>) -> (time: String)
    ensures
        q matches Some(q) ==> time@ == spec_query_time(q@),
        q is None ==> exists|now: DateTime| now.valid() && time@ == storage_text(now.fields()),
{
    match q {
        Some(q) => query_time(q),
        None => {
            let now = local_now();
            let text = now_text(&now);
            assert(now.valid() && text@ == storage_text(now.fields()));
            text
        },
    }
}

} // verus!
