//! The admin token: the lowercase hex SHA-512 digest of the admin password, and
//! the check that every admin request passes.

use vstd::prelude::*;
use sha2::Digest;
use crate::hex::{hex_digit, lower_hex, to_lower_hex};
use crate::reply::{Reply, Status, failed, refused};

verus! {

/// What SHA-512 yields for a byte string (a function of its input alone).
pub uninterp spec fn sha512_of(data: Seq<u8>) -> Seq<u8>;

/// Hashes `data` with `sha2::Sha512` (`Digest::digest`).
///
/// Trusted: the result is named `sha512_of` of the input bytes; the only fact
/// stated beside the name is the documented output size of SHA-512, 64 bytes.
#[verifier::external_body]
fn sha512_digest(data: &[u8]) -> (digest: Vec<u8>)
    ensures
        digest@ == sha512_of(data@),
        digest@.len() == 64,
{
    sha2::Sha512::digest(data).to_vec()
}

/// The token an admin request must carry for `password`.
pub open spec fn spec_admin_token(password: Seq<char>) -> Seq<char> {
    lower_hex(sha512_of(vstd::utf8::encode_utf8(password)))
}

/// Computes the admin token: SHA-512 of the UTF-8 bytes of `password`, in
/// lowercase hexadecimal (128 characters).
pub fn admin_token(password: &str) -> (token: String)
    ensures
        token@ == spec_admin_token(password@),
        token@.len() == 128,
{
    let bytes = password.as_bytes();
    let digest = sha512_digest(bytes);
    to_lower_hex(digest.as_slice())
}

/// Whether a request token grants admin rights: it must equal the admin token.
pub fn token_matches(token: &String, admin: &String) -> (ok: bool)
    ensures
        ok == (token@ == admin@),
{
    token.eq(admin)
}

/// Checks the admin token of a decoded request: refused with 401 unless the
/// token equals the admin token.
pub fn check_admin(token: &String, admin: &String) -> (admitted: Result<(), Reply>)
    ensures
        admitted is Ok <==> token@ == admin@,
        admitted matches Err(r) ==> refused(r, Status::Unauthorized),
{
    if token_matches(token, admin) {
        Ok(())
    } else {
        Err(failed(Status::Unauthorized))
    }
}

proof fn lemma_hex_digit_injective(a: int, b: int)
    requires
        0 <= a < 16,
        0 <= b < 16,
        hex_digit(a) == hex_digit(b),
    ensures
        a == b,
{
    assert(('0' as int) == 48);
    assert(('a' as int) == 97);
    if a < 10 && b >= 10 {
        assert((hex_digit(a) as int) == 48 + a);
        assert((hex_digit(b) as int) == 87 + b);
    } else if a >= 10 && b < 10 {
        assert((hex_digit(a) as int) == 87 + a);
        assert((hex_digit(b) as int) == 48 + b);
    }
}

/// Hex rendering loses nothing: two byte strings with the same lowercase hex
/// text are equal. So a token fixes the digest it was made from.
pub proof fn lemma_lower_hex_injective(a: Seq<u8>, b: Seq<u8>)
    requires
        lower_hex(a) == lower_hex(b),
    ensures
        a == b,
{
    assert(a.len() == b.len()) by {
        assert(lower_hex(a).len() == 2 * a.len());
        assert(lower_hex(b).len() == 2 * b.len());
    }
    assert forall|k: int| 0 <= k < a.len() implies a[k] == b[k] by {
        let i = 2 * k;
        assert(i / 2 == k && i % 2 == 0);
        assert((i + 1) / 2 == k && (i + 1) % 2 == 1);
        assert(lower_hex(a)[i] == hex_digit(a[k] as int / 16));
        assert(lower_hex(b)[i] == hex_digit(b[k] as int / 16));
        assert(lower_hex(a)[i + 1] == hex_digit(a[k] as int % 16));
        assert(lower_hex(b)[i + 1] == hex_digit(b[k] as int % 16));
        lemma_hex_digit_injective(a[k] as int / 16, b[k] as int / 16);
        lemma_hex_digit_injective(a[k] as int % 16, b[k] as int % 16);
    }
    assert(a =~= b);
}

/// Every character of a token is a lowercase hex digit.
pub proof fn lemma_lower_hex_alphabet(bytes: Seq<u8>, i: int)
    requires
        0 <= i < lower_hex(bytes).len(),
    ensures
        ('0' <= lower_hex(bytes)[i] <= '9') || ('a' <= lower_hex(bytes)[i] <= 'f'),
{
}

/// A request is admitted exactly when its token is the token of the admin
/// password; two passwords whose digests differ never share a token.
pub proof fn lemma_token_determines_digest(p: Seq<char>, q: Seq<char>)
    requires
        spec_admin_token(p) == spec_admin_token(q),
    ensures
        sha512_of(vstd::utf8::encode_utf8(p)) == sha512_of(vstd::utf8::encode_utf8(q)),
{
    lemma_lower_hex_injective(
        sha512_of(vstd::utf8::encode_utf8(p)),
        sha512_of(vstd::utf8::encode_utf8(q)),
    );
}

} // verus!
