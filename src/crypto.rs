//! HMAC-SHA-256 tags, Base64 text and constant-time comparison.

use vstd::prelude::*;
use vstd::utf8::is_ascii_chars;

use base64::engine::general_purpose::STANDARD as BASE64_STANDARD;
use base64::Engine as _;
use hmac::{Hmac, Mac};
use sha2::Sha256;

verus! {

/// The HMAC-SHA-256 tag of `message` under `key`.
pub uninterp spec fn hmac_sha256(key: Seq<u8>, message: Seq<u8>) -> Seq<u8>;

/// The padded standard-alphabet Base64 text of `bytes`.
pub uninterp spec fn base64_standard(bytes: Seq<u8>) -> Seq<char>;

/// Relies on hmac's `Hmac::<Sha256>::new_from_slice`, `Mac::update` and
/// `Mac::finalize`: the HMAC-SHA-256 tag of `message` under `key`. HMAC takes
/// keys of any length, so `new_from_slice` always succeeds; SHA-256 output is
/// 32 bytes.
#[verifier::external_body]
pub(crate) fn hmac_sha256_tag(key: &[u8], message: &[u8]) -> (r: Option<Vec<u8>>)
    ensures
        r is Some,
        r matches Some(tag) ==> tag@ == hmac_sha256(key@, message@) && tag@.len() == 32,
{
    match <Hmac<Sha256> as Mac>::new_from_slice(key) {
        Ok(mut mac) => {
            mac.update(message);
            Some(mac.finalize().into_bytes().to_vec())
        },
        Err(_) => None,
    }
}

/// Relies on base64's `Engine::encode` with the `STANDARD` engine: padded
/// Base64 over the ASCII alphabet `A-Z a-z 0-9 + /`, four characters for each
/// started group of three bytes.
#[verifier::external_body]
pub(crate) fn base64_encode(bytes: &[u8]) -> (r: String)
    requires
        bytes@.len() <= usize::MAX / 2,
    ensures
        r@ == base64_standard(bytes@),
        r@.len() == 4 * ((bytes@.len() + 2) / 3),
        is_ascii_chars(r@),
{
    BASE64_STANDARD.encode(bytes)
}

/// Compares two byte strings in time that depends on their lengths only.
pub fn constant_time_eq(left: &[u8], right: &[u8]) -> (r: bool)
    ensures
        r == (left@ == right@),
{
    if left.len() != right.len() {
        return false;
    }
    let mut diff: u8 = 0;
    let mut i: usize = 0;
    assert(left@.subrange(0, 0) =~= right@.subrange(0, 0));
    while i < left.len()
        invariant
            left@.len() == right@.len(),
            i <= left@.len(),
            (diff == 0) == (left@.subrange(0, i as int) == right@.subrange(0, i as int)),
        decreases left@.len() - i,
    {
        let l = left[i];
        let r = right[i];
        let next = diff | (l ^ r);
        assert((next == 0) == (diff == 0 && l == r)) by (bit_vector)
            requires
                next == diff | (l ^ r),
        ;
        proof {
            let a = left@.subrange(0, i + 1);
            let b = right@.subrange(0, i + 1);
            assert(a.drop_last() =~= left@.subrange(0, i as int));
            assert(b.drop_last() =~= right@.subrange(0, i as int));
            if a == b {
                assert(a.drop_last() == b.drop_last());
                assert(a[i as int] == b[i as int]);
            }
            if diff == 0 && l == r {
                assert(a =~= b);
            }
        }
        diff = next;
        i = i + 1;
    }
    assert(left@.subrange(0, left@.len() as int) =~= left@);
    assert(right@.subrange(0, right@.len() as int) =~= right@);
    diff == 0
}

} // verus!
