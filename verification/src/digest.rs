//! Stable identifiers: the MD5 digest of an application identity, in
//! hexadecimal.

use crate::text::{hex_lower, hex_string};
use vstd::prelude::*;

verus! {

/// The MD5 digest of a byte string, as the `md5` crate computes it.
pub uninterp spec fn md5_digest(data: Seq<u8>) -> Seq<u8>;

/// Calls `md5::compute`. Trusted: the sixteen bytes of the digest are a
/// function of the bytes of `data` alone, named [`md5_digest`].
#[verifier::external_body]
fn md5_of(data: &[u8]) -> (digest: [u8; 16])
    ensures
        digest@ == md5_digest(data@),
{
    md5::compute(data).0
}

/// The four bytes of `value`, least significant first.
pub open spec fn le_bytes(value: u32) -> Seq<u8> {
    seq![
        (value % 256) as u8,
        (value / 256 % 256) as u8,
        (value / 65536 % 256) as u8,
        (value / 16777216) as u8,
    ]
}

/// The identifier under which an application is reported: the digest of
/// the little-endian bytes of its identity, in lower-case hexadecimal.
pub open spec fn app_id_text(identity: u32) -> Seq<char> {
    hex_lower(md5_digest(le_bytes(identity)))
}

/// The four bytes of `value`, least significant first.
pub fn to_le_bytes(value: u32) -> (bytes: [u8; 4])
    ensures
        bytes@ == le_bytes(value),
{
    let bytes: [u8; 4] = [
        (value % 256) as u8,
        (value / 256 % 256) as u8,
        (value / 65536 % 256) as u8,
        (value / 16777216) as u8,
    ];
    assert(bytes@ =~= le_bytes(value));
    bytes
}

/// The identifier under which the application `identity` is reported.
pub fn app_id(identity: u32) -> (id: String)
    ensures
        id@ == app_id_text(identity),
{
    let bytes = to_le_bytes(identity);
    let digest = md5_of(bytes.as_slice());
    hex_string(digest.as_slice())
}

} // verus!
