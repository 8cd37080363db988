//! Digests of bytes.
use vstd::prelude::*;

verus! {

/// The SHA-1 of `data` in lower-case hexadecimal.
pub uninterp spec fn sha1_hex(data: Seq<u8>) -> Seq<char>;

/// The SHA-1 of `data` by `sha1::Sha1::digest`, written with `{:x}`: forty
/// characters, a function of the data.
#[verifier::external_body]
pub(crate) fn sha1_of(data: &[u8]) -> (r: String)
    ensures
        r@ == sha1_hex(data@),
        r@.len() == 40,
{
    format!("{:x}", <sha1::Sha1 as sha1::Digest>::digest(data))
}

/// The SHA-256 of `data` in lower-case hexadecimal.
pub uninterp spec fn sha256_hex(data: Seq<u8>) -> Seq<char>;

/// The SHA-256 of `data` by `sha2::Sha256::digest`, written with `{:x}`:
/// sixty-four characters, a function of the data.
#[verifier::external_body]
pub(crate) fn sha256_of(data: &[u8]) -> (r: String)
    ensures
        r@ == sha256_hex(data@),
        r@.len() == 64,
{
    format!("{:x}", <sha2::Sha256 as sha2::Digest>::digest(data))
}

} // verus!
