//! Content digests of blobs, written `sha256:<hex>`.
use vstd::prelude::*;

verus! {

/// The lowercase hexadecimal SHA-256 of `data`.
pub uninterp spec fn sha256_hex(data: Seq<u8>) -> Seq<char>;

/// The prefix that names the digest algorithm.
pub open spec fn digest_prefix() -> Seq<char> {
    seq!['s', 'h', 'a', '2', '5', '6', ':']
}

/// The digest string of a blob with content `data`.
pub open spec fn content_digest(data: Seq<u8>) -> Seq<char> {
    digest_prefix() + sha256_hex(data)
}

/// Relies on `sha256::digest` on a byte slice: it hex-encodes the SHA-256 of
/// the bytes, two lowercase digits for each of its 32 bytes.
#[verifier::external_body]
fn sha256_hex_of(data: &[u8]) -> (r: String)
    ensures
        r@ == sha256_hex(data@),
        r@.len() == 64,
{
    sha256::digest(data)
}

/// The digest string for the hexadecimal hash `hex`.
pub fn digest_from_hex(hex: &str) -> (r: String)
    ensures
        r@ == digest_prefix() + hex@,
{
    proof {
        reveal_strlit("sha256:");
    }
    let mut r = String::from_str("sha256:");
    r.append(hex);
    r
}

/// Whether the hexadecimal hash `hex` is the one that `digest` names.
pub fn hex_names_digest(hex: &str, digest: &str) -> (r: bool)
    ensures
        r == (digest_prefix() + hex@ == digest@),
{
    let full = digest_from_hex(hex);
    crate::text::same_text(full.as_str(), digest)
}

/// The digest string of a blob holding `data`.
pub fn layer_digest(data: &[u8]) -> (r: String)
    ensures
        r@ == content_digest(data@),
{
    let hex = sha256_hex_of(data);
    digest_from_hex(hex.as_str())
}

/// Whether `data` is the content that `digest` names.
pub fn digest_matches(data: &[u8], digest: &str) -> (r: bool)
    ensures
        r == (content_digest(data@) == digest@),
{
    let hex = sha256_hex_of(data);
    hex_names_digest(hex.as_str(), digest)
}

} // verus!
