//! File digests: SHA-256, SHA-1 and MD5, rendered as lowercase hex.
use vstd::prelude::*;
use vstd::utf8::encode_utf8;
use crate::text::string_of;

verus! {

/// What `sha2::Sha256::digest` returns for `data`.
pub uninterp spec fn sha256_digest(data: Seq<u8>) -> Seq<u8>;

/// What `sha1::Sha1::digest` returns for `data`.
pub uninterp spec fn sha1_digest(data: Seq<u8>) -> Seq<u8>;

/// What `md5::Md5::digest` (package `md-5`) returns for `data`.
pub uninterp spec fn md5_digest(data: Seq<u8>) -> Seq<u8>;

/// `sha2::Sha256::digest`: the digest is named `sha256_digest` and has the
/// hash's output size, 32 bytes.
#[verifier::external_body]
fn sha256_of(data: &[u8]) -> (r: Vec<u8>)
    ensures
        r@ == sha256_digest(data@),
        r@.len() == 32,
{
    <sha2::Sha256 as sha2::Digest>::digest(data).to_vec()
}

/// `sha1::Sha1::digest`: the digest is named `sha1_digest` and has the hash's
/// output size, 20 bytes.
#[verifier::external_body]
fn sha1_of(data: &[u8]) -> (r: Vec<u8>)
    ensures
        r@ == sha1_digest(data@),
        r@.len() == 20,
{
    <sha1::Sha1 as sha1::Digest>::digest(data).to_vec()
}

/// `md5::Md5::digest`: the digest is named `md5_digest` and has the hash's
/// output size, 16 bytes.
#[verifier::external_body]
fn md5_of(data: &[u8]) -> (r: Vec<u8>)
    ensures
        r@ == md5_digest(data@),
        r@.len() == 16,
{
    <md5::Md5 as md5::Digest>::digest(data).to_vec()
}

/// The lowercase hexadecimal digit for `n`, which is below 16.
pub open spec fn hex_digit(n: u8) -> char {
    if n < 10 {
        (('0' as u8) + n) as char
    } else {
        (('a' as u8) + (n - 10)) as char
    }
}

/// The lowercase hex rendering of `data`, two digits per byte, high nibble first
/// (what `format!("{:x}", digest)` prints).
pub open spec fn hex_lower(data: Seq<u8>) -> Seq<char>
    decreases data.len(),
{
    if data.len() == 0 {
        seq![]
    } else {
        hex_lower(data.drop_last()) + seq![
            hex_digit(data.last() / 16),
            hex_digit(data.last() % 16),
        ]
    }
}

proof fn lemma_hex_lower_len(data: Seq<u8>)
    ensures
        hex_lower(data).len() == 2 * data.len(),
    decreases data.len(),
{
    if data.len() > 0 {
        lemma_hex_lower_len(data.drop_last());
    }
}

fn hex_char(n: u8) -> (c: char)
    requires
        n < 16,
    ensures
        c == hex_digit(n),
{
    if n < 10 {
        ((48u8 + n) as char)
    } else {
        ((97u8 + (n - 10)) as char)
    }
}

/// Render bytes as lowercase hex.
pub fn to_hex_lower(data: &[u8]) -> (r: String)
    ensures
        r@ == hex_lower(data@),
        r@.len() == 2 * data@.len(),
{
    let mut out: Vec<char> = Vec::new();
    let mut i: usize = 0;
    while i < data.len()
        invariant
            i <= data.len(),
            out@ == hex_lower(data@.take(i as int)),
        decreases data.len() - i,
    {
        let b = data[i];
        out.push(hex_char(b / 16));
        out.push(hex_char(b % 16));
        assert(data@.take(i + 1).drop_last() =~= data@.take(i as int));
        assert(out@ =~= hex_lower(data@.take(i + 1)));
        i += 1;
    }
    assert(data@.take(data.len() as int) =~= data@);
    proof {
        lemma_hex_lower_len(data@);
    }
    string_of(out.as_slice())
}

/// Compute SHA-256, SHA-1 and MD5 for in-memory bytes.
/// Returns (sha256_hex, sha1_hex, md5_hex).
pub fn hash_bytes(data: &[u8]) -> (r: (String, String, String))
    ensures
        r.0@ == hex_lower(sha256_digest(data@)),
        r.1@ == hex_lower(sha1_digest(data@)),
        r.2@ == hex_lower(md5_digest(data@)),
        r.0@.len() == 64,
        r.1@.len() == 40,
        r.2@.len() == 32,
{
    let a = sha256_of(data);
    let b = sha1_of(data);
    let c = md5_of(data);
    (to_hex_lower(a.as_slice()), to_hex_lower(b.as_slice()), to_hex_lower(c.as_slice()))
}

/// The checksum of a text: the SHA-256 digest of its UTF-8 bytes, as lowercase hex.
pub open spec fn text_checksum(s: Seq<char>) -> Seq<char> {
    hex_lower(sha256_digest(encode_utf8(s)))
}

/// The SHA-256 checksum of a text's UTF-8 bytes, as lowercase hex.
pub fn checksum_of_text(s: &str) -> (r: String)
    ensures
        r@ == text_checksum(s@),
        r@.len() == 64,
{
    let d = sha256_of(s.as_bytes());
    to_hex_lower(d.as_slice())
}

} // verus!
