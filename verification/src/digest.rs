use vstd::prelude::*;

verus! {

#[verifier::external_type_specification]
#[verifier::external_body]
pub struct ExIoError(std::io::Error);

/// The lowercase hexadecimal digit for `d` (which is below 16).
pub open spec fn hex_digit(d: u8) -> char {
    if d < 10 {
        ((d + 48) as u8) as char
    } else {
        ((d + 87) as u8) as char
    }
}

/// `data` written as lowercase hexadecimal, two digits per byte.
pub open spec fn hex_lower(data: Seq<u8>) -> Seq<char>
    decreases data.len(),
{
    if data.len() == 0 {
        Seq::empty()
    } else {
        hex_lower(data.drop_last()) + seq![hex_digit(data.last() / 16), hex_digit(data.last() % 16)]
    }
}

/// The SHA-256 digest of `data`.
pub uninterp spec fn sha256(data: Seq<u8>) -> Seq<u8>;

/// The zstd frame that compressing `data` at `level` produces.
pub uninterp spec fn zstd_compressed(data: Seq<u8>, level: i32) -> Seq<u8>;

/// What decompressing `frame` gives, or `None` where the bytes are no valid
/// zstd frame (empty input among them).
pub uninterp spec fn zstd_decompressed(frame: Seq<u8>) -> Option<Seq<u8>>;

/// Encodes `data` with `hex::encode`, which writes two lowercase hexadecimal
/// digits per byte.
#[verifier::external_body]
pub(crate) fn hex_encode(data: &[u8]) -> (r: String)
    ensures
        r@ == hex_lower(data@),
{
    hex::encode(data)
}

/// The SHA-256 digest of `data`, computed by `sha2::Sha256::digest`; it is 32
/// bytes long.
#[verifier::external_body]
pub(crate) fn sha256_digest(data: &[u8]) -> (r: Vec<u8>)
    ensures
        r@ == sha256(data@),
        r@.len() == 32,
{
    <sha2::Sha256 as sha2::Digest>::digest(data).to_vec()
}

/// Compresses `data` into a zstd frame with `zstd::stream::copy_encode` at
/// `level`, into a `Vec`. Reading a slice and writing a `Vec` cannot fail,
/// and a level in zstd's range is taken as it is, so the call succeeds (it
/// aborts only where memory runs out). The frame decompresses to `data`.
#[verifier::external_body]
pub(crate) fn zstd_encode(data: &[u8], level: i32) -> (r: Result<Vec<u8>, std::io::Error>)
    requires
        1 <= level <= 22,
    ensures
        r is Ok,
        r matches Ok(v) ==> v@ == zstd_compressed(data@, level) && zstd_decompressed(v@) == Some(data@),
{
    let mut compressed = Vec::with_capacity(data.len());
    match zstd::stream::copy_encode(data, &mut compressed, level) {
        Ok(()) => Ok(compressed),
        Err(e) => Err(e),
    }
}

/// Decompresses `frame` with `zstd::stream::copy_decode`, and fails where
/// that call does: on bytes that are no valid zstd frame, empty input among
/// them (an incomplete frame).
#[verifier::external_body]
pub(crate) fn zstd_decode(frame: &[u8]) -> (r: Result<Vec<u8>, std::io::Error>)
    ensures
        r is Ok <==> zstd_decompressed(frame@) is Some,
        r matches Ok(v) ==> zstd_decompressed(frame@) == Some(v@),
{
    let mut decompressed = Vec::new();
    match zstd::stream::copy_decode(frame, &mut decompressed) {
        Ok(()) => Ok(decompressed),
        Err(e) => Err(e),
    }
}

} // verus!
