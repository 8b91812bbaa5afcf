use vstd::prelude::*;
use vstd::slice::slice_to_vec;
use vstd::string::*;

use crate::errors::DecodeError;
use crate::strutil::eq_ignore_case;

verus! {

/// What gzip decompression yields on `b`: the decompressed bytes, or
/// nothing when `b` is not a well-formed gzip stream. The value is fixed
/// by the bytes alone.
pub uninterp spec fn gunzip_of(b: Seq<u8>) -> Option<Seq<u8>>;

/// What raw-deflate decompression yields on `b`, or nothing when `b` is
/// not a well-formed deflate stream. The value is fixed by the bytes alone.
pub uninterp spec fn inflate_of(b: Seq<u8>) -> Option<Seq<u8>>;

/// What the lossy UTF-8 reading of `b` yields; invalid sequences become
/// replacement characters. The value is fixed by the bytes alone.
pub uninterp spec fn utf8_lossy_of(b: Seq<u8>) -> Seq<char>;

/// Relies on flate2's read::GzDecoder: reading it to the end yields the
/// decompressed payload, or an error when the input is not valid gzip
/// framing.
#[verifier::external_body]
fn gzip_inflate(data: &[u8]) -> (r: Option<Vec<u8>>)
    ensures
        match r {
            Some(v) => gunzip_of(data@) == Some(v@),
            None => gunzip_of(data@) is None,
        },
{
    let mut out = Vec::new();
    match std::io::Read::read_to_end(&mut flate2::read::GzDecoder::new(data), &mut out) {
        Ok(_) => Some(out),
        Err(_) => None,
    }
}

/// Relies on flate2's read::DeflateDecoder: reading it to the end yields
/// the decompressed payload, or an error when the input is not valid raw
/// deflate framing.
#[verifier::external_body]
fn deflate_inflate(data: &[u8]) -> (r: Option<Vec<u8>>)
    ensures
        match r {
            Some(v) => inflate_of(data@) == Some(v@),
            None => inflate_of(data@) is None,
        },
{
    let mut out = Vec::new();
    match std::io::Read::read_to_end(&mut flate2::read::DeflateDecoder::new(data), &mut out) {
        Ok(_) => Some(out),
        Err(_) => None,
    }
}

/// Relies on flate2's read::GzEncoder together with its read::GzDecoder:
/// compressing bytes with gzip framing and decompressing them again yields
/// the original payload. Reading the in-memory encoder performs no I/O and
/// cannot fail.
#[verifier::external_body]
fn gzip_compress(data: &[u8]) -> (r: Vec<u8>)
    ensures
        gunzip_of(r@) == Some(data@),
{
    let mut out = Vec::new();
    let mut enc = flate2::read::GzEncoder::new(data, flate2::Compression::default());
    std::io::Read::read_to_end(&mut enc, &mut out).unwrap();
    out
}

/// Relies on flate2's read::DeflateEncoder together with its
/// read::DeflateDecoder: compressing bytes with raw deflate framing and
/// decompressing them again yields the original payload. Reading the
/// in-memory encoder performs no I/O and cannot fail.
#[verifier::external_body]
fn deflate_compress(data: &[u8]) -> (r: Vec<u8>)
    ensures
        inflate_of(r@) == Some(data@),
{
    let mut out = Vec::new();
    let mut enc = flate2::read::DeflateEncoder::new(data, flate2::Compression::default());
    std::io::Read::read_to_end(&mut enc, &mut out).unwrap();
    out
}

/// Relies on String::from_utf8_lossy: the characters depend on the bytes
/// alone.
#[verifier::external_body]
pub(crate) fn utf8_lossy(data: &[u8]) -> (r: String)
    ensures
        r@ == utf8_lossy_of(data@),
{
    String::from_utf8_lossy(data).into_owned()
}

/// The view of a declared Content-Encoding value.
pub open spec fn label_view(label: &Option<String>) -> Option<Seq<char>> {
    match *label {
        Some(s) => Some(s@),
        None => None,
    }
}

/// The declared encoding equals `word` up to ASCII case.
pub open spec fn label_is(label: Option<Seq<char>>, word: Seq<char>) -> bool {
    match label {
        Some(l) => eq_ignore_case(l, word),
        None => false,
    }
}

/// What decoding `b` under the declared encoding `label` yields: the gzip
/// or deflate decompression when one of those schemes is declared, and the
/// payload itself under any other or absent label.
pub open spec fn decoded_body(b: Seq<u8>, label: Option<Seq<char>>) -> Option<Seq<u8>> {
    if label_is(label, "gzip"@) {
        gunzip_of(b)
    } else if label_is(label, "deflate"@) {
        inflate_of(b)
    } else {
        Some(b)
    }
}

/// Decode a response body under its declared Content-Encoding.
///
/// A declared scheme is binding: once "gzip" or "deflate" is declared
/// (case-insensitively), corrupt framing is an error, never a silent
/// pass-through. Any other or absent label passes the payload through
/// unchanged.
pub fn decode(payload: &[u8], declared_encoding: &Option<String>) -> (r: Result<
    Vec<u8>,
    DecodeError,
>)
    ensures
        match r {
            Ok(v) => decoded_body(payload@, label_view(declared_encoding)) == Some(v@),
            Err(e) => decoded_body(payload@, label_view(declared_encoding)) is None && (e
                == DecodeError::Gzip <==> label_is(label_view(declared_encoding), "gzip"@)) && (e
                == DecodeError::Deflate <==> label_is(label_view(declared_encoding), "deflate"@)),
        },
{
    proof {
        // The two scheme words differ in length, so no label can match both.
        reveal_strlit("gzip");
        reveal_strlit("deflate");
    }
    match declared_encoding {
        Some(s) => {
            if crate::strutil::str_eq_ignore_ascii_case(s.as_str(), "gzip") {
                match gzip_inflate(payload) {
                    Some(v) => Ok(v),
                    None => Err(DecodeError::Gzip),
                }
            } else if crate::strutil::str_eq_ignore_ascii_case(s.as_str(), "deflate") {
                match deflate_inflate(payload) {
                    Some(v) => Ok(v),
                    None => Err(DecodeError::Deflate),
                }
            } else {
                Ok(slice_to_vec(payload))
            }
        },
        None => Ok(slice_to_vec(payload)),
    }
}

/// Round trip: gzip-compressing any payload and then decoding it under the
/// declared label "gzip" yields exactly the payload again.
pub fn gzip_round_trip(payload: &[u8]) -> (r: Vec<u8>)
    ensures
        r@ == payload@,
{
    let compressed = gzip_compress(payload);
    let label = Some(String::from_str("gzip"));
    match decode(compressed.as_slice(), &label) {
        Ok(v) => v,
        Err(_) => {
            proof {
                assert(false);
            }
            Vec::new()
        },
    }
}

/// Round trip: deflate-compressing any payload and then decoding it under
/// the declared label "deflate" yields exactly the payload again.
pub fn deflate_round_trip(payload: &[u8]) -> (r: Vec<u8>)
    ensures
        r@ == payload@,
{
    let compressed = deflate_compress(payload);
    let label = Some(String::from_str("deflate"));
    proof {
        // "deflate" does not match "gzip", so decoding takes the deflate branch.
        reveal_strlit("gzip");
        reveal_strlit("deflate");
    }
    match decode(compressed.as_slice(), &label) {
        Ok(v) => v,
        Err(_) => {
            proof {
                assert(false);
            }
            Vec::new()
        },
    }
}

} // verus!
