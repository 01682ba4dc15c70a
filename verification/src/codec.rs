//! Decoders for what a response body may be wrapped in: UTF-8 text, gzip
//! and brotli streams. The decoders themselves come from `std`, `flate2`
//! and `brotli`; this module states what the rest of the crate relies on.

use std::io::Read;
use vstd::prelude::*;
use vstd::utf8::{decode_utf8, valid_utf8};

verus! {

/// `std::io::Error`, the error of the two readers; carried through unread.
#[verifier::external_type_specification]
#[verifier::external_body]
pub struct ExIoError(std::io::Error);

/// `core::str::Utf8Error`, the error of `core::str::from_utf8`; carried
/// through unread.
#[verifier::external_type_specification]
#[verifier::external_body]
pub struct ExUtf8Error(core::str::Utf8Error);

/// What `flate2`'s gzip reader yields for a stream: the decompressed bytes
/// of its first member, or `None` where reading the stream fails.
pub uninterp spec fn gzip_inflated(data: Seq<u8>) -> Option<Seq<u8>>;

/// What `brotli`'s reader yields for a stream: the decompressed bytes, or
/// `None` where reading the stream fails.
pub uninterp spec fn brotli_inflated(data: Seq<u8>) -> Option<Seq<u8>>;

/// `core::str::from_utf8` accepts exactly the valid UTF-8 encodings, and the
/// text it returns is the decoding of the bytes.
pub assume_specification[ core::str::from_utf8 ](v: &[u8]) -> (r: Result<
    &str,
    core::str::Utf8Error,
>)
    ensures
        match r {
            Ok(s) => valid_utf8(v@) && s@ == decode_utf8(v@),
            Err(_) => !valid_utf8(v@),
        },
;

/// `String::push` appends one character.
pub assume_specification[ std::string::String::push ](s: &mut std::string::String, ch: char)
    ensures
        final(s)@ == old(s)@.push(ch),
;

/// Runs `flate2::read::GzDecoder` over `data` to the end of the stream. The
/// outcome is a function of the bytes alone, named `gzip_inflated`; a
/// failure hands out the reader's error.
#[verifier::external_body]
pub(crate) fn gunzip(data: &Vec<u8>) -> (r: Result<Vec<u8>, std::io::Error>)
    ensures
        match r {
            Ok(out) => gzip_inflated(data@) == Some(out@),
            Err(_) => gzip_inflated(data@) is None,
        },
{
    let mut decoder = flate2::read::GzDecoder::new(data.as_slice());
    let mut out: Vec<u8> = Vec::new();
    match decoder.read_to_end(&mut out) {
        Ok(_) => Ok(out),
        Err(e) => Err(e),
    }
}

/// Runs `brotli::Decompressor`, with a buffer of 4096 bytes, over `data` to
/// the end of the stream. The outcome is a function of the bytes alone,
/// named `brotli_inflated`; a failure hands out the reader's error.
#[verifier::external_body]
pub(crate) fn unbrotli(data: &Vec<u8>) -> (r: Result<Vec<u8>, std::io::Error>)
    ensures
        match r {
            Ok(out) => brotli_inflated(data@) == Some(out@),
            Err(_) => brotli_inflated(data@) is None,
        },
{
    let mut decoder = brotli::Decompressor::new(data.as_slice(), 4096);
    let mut out: Vec<u8> = Vec::new();
    match decoder.read_to_end(&mut out) {
        Ok(_) => Ok(out),
        Err(e) => Err(e),
    }
}

/// The message of a reader's error, as `std::io::Error` displays it.
/// Nothing is claimed of the text.
#[verifier::external_body]
pub(crate) fn io_error_text(e: &std::io::Error) -> String {
    format!("{e}")
}

/// The text that `bytes` encode, where they are valid UTF-8.
pub fn decode_text(bytes: &Vec<u8>) -> (r: Option<String>)
    ensures
        match r {
            Some(s) => valid_utf8(bytes@) && s@ == decode_utf8(bytes@),
            None => !valid_utf8(bytes@),
        },
{
    match core::str::from_utf8(bytes.as_slice()) {
        Ok(s) => Some(s.to_owned()),
        Err(_) => None,
    }
}

/// The string that holds the characters of `chars`, in order.
pub fn string_of(chars: &Vec<char>) -> (s: String)
    ensures
        s@ == chars@,
{
    let mut s = String::new();
    let mut i: usize = 0;
    while i < chars.len()
        invariant
            0 <= i <= chars.len(),
            s@ == chars@.take(i as int),
        decreases chars.len() - i,
    {
        s.push(chars[i]);
        i += 1;
    }
    s
}

} // verus!
