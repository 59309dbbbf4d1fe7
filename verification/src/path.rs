//! Host-side path values.
//!
//! A path is carried as its raw bytes: host paths need not be valid UTF-8,
//! and only a conversion to text can fail. Construction from UTF-16 units
//! decodes lossily, as a caller handing over foreign text would expect.

use vstd::prelude::*;
use vstd::utf8::decode_utf8;
use vstd::utf8::valid_utf8;

verus! {

/// A host-side path, held as its raw bytes.
#[derive(Clone, Debug, PartialEq, Eq)]
pub struct RsPath {
    pub bytes: Vec<u8>,
}

/// The character sequence that lossy UTF-16 decoding yields: each invalid
/// unit or unpaired surrogate becomes the replacement character.
pub uninterp spec fn utf16_lossy_chars(units: Seq<u16>) -> Seq<char>;

/// Relies on String::from_utf8: `Ok` exactly on valid UTF-8 input, and the
/// returned string holds exactly the given bytes.
#[verifier::external_body]
fn bytes_to_string(bytes: &Vec<u8>) -> (r: Option<String>)
    ensures
        r is Some <==> valid_utf8(bytes@),
        r matches Some(s) ==> s@ == decode_utf8(bytes@),
{
    match String::from_utf8(bytes.clone()) {
        Ok(s) => Some(s),
        Err(_) => None,
    }
}

/// Relies on String::from_utf16_lossy: the result is a function of the code
/// units alone, with invalid data replaced by the replacement character.
#[verifier::external_body]
fn utf16_to_string_lossy(units: &[u16]) -> (r: String)
    ensures
        r@ == utf16_lossy_chars(units@),
        units@.len() == 0 ==> r@.len() == 0,
{
    String::from_utf16_lossy(units)
}

impl RsPath {
    pub fn new(bytes: Vec<u8>) -> (r: RsPath)
        ensures
            r.bytes == bytes,
    {
        RsPath { bytes }
    }

    /// The path as text, when its bytes are valid UTF-8.
    pub fn rs_path_to_string_opt(&self) -> (r: Option<String>)
        ensures
            r is Some <==> valid_utf8(self.bytes@),
            r matches Some(s) ==> s@ == decode_utf8(self.bytes@),
    {
        bytes_to_string(&self.bytes)
    }
}

/// A path from raw host bytes, kept as they are.
pub fn rs_path_from_bytes(b: &[u8]) -> (r: RsPath)
    ensures
        r.bytes@ == b@,
{
    RsPath { bytes: vstd::slice::slice_to_vec(b) }
}

/// A path from UTF-16 code units, decoded lossily.
pub fn rs_path_from_utf16(w: &[u16]) -> (r: RsPath)
    ensures
        r.bytes@ == vstd::utf8::encode_utf8(utf16_lossy_chars(w@)),
{
    let s = utf16_to_string_lossy(w);
    RsPath { bytes: s.as_str().as_bytes_vec() }
}

pub fn rs_path_destroy(path: RsPath) {
    let _ = path;
}

} // verus!
