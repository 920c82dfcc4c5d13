//! Path values and their two codecs: the versioned binary format of the
//! native `ltree` type, and the plain text format of a string-typed column.

use byteorder::{ReadBytesExt, WriteBytesExt};
use std::io::Read;
use vstd::prelude::*;
use vstd::utf8::*;

verus! {

/// The one version of the binary format that is understood.
pub const LTREE_VERSION: i8 = 1;

/// A label path, held as its canonical dotted text.
#[derive(Debug, PartialEq, Eq, Clone)]
pub struct Ltree(pub String);

impl View for Ltree {
    type V = Seq<char>;

    open spec fn view(&self) -> Seq<char> {
        self.0@
    }
}

/// Why a binary payload could not be turned into a path.
#[derive(Debug, PartialEq, Eq, Clone, Copy)]
pub enum DecodeError {
    /// The payload is empty, so it holds no version byte.
    UnexpectedEof,
    /// The version byte is not the one supported version.
    UnsupportedVersion,
    /// The bytes after the version byte are not valid UTF-8.
    InvalidEncoding,
}

/// The binary payload of a path: the version byte, then the UTF-8 bytes of
/// the text, with no length prefix and no terminator.
pub open spec fn binary_payload(path: Seq<char>) -> Seq<u8> {
    seq![1u8] + encode_utf8(path)
}

/// What a binary payload decodes to.
pub open spec fn binary_decoding(payload: Seq<u8>) -> Result<Seq<char>, DecodeError> {
    if payload.len() == 0 {
        Err(DecodeError::UnexpectedEof)
    } else if payload[0] != 1u8 {
        Err(DecodeError::UnsupportedVersion)
    } else if !valid_utf8(payload.skip(1)) {
        Err(DecodeError::InvalidEncoding)
    } else {
        Ok(decode_utf8(payload.skip(1)))
    }
}

/// The byte that stands for `n` in two's complement.
pub open spec fn byte_of_i8(n: i8) -> u8 {
    if n >= 0 {
        n as u8
    } else {
        (n + 256) as u8
    }
}

/// The signed number that the byte `b` stands for in two's complement.
pub open spec fn i8_of_byte(b: u8) -> i8 {
    if b < 128 {
        b as i8
    } else {
        (b - 256) as i8
    }
}

/// `std::io::Error`, the error of the readers and writers of `std::io`. It
/// is only handed on: nothing is said of what it holds.
#[verifier::external_type_specification]
#[verifier::external_body]
pub struct ExIoError(std::io::Error);

/// `byteorder::WriteBytesExt::write_i8` on a byte vector. It hands the one
/// byte of `n` to `write_all`, which on a `Vec<u8>` appends and cannot fail.
#[verifier::external_body]
fn write_i8(out: &mut Vec<u8>, n: i8) -> (r: Result<(), std::io::Error>)
    ensures
        r is Ok,
        final(out)@ == old(out)@.push(byte_of_i8(n)),
{
    out.write_i8(n)
}

/// `byteorder::ReadBytesExt::read_i8` on a byte slice. It reads exactly one
/// byte and returns it as an `i8`, together with the unread part of the
/// slice; on an empty slice it fails and nothing is read.
#[verifier::external_body]
fn read_i8(raw: &[u8]) -> (r: Result<(i8, &[u8]), std::io::Error>)
    ensures
        r is Ok <==> raw@.len() > 0,
        r matches Ok((n, rest)) ==> n == i8_of_byte(raw@[0]) && rest@ == raw@.skip(1),
{
    let mut rest = raw;
    let n = rest.read_i8()?;
    Ok((n, rest))
}

/// `std::io::Read::read_to_string` on a byte slice. It appends the whole
/// slice to `buf` as text and returns the number of bytes read; where the
/// slice is not valid UTF-8 it fails and leaves `buf` as it was.
#[verifier::external_body]
fn read_to_string(raw: &[u8], buf: &mut String) -> (r: Result<usize, std::io::Error>)
    ensures
        r is Ok <==> valid_utf8(raw@),
        r matches Ok(n) ==> n == raw@.len() && final(buf)@ == old(buf)@ + decode_utf8(raw@),
        r is Err ==> final(buf)@ == old(buf)@,
{
    let mut rest = raw;
    rest.read_to_string(buf)
}

impl Ltree {
    /// Writes the binary payload of this path after what `out` already holds.
    pub fn to_sql(&self, out: &mut Vec<u8>)
        ensures
            final(out)@ == old(out)@ + binary_payload(self@),
    {
        let _ = write_i8(out, LTREE_VERSION);
        let text = self.0.as_str().as_bytes();
        let ghost before = out@;
        out.extend_from_slice(text);
        assert(out@ =~= before + text@);
        assert(out@ =~= old(out)@ + binary_payload(self@));
    }

    /// Reads a path from a binary payload.
    ///
    /// The payload is rejected when it is empty, when its first byte is not
    /// the supported version, and when the rest is not valid UTF-8, in that
    /// order.
    pub fn from_sql(value: &[u8]) -> (r: Result<Ltree, DecodeError>)
        ensures
            match r {
                Ok(path) => binary_decoding(value@) == Ok::<Seq<char>, DecodeError>(path@),
                Err(e) => binary_decoding(value@) == Err::<Seq<char>, DecodeError>(e),
            },
            value@.len() > 0 && value@[0] != 1u8 ==> r == Err::<Ltree, DecodeError>(
                DecodeError::UnsupportedVersion,
            ),
    {
        let (version, raw) = match read_i8(value) {
            Ok(read) => read,
            Err(_) => {
                return Err(DecodeError::UnexpectedEof);
            },
        };
        if version != LTREE_VERSION {
            return Err(DecodeError::UnsupportedVersion);
        }
        let mut buf = String::new();
        match read_to_string(raw, &mut buf) {
            Ok(_) => Ok(Ltree(buf)),
            Err(_) => Err(DecodeError::InvalidEncoding),
        }
    }

    /// The textual form of this path: the text itself, with no version byte.
    pub fn to_sql_text(&self) -> (text: String)
        ensures
            text@ == text_payload(self@),
    {
        self.0.clone()
    }

    /// Reads a path from its textual form. Every text is taken as it is.
    pub fn from_sql_text(text: String) -> (path: Ltree)
        ensures
            path@ == text_decoding(text@),
            path.0 == text,
    {
        Ltree(text)
    }
}

/// The textual form of a path: the text itself.
pub open spec fn text_payload(path: Seq<char>) -> Seq<char> {
    path
}

/// What a textual form decodes to: every text is a path.
pub open spec fn text_decoding(text: Seq<char>) -> Seq<char> {
    text
}

/// Round trip of the binary codec: the payload of any path decodes to that
/// path.
pub proof fn lemma_binary_round_trip(path: Seq<char>)
    ensures
        binary_decoding(binary_payload(path)) == Ok::<Seq<char>, DecodeError>(path),
{
    let payload = binary_payload(path);
    assert(payload.skip(1) =~= encode_utf8(path));
    encode_utf8_valid_utf8(path);
    encode_utf8_decode_utf8(path);
}

/// Round trip of the textual codec: the textual form of any path decodes to
/// that path.
pub proof fn lemma_text_round_trip(path: Seq<char>)
    ensures
        text_decoding(text_payload(path)) == path,
{
}

/// A payload that decodes to a path is the payload of that path: no two
/// payloads stand for one path.
pub proof fn lemma_binary_decoding_is_exact(payload: Seq<u8>, path: Seq<char>)
    requires
        binary_decoding(payload) == Ok::<Seq<char>, DecodeError>(path),
    ensures
        binary_payload(path) == payload,
{
    decode_utf8_encode_utf8(payload.skip(1));
    assert(binary_payload(path) =~= payload);
}

} // verus!
