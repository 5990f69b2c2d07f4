//! The blob codec: DEFLATE compression and unpadded base64 text.
//!
//! Both codecs are the work of outside crates. What they compute is named
//! here by spec functions without a body, and the few facts the rest of the
//! library relies on are stated on the private functions that make the calls.

use base64::Engine;
use vstd::prelude::*;

verus! {

/// The DEFLATE stream that the compressor emits for `bytes`.
pub uninterp spec fn deflated(bytes: Seq<u8>) -> Seq<u8>;

/// What the decompressor reads out of `stream`, or `None` where it reports
/// the stream as truncated or malformed.
pub uninterp spec fn inflated(stream: Seq<u8>) -> Option<Seq<u8>>;

/// The unpadded standard-alphabet base64 text of `bytes`.
pub uninterp spec fn base64_text(bytes: Seq<u8>) -> Seq<char>;

/// The bytes that unpadded standard-alphabet base64 `text` stands for, or
/// `None` where the decoder rejects the text.
pub uninterp spec fn base64_bytes(text: Seq<char>) -> Option<Seq<u8>>;

/// The bytes that padded standard-alphabet base64 `text` stands for, or
/// `None` where the decoder rejects the text.
pub uninterp spec fn base64_padded_bytes(text: Seq<char>) -> Option<Seq<u8>>;

/// Whether `c` belongs to the standard base64 alphabet: letters, digits,
/// `+` and `/`. The padding sign `=` does not.
pub open spec fn is_base64_char(c: char) -> bool {
    ||| 'A' <= c <= 'Z'
    ||| 'a' <= c <= 'z'
    ||| '0' <= c <= '9'
    ||| c == '+'
    ||| c == '/'
}

/// The number of characters that unpadded base64 needs for `n` bytes: four
/// for each full group of three, then two or three for a rest of one or two.
pub open spec fn base64_len(n: nat) -> nat {
    (n / 3) * 4 + if n % 3 == 0 {
        0nat
    } else if n % 3 == 1 {
        2nat
    } else {
        3nat
    }
}

/// What a decoder handed back, as contracts speak of it: the bytes by
/// their values.
pub open spec fn bytes_of(out: Option<Vec<u8>>) -> Option<Seq<u8>> {
    match out {
        Some(bytes) => Some(bytes@),
        None => None,
    }
}

/// Why a blob could not be decoded.
#[derive(Debug, Clone, Copy, PartialEq, Eq, Structural)]
pub enum CodecError {
    /// The text is not unpadded base64 over the standard alphabet.
    InvalidText,
    /// The bytes are not a complete, well-formed DEFLATE stream.
    InvalidStream,
}

/// Calls `libflate::deflate::Encoder` with its default options on an empty
/// `Vec`: `new`, `write_all`, `finish`, `into_result`.
///
/// Trusted: the bytes that come out depend on the input alone, and the
/// crate's own decoder reads them back as the input. The writer is a `Vec`,
/// which never fails a write, so neither `unwrap` can panic.
#[verifier::external_body]
fn deflate_bytes(src: &[u8]) -> (out: Vec<u8>)
    ensures
        out@ == deflated(src@),
        inflated(out@) == Some(src@),
{
    let mut encoder = libflate::deflate::Encoder::new(Vec::new());
    std::io::Write::write_all(&mut encoder, src).unwrap();
    encoder.finish().into_result().unwrap()
}

/// Calls `libflate::deflate::Decoder::new` on the slice and reads it to the
/// end with `read_to_end`.
///
/// Trusted: the outcome depends on the input alone; an error of the decoder
/// is handed on as `None`.
#[verifier::external_body]
fn inflate_bytes(src: &[u8]) -> (out: Option<Vec<u8>>)
    ensures
        bytes_of(out) == inflated(src@),
{
    let mut decoder = libflate::deflate::Decoder::new(src);
    let mut decoded = Vec::new();
    match std::io::Read::read_to_end(&mut decoder, &mut decoded) {
        Ok(_) => Some(decoded),
        Err(_) => None,
    }
}

/// Calls `encode` of `base64::prelude::BASE64_STANDARD_NO_PAD`.
///
/// Trusted: the text depends on the input alone, has the length that
/// `base64::encoded_len` gives without padding, uses the standard alphabet
/// only, and the same engine decodes it back to the input. The call panics
/// where that length does not fit in `usize`, which `requires` leaves out.
#[verifier::external_body]
fn base64_encode(bytes: &[u8]) -> (text: String)
    requires
        base64_len(bytes@.len()) <= usize::MAX,
    ensures
        text@ == base64_text(bytes@),
        text@.len() == base64_len(bytes@.len()),
        forall|i: int| 0 <= i < text@.len() ==> is_base64_char(#[trigger] text@[i]),
        base64_bytes(text@) == Some(bytes@),
{
    base64::prelude::BASE64_STANDARD_NO_PAD.encode(bytes)
}

/// Calls `decode` of `base64::prelude::BASE64_STANDARD_NO_PAD`.
///
/// Trusted: the outcome depends on the text alone; an error of the decoder
/// is handed on as `None`.
#[verifier::external_body]
fn base64_decode(text: &str) -> (out: Option<Vec<u8>>)
    ensures
        bytes_of(out) == base64_bytes(text@),
{
    base64::prelude::BASE64_STANDARD_NO_PAD.decode(text).ok()
}

/// Calls `decode` of `base64::prelude::BASE64_STANDARD`, which asks for
/// canonical padding.
///
/// Trusted: the outcome depends on the text alone; an error of the decoder
/// is handed on as `None`.
#[verifier::external_body]
fn base64_decode_padded(text: &str) -> (out: Option<Vec<u8>>)
    ensures
        bytes_of(out) == base64_padded_bytes(text@),
{
    base64::prelude::BASE64_STANDARD.decode(text).ok()
}

/// A decoding outcome as contracts speak of it: the bytes by their values.
pub open spec fn decoded(out: Result<Vec<u8>, CodecError>) -> Result<Seq<u8>, CodecError> {
    match out {
        Ok(bytes) => Ok(bytes@),
        Err(e) => Err(e),
    }
}

/// What `decompress` returns for `stream`.
pub open spec fn decompress_spec(stream: Seq<u8>) -> Result<Seq<u8>, CodecError> {
    match inflated(stream) {
        Some(bytes) => Ok(bytes),
        None => Err(CodecError::InvalidStream),
    }
}

/// What `decode_text` returns for `text`.
pub open spec fn decode_text_spec(text: Seq<char>) -> Result<Seq<u8>, CodecError> {
    match base64_bytes(text) {
        Some(bytes) => Ok(bytes),
        None => Err(CodecError::InvalidText),
    }
}

/// What `decompress_from_base64` returns for `text`: the text is decoded
/// first, and what it stands for is decompressed.
pub open spec fn decompress_from_base64_spec(text: Seq<char>) -> Result<Seq<u8>, CodecError> {
    match decode_text_spec(text) {
        Ok(stream) => decompress_spec(stream),
        Err(e) => Err(e),
    }
}

/// Whether the base64 text of `n` bytes has a length that fits in `usize`.
pub open spec fn encodable_len(n: nat) -> bool {
    base64_len(n) <= usize::MAX
}

/// What `compress_to_base64` returns for `bytes`.
pub open spec fn compress_to_base64_spec(bytes: Seq<u8>) -> Option<Seq<char>> {
    if encodable_len(deflated(bytes).len()) {
        Some(base64_text(deflated(bytes)))
    } else {
        None
    }
}

/// Compresses `src` into a DEFLATE stream. Decompressing the stream gives
/// `src` back.
pub fn compress(src: &[u8]) -> (out: Vec<u8>)
    ensures
        out@ == deflated(src@),
        decompress_spec(out@) == Ok::<Seq<u8>, CodecError>(src@),
{
    deflate_bytes(src)
}

/// Decompresses a DEFLATE stream. A truncated or malformed stream is
/// refused with `InvalidStream`.
pub fn decompress(src: &[u8]) -> (out: Result<Vec<u8>, CodecError>)
    ensures
        decoded(out) == decompress_spec(src@),
{
    match inflate_bytes(src) {
        Some(bytes) => Ok(bytes),
        None => Err(CodecError::InvalidStream),
    }
}

/// Encodes `bytes` as text that is safe inside a quoted string: unpadded
/// base64 over the standard alphabet. Decoding the text gives `bytes` back.
pub fn encode_text(bytes: &[u8]) -> (text: String)
    requires
        encodable_len(bytes@.len()),
    ensures
        text@ == base64_text(bytes@),
        text@.len() == base64_len(bytes@.len()),
        forall|i: int| 0 <= i < text@.len() ==> is_base64_char(#[trigger] text@[i]),
        decode_text_spec(text@) == Ok::<Seq<u8>, CodecError>(bytes@),
{
    base64_encode(bytes)
}

/// Decodes unpadded base64 text. Text with a character outside the
/// alphabet, with padding, or of an impossible length is refused with
/// `InvalidText`.
pub fn decode_text(text: &str) -> (out: Result<Vec<u8>, CodecError>)
    ensures
        decoded(out) == decode_text_spec(text@),
{
    match base64_decode(text) {
        Some(bytes) => Ok(bytes),
        None => Err(CodecError::InvalidText),
    }
}

/// What `decode_padded_text` returns for `text`.
pub open spec fn decode_padded_text_spec(text: Seq<char>) -> Result<Seq<u8>, CodecError> {
    match base64_padded_bytes(text) {
        Some(bytes) => Ok(bytes),
        None => Err(CodecError::InvalidText),
    }
}

/// Decodes padded base64 text, as a data URL carries it. Text with a
/// character outside the alphabet or without its canonical padding is
/// refused with `InvalidText`.
pub fn decode_padded_text(text: &str) -> (out: Result<Vec<u8>, CodecError>)
    ensures
        decoded(out) == decode_padded_text_spec(text@),
{
    match base64_decode_padded(text) {
        Some(bytes) => Ok(bytes),
        None => Err(CodecError::InvalidText),
    }
}

/// Tells whether `n` bytes can be encoded as text on this machine.
pub fn fits_encoding(n: usize) -> (fits: bool)
    ensures
        fits == encodable_len(n as nat),
{
    let groups: usize = n / 3;
    let rest: usize = n % 3;
    let tail: usize = if rest == 0 {
        0
    } else if rest == 1 {
        2
    } else {
        3
    };
    groups <= (usize::MAX - tail) / 4
}

/// Compresses `src` and encodes the stream as text. Returns `None` where
/// the stream is too long for its text to fit in memory. Otherwise the text
/// has the length that unpadded base64 needs for the stream, holds no
/// character outside the alphabet, and `decompress_from_base64` gives `src`
/// back from it.
pub fn compress_to_base64(src: &[u8]) -> (out: Option<String>)
    ensures
        out is Some == compress_to_base64_spec(src@) is Some,
        out matches Some(text) ==> {
            &&& compress_to_base64_spec(src@) == Some(text@)
            &&& text@.len() == base64_len(deflated(src@).len())
            &&& forall|i: int| 0 <= i < text@.len() ==> is_base64_char(#[trigger] text@[i])
            &&& decompress_from_base64_spec(text@) == Ok::<Seq<u8>, CodecError>(src@)
        },
{
    let compressed = compress(src);
    if fits_encoding(compressed.len()) {
        Some(encode_text(compressed.as_slice()))
    } else {
        None
    }
}

/// Decodes text and decompresses what it stands for. The text is checked
/// first: text that is no base64 is refused with `InvalidText`, text that
/// stands for no DEFLATE stream with `InvalidStream`.
pub fn decompress_from_base64(src: &str) -> (out: Result<Vec<u8>, CodecError>)
    ensures
        decoded(out) == decompress_from_base64_spec(src@),
{
    match decode_text(src) {
        Ok(compressed) => decompress(compressed.as_slice()),
        Err(e) => Err(e),
    }
}

} // verus!
