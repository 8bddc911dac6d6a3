use vstd::prelude::*;
use vstd::utf8::{decode_utf8, valid_utf8};

use base64::Engine;

use crate::text::decimal;

verus! {

/// Why a text is not standard base64, as the `base64` crate reports it.
#[derive(PartialEq, Eq, Structural, Clone, Copy, Debug)]
pub enum Base64Error {
    /// A byte outside the alphabet, at the given offset.
    InvalidByte(usize, u8),
    /// The number of symbols cannot end a base64 text.
    InvalidLength(usize),
    /// The last symbol carries bits that decoding would drop.
    InvalidLastSymbol(usize, u8),
    /// Padding absent or misplaced.
    InvalidPadding,
}

/// The standard (RFC 4648, padded) base64 text of `bytes`, as
/// `base64::engine::general_purpose::STANDARD.encode` writes it.
pub uninterp spec fn base64_encoding(bytes: Seq<u8>) -> Seq<char>;

/// What `base64::engine::general_purpose::STANDARD.decode` makes of the
/// UTF-8 bytes of `text`.
pub uninterp spec fn base64_decoding(text: Seq<char>) -> Result<Seq<u8>, Base64Error>;

/// What `String::from_utf8_lossy` makes of `bytes`.
pub uninterp spec fn lossy_text(bytes: Seq<u8>) -> Seq<char>;

/// How the `base64` crate words a decoding error.
pub open spec fn base64_message(e: Base64Error) -> Seq<char> {
    match e {
        Base64Error::InvalidByte(at, b) => "Invalid symbol "@ + decimal(b as nat) + ", offset "@
            + decimal(at as nat) + "."@,
        Base64Error::InvalidLength(n) => "Invalid input length: "@ + decimal(n as nat),
        Base64Error::InvalidLastSymbol(at, b) => "Invalid last symbol "@ + decimal(b as nat)
            + ", offset "@ + decimal(at as nat) + "."@,
        Base64Error::InvalidPadding => "Invalid padding"@,
    }
}

/// The length of the padded base64 text of `n` bytes.
pub open spec fn base64_len(n: int) -> int {
    4 * ((n + 2) / 3)
}

/// Whether the base64 text of `n` bytes has a length that `usize` can hold;
/// the encoder panics otherwise.
pub open spec fn encodable_len(n: int) -> bool {
    base64_len(n) <= usize::MAX
}

/// Calls `STANDARD.encode` of the `base64` crate.  Its contract names the
/// result and states the length that the crate's `encoded_len` gives for
/// padded output; the encoder panics when that length overflows, which the
/// precondition excludes.
#[verifier::external_body]
pub(crate) fn base64_encode(bytes: &[u8]) -> (text: String)
    requires
        encodable_len(bytes@.len() as int),
    ensures
        text@ == base64_encoding(bytes@),
        text@.len() == base64_len(bytes@.len() as int),
{
    base64::engine::general_purpose::STANDARD.encode(bytes)
}

/// Calls `STANDARD.decode` of the `base64` crate on the bytes of `text`,
/// and hands its `DecodeError` back variant by variant.  Its contract names
/// the result, and states that decoding and encoding undo each other: the
/// text `STANDARD.encode` writes for some bytes decodes back to those bytes,
/// and a text that decodes is the one `STANDARD.encode` writes for what it
/// decodes to (the STANDARD configuration requires canonical padding and
/// refuses trailing bits).  Which texts are refused, and why, is not stated.
#[verifier::external_body]
pub(crate) fn base64_decode(text: &str) -> (res: Result<Vec<u8>, Base64Error>)
    ensures
        match res {
            Ok(bytes) => base64_decoding(text@) == Ok::<Seq<u8>, Base64Error>(bytes@),
            Err(e) => base64_decoding(text@) == Err::<Seq<u8>, Base64Error>(e),
        },
        res is Err ==> forall|b: Seq<u8>| #[trigger] base64_encoding(b) != text@,
        res matches Ok(v) ==> forall|b: Seq<u8>| #[trigger] base64_encoding(b) == text@ ==> v@ == b,
        res matches Ok(v) ==> base64_encoding(v@) == text@,
{
    match base64::engine::general_purpose::STANDARD.decode(text) {
        Ok(bytes) => Ok(bytes),
        Err(base64::DecodeError::InvalidByte(at, b)) => Err(Base64Error::InvalidByte(at, b)),
        Err(base64::DecodeError::InvalidLength(n)) => Err(Base64Error::InvalidLength(n)),
        Err(base64::DecodeError::InvalidLastSymbol(at, b)) => Err(
            Base64Error::InvalidLastSymbol(at, b),
        ),
        Err(base64::DecodeError::InvalidPadding) => Err(Base64Error::InvalidPadding),
    }
}

/// Calls the `Display` of `base64::DecodeError` on the error that `e`
/// stands for.  Its contract states the text that the crate's `Display`
/// writes for each variant, its numbers in decimal.
#[verifier::external_body]
pub(crate) fn base64_error_text(e: Base64Error) -> (s: String)
    ensures
        s@ == base64_message(e),
{
    let error = match e {
        Base64Error::InvalidByte(at, b) => base64::DecodeError::InvalidByte(at, b),
        Base64Error::InvalidLength(n) => base64::DecodeError::InvalidLength(n),
        Base64Error::InvalidLastSymbol(at, b) => base64::DecodeError::InvalidLastSymbol(at, b),
        Base64Error::InvalidPadding => base64::DecodeError::InvalidPadding,
    };
    error.to_string()
}

/// Calls `String::from_utf8`: the bytes are taken as text exactly when they
/// are well-formed UTF-8, and the text is then their decoding.
#[verifier::external_body]
pub(crate) fn utf8_text(bytes: Vec<u8>) -> (res: Option<String>)
    ensures
        res is Some <==> valid_utf8(bytes@),
        res matches Some(s) ==> s@ == decode_utf8(bytes@),
{
    String::from_utf8(bytes).ok()
}

/// Calls `String::from_utf8_lossy` and takes the text as an owned string.
/// The result is named; of it is stated only that well-formed UTF-8 comes
/// through as its decoding (ill-formed sequences become U+FFFD in a way
/// that is not stated here).
#[verifier::external_body]
pub(crate) fn lossy_utf8(bytes: &[u8]) -> (res: String)
    ensures
        res@ == lossy_text(bytes@),
        valid_utf8(bytes@) ==> res@ == decode_utf8(bytes@),
{
    String::from_utf8_lossy(bytes).into_owned()
}

} // verus!
