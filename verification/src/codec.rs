//! Code units carried as base64 text: the bytes of the units, low byte
//! first, in the standard alphabet with padding.

use base64::engine::general_purpose::STANDARD;
use base64::{DecodeError, Engine};
use vstd::prelude::*;
use crate::error::CommandLineError;
use crate::text::{to_str, utf16_text, well_formed_utf16};

verus! {

/// The error of the base64 engine. Nothing is read from it.
#[verifier::external_type_specification]
#[verifier::external_body]
pub struct ExDecodeError(DecodeError);

/// The bytes that the standard base64 engine decodes `text` into, or `None`
/// where it refuses the text.
pub uninterp spec fn base64_bytes(text: Seq<char>) -> Option<Seq<u8>>;

/// `Engine::decode` of the engine `STANDARD`: decodes base64 text into
/// bytes.
///
/// Trusted: whether the call succeeds, and the bytes it returns, depend on
/// the text alone.
#[verifier::external_body]
fn base64_decode(text: &str) -> (result: Result<Vec<u8>, DecodeError>)
    ensures
        match result {
            Ok(bytes) => base64_bytes(text@) == Some(bytes@),
            Err(_) => base64_bytes(text@) is None,
        },
{
    STANDARD.decode(text)
}

/// The 16-bit unit whose low byte is `low` and whose high byte is `high`.
pub open spec fn unit_of(low: u8, high: u8) -> u16 {
    (low as u16) | ((high as u16) << 8)
}

/// The units that `bytes` hold, two bytes to a unit, low byte first.
pub open spec fn units_of_bytes(bytes: Seq<u8>) -> Seq<u16> {
    Seq::new(bytes.len() / 2, |i: int| unit_of(bytes[2 * i], bytes[2 * i + 1]))
}

/// Pairs bytes up into 16-bit units, low byte first. An odd number of
/// bytes is refused.
pub fn units_from_le_bytes(bytes: &[u8]) -> (result: Result<Vec<u16>, CommandLineError>)
    ensures
        result is Err <==> bytes@.len() % 2 != 0,
        match result {
            Ok(units) => units@ == units_of_bytes(bytes@),
            Err(e) => e == CommandLineError::OddByteCount,
        },
{
    if bytes.len() % 2 != 0 {
        return Err(CommandLineError::OddByteCount);
    }
    let mut units: Vec<u16> = Vec::new();
    let mut i: usize = 0;
    while i < bytes.len()
        invariant
            bytes@.len() % 2 == 0,
            i % 2 == 0,
            i <= bytes@.len(),
            units@.len() == i / 2,
            forall|j: int|
                0 <= j < units@.len() ==> #[trigger] units@[j] == unit_of(
                    bytes@[2 * j],
                    bytes@[2 * j + 1],
                ),
        decreases bytes@.len() - i,
    {
        let low: u8 = bytes[i];
        let high: u8 = bytes[i + 1];
        units.push((low as u16) | ((high as u16) << 8));
        i += 2;
    }
    Ok(units)
}

/// What decoding `input` gives: the input must be well-formed text, the
/// text must be base64, and the bytes must pair up into units.
pub open spec fn decoded_units(input: Seq<u16>) -> Result<Seq<u16>, CommandLineError> {
    match utf16_text(input) {
        None => Err(CommandLineError::NotUtf8),
        Some(text) => match base64_bytes(text) {
            None => Err(CommandLineError::InvalidBase64),
            Some(bytes) => if bytes.len() % 2 != 0 {
                Err(CommandLineError::OddByteCount)
            } else {
                Ok(units_of_bytes(bytes))
            },
        },
    }
}

/// Decodes base64 text, given as code units, into the code units that it
/// carries.
///
/// Input that is not well-formed UTF-16 is refused as no text, text that
/// the base64 engine refuses as no base64, and an odd number of decoded
/// bytes as no sequence of units.
pub fn decode_utf16le_base64(input: &[u16]) -> (result: Result<Vec<u16>, CommandLineError>)
    ensures
        match result {
            Ok(units) => decoded_units(input@) == Ok::<Seq<u16>, CommandLineError>(units@),
            Err(e) => decoded_units(input@) == Err::<Seq<u16>, CommandLineError>(e),
        },
        result == Err::<Vec<u16>, CommandLineError>(CommandLineError::NotUtf8)
            <==> !well_formed_utf16(input@),
{
    match to_str(input) {
        None => Err(CommandLineError::NotUtf8),
        Some(utf8) => match base64_decode(utf8.as_str()) {
            Err(_) => Err(CommandLineError::InvalidBase64),
            Ok(bytes) => units_from_le_bytes(bytes.as_slice()),
        },
    }
}

} // verus!
