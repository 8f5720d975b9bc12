//! Code units as text: whether a sequence of 16-bit units is well-formed
//! UTF-16, and its conversion to a `String`.

use std::string::FromUtf16Error;
use vstd::prelude::*;

verus! {

/// The first unit of a surrogate pair.
pub open spec fn is_high_surrogate(unit: u16) -> bool {
    0xD800 <= unit <= 0xDBFF
}

/// The second unit of a surrogate pair.
pub open spec fn is_low_surrogate(unit: u16) -> bool {
    0xDC00 <= unit <= 0xDFFF
}

/// Whether `units` is well-formed UTF-16: every high surrogate is followed
/// by a low surrogate, and no low surrogate stands without a high surrogate
/// before it.
pub open spec fn well_formed_utf16(units: Seq<u16>) -> bool
    decreases units.len(),
{
    if units.len() == 0 {
        true
    } else if is_high_surrogate(units[0]) {
        units.len() >= 2 && is_low_surrogate(units[1]) && well_formed_utf16(units.skip(2))
    } else if is_low_surrogate(units[0]) {
        false
    } else {
        well_formed_utf16(units.skip(1))
    }
}

/// The error of `String::from_utf16`. Nothing is read from it.
#[verifier::external_type_specification]
#[verifier::external_body]
pub struct ExFromUtf16Error(FromUtf16Error);

/// The characters that `String::from_utf16` decodes `units` into, or `None`
/// where it refuses them.
pub uninterp spec fn utf16_text(units: Seq<u16>) -> Option<Seq<char>>;

/// The characters that `String::from_utf16_lossy` decodes `units` into.
pub uninterp spec fn utf16_lossy_text(units: Seq<u16>) -> Seq<char>;

/// `String::from_utf16`: decodes UTF-16 into a `String`.
///
/// Trusted: the call succeeds exactly on well-formed UTF-16, and what it
/// returns depends on the units alone.
#[verifier::external_body]
fn string_from_utf16(units: &[u16]) -> (result: Result<String, FromUtf16Error>)
    ensures
        result is Ok <==> well_formed_utf16(units@),
        match result {
            Ok(text) => utf16_text(units@) == Some(text@),
            Err(_) => utf16_text(units@) is None,
        },
{
    String::from_utf16(units)
}

/// `String::from_utf16_lossy`: decodes UTF-16 into a `String`, with the
/// replacement character in place of what is not well-formed.
///
/// Trusted: what it returns depends on the units alone.
#[verifier::external_body]
fn string_from_utf16_lossy(units: &[u16]) -> (text: String)
    ensures
        text@ == utf16_lossy_text(units@),
{
    String::from_utf16_lossy(units)
}

/// The text that `units` are shown as: their exact text where they are
/// well-formed UTF-16, and else their text with replacement characters.
pub open spec fn shown_text(units: Seq<u16>) -> Seq<char> {
    match utf16_text(units) {
        Some(text) => text,
        None => utf16_lossy_text(units),
    }
}

/// Code units converted to text, and whether the conversion lost anything.
pub struct Text {
    /// The text.
    pub text: String,
    /// Whether the units were not well-formed UTF-16, so that `text` holds
    /// replacement characters.
    pub lossy: bool,
}

/// The text of `units` if they are well-formed UTF-16.
pub fn to_str(units: &[u16]) -> (text: Option<String>)
    ensures
        text is Some <==> well_formed_utf16(units@),
        match text {
            Some(t) => utf16_text(units@) == Some(t@),
            None => utf16_text(units@) is None,
        },
{
    match string_from_utf16(units) {
        Ok(text) => Some(text),
        Err(_) => None,
    }
}

/// Converts `units` to text. Units that are well-formed UTF-16 are
/// converted exactly; any others are converted with replacement characters,
/// and the result says so.
pub fn to_text(units: &[u16]) -> (converted: Text)
    ensures
        converted.lossy == !well_formed_utf16(units@),
        converted.text@ == shown_text(units@),
{
    match string_from_utf16(units) {
        Ok(text) => Text { text, lossy: false },
        Err(_) => Text { text: string_from_utf16_lossy(units), lossy: true },
    }
}

} // verus!
