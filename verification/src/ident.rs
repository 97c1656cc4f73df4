use vstd::prelude::*;
use crate::error::BridgeError;
use vstd::string::StringSliceAdditionalSpecFns;

verus! {

/// The byte of the minus sign.
pub const MINUS: u8 = 0x2d;

/// What `parse_int::parse::<u32>` makes of a text without a minus sign: the
/// number it reads, or `None` where it refuses the text.
pub uninterp spec fn parsed_handle(text: Seq<char>) -> Option<u32>;

#[verifier::external_type_specification]
#[verifier::external_body]
pub struct ExParseIntError(core::num::ParseIntError);

/// Calls `parse_int::parse::<u32>`, which trims the text, reads a prefix
/// `0x`, `0o` or `0b` as the base, drops underscores between digits and
/// hands the rest to `u32::from_str_radix`. The contract names the result
/// and says no more of it. A text with a minus sign is kept out: on such
/// a text the function negates an unsigned number.
#[verifier::external_body]
fn parse_unsigned(text: &str) -> (out: Result<u32, core::num::ParseIntError>)
    requires
        !has_minus(text.spec_bytes()),
    ensures
        out matches Ok(handle) ==> parsed_handle(text@) == Some(handle),
        out is Err ==> parsed_handle(text@) is None,
{
    parse_int::parse::<u32>(text)
}

/// Some byte of the text is a minus sign.
pub open spec fn has_minus(bytes: Seq<u8>) -> bool {
    exists|i: int| 0 <= i < bytes.len() && bytes[i] == MINUS
}

/// The handle that a window id stands for, given whether the id holds a
/// minus sign and what the parser made of it.
pub open spec fn handle_of(signed: bool, parsed: Option<u32>) -> Result<u32, BridgeError> {
    if signed {
        Err(BridgeError::Registry)
    } else {
        match parsed {
            Some(handle) => Ok(handle),
            None => Err(BridgeError::Registry),
        }
    }
}

/// Whether the text holds a minus sign.
pub fn contains_minus(text: &str) -> (out: bool)
    ensures
        out == has_minus(text.spec_bytes()),
{
    let bytes = text.as_bytes();
    let mut i: usize = 0;
    while i < bytes.len()
        invariant
            i <= bytes.len(),
            bytes@ == text.spec_bytes(),
            forall|j: int| 0 <= j < i ==> bytes@[j] != MINUS,
        decreases bytes.len() - i,
    {
        if bytes[i] == MINUS {
            return true;
        }
        i += 1;
    }
    false
}

/// Turns what the parser made of a window id into the window's handle. An
/// id that is no unsigned number is a malformed answer of the compositor.
pub fn handle_from_parse(signed: bool, parsed: Option<u32>) -> (out: Result<u32, BridgeError>)
    ensures
        out == handle_of(signed, parsed),
{
    if signed {
        Err(BridgeError::Registry)
    } else {
        match parsed {
            Some(handle) => Ok(handle),
            None => Err(BridgeError::Registry),
        }
    }
}

/// Reads the display server's handle of a window from the id under which
/// the compositor lists it.
pub fn window_handle(text: &str) -> (out: Result<u32, BridgeError>)
    ensures
        out == handle_of(has_minus(text.spec_bytes()), parsed_handle(text@)),
{
    if contains_minus(text) {
        handle_from_parse(true, None)
    } else {
        let parsed = match parse_unsigned(text) {
            Ok(handle) => Some(handle),
            Err(_) => None,
        };
        handle_from_parse(false, parsed)
    }
}

} // verus!
