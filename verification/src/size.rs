//! Rendering a byte count with a decimal unit, for the size column.

use crate::text::{left_aligned, pad_left, pad_right, right_aligned};
use vstd::prelude::*;
use vstd::string::*;

verus! {

/// Digits shown after the decimal point of a size.
pub const SIZE_DECIMALS: u8 = 2;

/// Width of the number in the size column.
pub const VALUE_WIDTH: usize = 8;

/// Width of the unit in the size column.
pub const UNIT_WIDTH: usize = 2;

/// The symbol of the largest decimal unit that is not larger than `bytes`,
/// and `B` below a thousand bytes.
pub open spec fn decimal_unit(bytes: u64) -> Seq<char> {
    if bytes >= 1_000_000_000_000_000_000 {
        seq!['E', 'B']
    } else if bytes >= 1_000_000_000_000_000 {
        seq!['P', 'B']
    } else if bytes >= 1_000_000_000_000 {
        seq!['T', 'B']
    } else if bytes >= 1_000_000_000 {
        seq!['G', 'B']
    } else if bytes >= 1_000_000 {
        seq!['M', 'B']
    } else if bytes >= 1_000 {
        seq!['K', 'B']
    } else {
        seq!['B']
    }
}

/// The numeral that stands before the unit: `bytes` counted in units of
/// [`decimal_unit`], as `byte_unit` computes the quotient in floating point
/// and as `format!` writes it with `decimals` digits after the point.
pub uninterp spec fn adjusted_value(bytes: u64, decimals: u8) -> Seq<char>;

/// Has `byte_unit` pick the decimal unit for `bytes`, by
/// `Byte::get_appropriate_unit` on `Byte::from_u64(bytes)`, and returns the
/// quotient of `AdjustedByte::get_value`, written by `format!` with
/// `decimals` digits after the point, and the symbol that `Unit::as_str`
/// gives for `AdjustedByte::get_unit`.
///
/// Not verified: the arithmetic lies outside this library. Of the numeral
/// the contract claims no more than that it is [`adjusted_value`] of the
/// arguments. Of the unit it claims what `get_appropriate_unit` does for the
/// decimal units: it takes the largest of EB, PB, TB, GB, MB and KB that is
/// not larger than the byte count, and B where there is none.
#[verifier::external_body]
pub(crate) fn adjust(bytes: u64, decimals: u8) -> (parts: (String, String))
    ensures
        parts.0@ == adjusted_value(bytes, decimals),
        parts.1@ == decimal_unit(bytes),
{
    let adjusted = byte_unit::Byte::from_u64(bytes).get_appropriate_unit(
        byte_unit::UnitType::Decimal,
    );
    let value = format!("{:.*}", usize::from(decimals), adjusted.get_value());
    (value, String::from(adjusted.get_unit().as_str()))
}

/// The text of the size column for a number and a unit: the number at the
/// right of its column, a space, and the unit at the left of its column.
pub open spec fn size_text(value: Seq<char>, unit: Seq<char>) -> Seq<char> {
    right_aligned(value, VALUE_WIDTH as nat) + seq![' '] + left_aligned(unit, UNIT_WIDTH as nat)
}

/// Lays out a number and its unit for the size column.
pub fn format_size(value: &str, unit: &str) -> (label: String)
    ensures
        label@ == size_text(value@, unit@),
{
    let mut label = pad_left(value, VALUE_WIDTH);
    proof {
        reveal_strlit(" ");
    }
    label.append(" ");
    let unit_column = pad_right(unit, UNIT_WIDTH);
    label.append(unit_column.as_str());
    label
}

/// The text of the size column for a body of `bytes` bytes, such as
/// `    1.50 KB`.
pub fn size_label(bytes: u64) -> (label: String)
    ensures
        label@ == size_text(adjusted_value(bytes, SIZE_DECIMALS), decimal_unit(bytes)),
{
    let (value, unit) = adjust(bytes, SIZE_DECIMALS);
    format_size(value.as_str(), unit.as_str())
}

} // verus!
