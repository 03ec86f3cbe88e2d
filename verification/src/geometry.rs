//! Border widths, colour pairs and the integer arithmetic of window placement.

use vstd::prelude::*;

verus! {

/// Width of a window's left border.
pub const LEFT_BW: i32 = 1;

/// Width of a window's right border.
pub const RIGHT_BW: i32 = 1;

/// Height of a window's top border.
pub const TOP_BW: i32 = 1;

/// Height of a window's bottom border.
pub const BOT_BW: i32 = 1;

pub const FOCUS_COLOR: i16 = 1;

pub const NO_FOCUS_COLOR: i16 = 2;

pub const TITLE_COLOR: i16 = 3;

pub const UNKNOWN_COLOR: i16 = 4;

pub const IN_PLACE_COLOR: i16 = 5;

pub const NOT_IN_PLACE_COLOR: i16 = 6;

pub const NOT_IN_WORD_COLOR: i16 = 7;

pub const NORM_COLOR: i16 = 8;

pub const ERR_COLOR: i16 = 9;

pub const HELP_COLOR: i16 = 10;

pub const YESNO_SEL_COLOR: i16 = 11;

pub const YESNO_NSEL_COLOR: i16 = 12;

pub const DEBUG_COLOR: i16 = 13;

/// Quotient rounded toward zero, for a positive divisor.
pub open spec fn quot(a: int, b: int) -> int {
    if a >= 0 {
        a / b
    } else {
        -((-a) / b)
    }
}

/// Whether `v` is a value of `i32`.
pub open spec fn fits_i32(v: int) -> bool {
    i32::MIN <= v <= i32::MAX
}

/// Narrows `v`, or tells that it does not fit.
pub fn narrow(v: i64) -> (r: Option<i32>)
    ensures
        r is Some <==> fits_i32(v as int),
        r is Some ==> r->0 == v,
{
    if -2147483648 <= v && v <= 2147483647 {
        Some(v as i32)
    } else {
        None
    }
}

/// Half of `a`, rounded toward zero.
pub fn halve(a: i64) -> (r: i64)
    ensures
        r == quot(a as int, 2),
{
    a / 2
}

} // verus!
