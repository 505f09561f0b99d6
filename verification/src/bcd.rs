//! Splitting a two-digit decimal quantity into its tens and ones digits.
//!
//! The wire format stores every timestamp unit as such a digit pair, each
//! digit in its own bit field, so that the receiver can reconstruct a
//! human-readable timestamp by digit concatenation alone.

use vstd::prelude::*;

verus! {

/// The tens digit of `v` read as a two-digit decimal quantity.
pub open spec fn spec_tens(v: u8) -> u8 {
    (((v as int) / 10) % 10) as u8
}

/// The ones digit of `v` read as a two-digit decimal quantity.
pub open spec fn spec_ones(v: u8) -> u8 {
    ((v as int) % 10) as u8
}

/// Tens digit of a timestamp unit.
pub fn tenths_time(time: u8) -> (r: u8)
    ensures
        r == spec_tens(time),
{
    (time / 10) % 10
}

/// Ones digit of a timestamp unit.
pub fn oneths_time(time: u8) -> (r: u8)
    ensures
        r == spec_ones(time),
{
    time % 10
}

/// For every legal calendar range, the tens digit fits the bit width the
/// wire layout grants that unit: seconds and minutes (up to 59) need 3 bits,
/// hours (up to 23) need 2, day of month (up to 31) needs 2, month (up to
/// 12) needs 1, and the two-digit year remainder (up to 99) needs 4.
/// The digit pair always reconstructs the two-digit value.
pub proof fn lemma_bcd_tens_capacity(v: u8)
    ensures
        v <= 59 ==> spec_tens(v) <= 5,
        v <= 23 ==> spec_tens(v) <= 2,
        v <= 31 ==> spec_tens(v) <= 3,
        v <= 12 ==> spec_tens(v) <= 1,
        v <= 99 ==> spec_tens(v) <= 9,
        spec_ones(v) <= 9,
        v <= 99 ==> spec_tens(v) as int * 10 + spec_ones(v) as int == v as int,
{
}

} // verus!
