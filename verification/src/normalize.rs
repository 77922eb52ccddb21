//! Normalization of the recovery indicator `v`.
//!
//! A signature's `v` value arrives in one of several historical encodings:
//! the raw recovery bit (0 or 1), the legacy "Electrum" offset (27 or 28),
//! or a replay-protected form `v = chain_id * 2 + 35 + bit` (any value of at
//! least 35). Normalization maps each of these to the 1-bit recovery id; any
//! other value maps to the sentinel `INVALID_RECOVERY_SENTINEL`, which lies
//! outside the valid range so that downstream recovery fails cleanly.

use vstd::prelude::*;

verus! {

/// The value returned for a `v` that fits no recognized encoding.
pub const INVALID_RECOVERY_SENTINEL: u8 = 4;

/// The canonical recovery id of a `v` value: 0 or 1 for the recognized
/// encodings, the sentinel 4 for everything else.
pub open spec fn spec_normalize(v: u64) -> u8 {
    if v == 0 {
        0
    } else if v == 1 {
        1
    } else if v == 27 {
        0
    } else if v == 28 {
        1
    } else if v >= 35 {
        (((v - 1) % 2)) as u8
    } else {
        4
    }
}

/// Maps an arbitrary `v` value to its canonical 1-bit recovery id, or to the
/// sentinel 4 when `v` fits no recognized encoding. Total: never fails.
pub fn normalize_recovery_id(v: u64) -> (r: u8)
    ensures
        r == spec_normalize(v),
        r == 0 || r == 1 || r == INVALID_RECOVERY_SENTINEL,
{
    if v == 0 {
        0
    } else if v == 1 {
        1
    } else if v == 27 {
        0
    } else if v == 28 {
        1
    } else if v >= 35 {
        ((v - 1) % 2) as u8
    } else {
        INVALID_RECOVERY_SENTINEL
    }
}

} // verus!
