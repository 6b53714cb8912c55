//! The `daemon` commands: the text each generated line carries, and the numbering of the
//! lines of the endless stream.
use vstd::prelude::*;

use crate::text::{decimal, push_decimal, to_owned_string};

verus! {

/// The text of line `idx` of a finite daemon run: `sample line <idx>`.
pub fn sample_text(idx: u64) -> (r: String)
    ensures
        r@ == "sample line "@ + decimal(idx as nat),
{
    let mut r = to_owned_string("sample line ");
    push_decimal(&mut r, idx);
    r
}

/// The text of line `idx` of the served stream: `live line <idx>`.
pub fn live_text(idx: u64) -> (r: String)
    ensures
        r@ == "live line "@ + decimal(idx as nat),
{
    let mut r = to_owned_string("live line ");
    push_decimal(&mut r, idx);
    r
}

/// The number of the line after `idx`; it stays at the largest number once there.
pub fn next_line_index(idx: u64) -> (r: u64)
    ensures
        r == if idx < u64::MAX { (idx + 1) as u64 } else { u64::MAX },
{
    idx.saturating_add(1)
}

} // verus!
