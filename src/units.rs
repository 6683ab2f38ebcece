//! Length conversion between millimetres and the PDF's native unit.
//!
//! Lengths enter the library in micrometres (thousandths of a millimetre) and
//! are kept in millipoints (thousandths of a point, a point being 1/72 inch).
//! One inch is 25.4 mm, so 1 µm is 72000 / 25400 = 360 / 127 millipoints.

use vstd::prelude::*;

verus! {

/// Millipoints for a length in micrometres, rounded to the nearest millipoint.
pub open spec fn um_to_mpt(um: int) -> int {
    (um * 360 + 63) / 127
}

/// Whole points for a length in millipoints, rounded to the nearest point.
pub open spec fn mpt_to_pt(mpt: int) -> int {
    mpt / 1000 + if mpt % 1000 >= 500 { 1int } else { 0int }
}

/// Converts a length in micrometres to millipoints.
pub fn mm_to_pt(um: u32) -> (r: u64)
    ensures
        r as int == um_to_mpt(um as int),
{
    (um as u64 * 360 + 63) / 127
}

/// Rounds a length in millipoints to whole points.
pub fn to_whole_points(mpt: u64) -> (r: i64)
    ensures
        r as int == mpt_to_pt(mpt as int),
{
    let q: u64 = mpt / 1000 + (if mpt % 1000 >= 500 { 1 } else { 0 });
    q as i64
}

} // verus!
