//! The crop-window adjustment used when a detected crop is widened by a
//! fixed margin before the media tool applies it.

use vstd::prelude::*;

verus! {

/// Widens one axis of a detected crop window: the position moves back by
/// `unit` and the dimension grows by the same amount. A position already
/// at the edge stays put, and a position that would move past the edge is
/// clamped to it with the dimension left as detected.
pub fn get_crop_size(dim: i32, pos: i32, unit: i32) -> (r: (i32, i32))
    requires
        pos != 0 ==> i32::MIN <= pos - unit <= i32::MAX,
        pos != 0 && pos - unit >= 0 ==> i32::MIN <= dim + unit <= i32::MAX,
    ensures
        pos == 0 ==> r == (dim, pos),
        pos != 0 && pos - unit < 0 ==> r == (dim, 0i32),
        pos != 0 && pos - unit >= 0 ==> r.0 == dim + unit && r.1 == pos - unit,
{
    if pos == 0 {
        return (dim, pos);
    }
    let mut changed_by = unit;
    let mut new_pos = pos - changed_by;
    if new_pos < 0 {
        new_pos = 0;
        changed_by = 0;
    }
    let new_dim = dim + changed_by;
    (new_dim, new_pos)
}

} // verus!
