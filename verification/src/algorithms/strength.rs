//! How strongly Roll and Vary act, in the integer form the algorithms read.

use vstd::prelude::*;

verus! {

/// The quantities the algorithms derive from a strength `s` in `[0, 1]`:
/// the micro-timing offset `(r / 100) * s` for each draw `r` in `-50..=50`
/// (as `f32` bits, entry `r + 50`), and the percent thresholds below which a
/// draw in `0..=100` toggles a step (`s * 30`) or re-zones it (`s * 40`).
pub struct Strength {
    pub offset_bits: Vec<u32>,
    pub toggle_threshold: i32,
    pub zone_threshold: i32,
}

impl Strength {
    pub open spec fn wf(&self) -> bool {
        self.offset_bits@.len() == 101
    }

    /// The offset bits for a draw `r` in `-50..=50`.
    pub open spec fn offset_for(&self, r: int) -> u32 {
        self.offset_bits@[r + 50]
    }
}

} // verus!
