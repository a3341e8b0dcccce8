use vstd::prelude::*;

pub mod band;
pub mod table;
pub mod dashboard;
pub mod probe;
pub mod prober;
pub mod session;
pub mod report;

verus! {

/// The health score of a probe is at most this value.
pub const MAX_SCORE: u8 = 10;

/// Caps a raw probe score at [`MAX_SCORE`].
pub fn clamp_score(s: u8) -> (r: u8)
    ensures
        r as int == if s <= MAX_SCORE { s as int } else { MAX_SCORE as int },
{
    if s <= MAX_SCORE {
        s
    } else {
        MAX_SCORE
    }
}

} // verus!
