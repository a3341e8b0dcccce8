use vstd::prelude::*;

verus! {

/// The qualitative health class of a protocol.
#[derive(PartialEq, Eq, Structural, Clone, Copy, Debug)]
pub enum Band {
    /// Not probed yet in this session.
    Pending,
    /// Score 0 to 3.
    BlockedFailed,
    /// Score 4 to 6.
    Limited,
    /// Score 7 to 10.
    Good,
    /// A score outside 0 to 10.
    Unknown,
}

/// The visual tier a band is drawn in.
#[derive(PartialEq, Eq, Structural, Clone, Copy, Debug)]
pub enum Tier {
    Alert,
    Caution,
    Healthy,
    Neutral,
}

/// The band of a score, total over all integers.
pub open spec fn spec_band(s: int) -> Band {
    if 0 <= s <= 3 {
        Band::BlockedFailed
    } else if 4 <= s <= 6 {
        Band::Limited
    } else if 7 <= s <= 10 {
        Band::Good
    } else {
        Band::Unknown
    }
}

/// Position of a scored band in the order from worst to best.
pub open spec fn band_rank(b: Band) -> int {
    match b {
        Band::BlockedFailed => 0,
        Band::Limited => 1,
        Band::Good => 2,
        _ => 3,
    }
}

pub open spec fn spec_label(b: Band) -> Seq<char> {
    match b {
        Band::Pending => "Testing..."@,
        Band::BlockedFailed => "Blocked/Failed"@,
        Band::Limited => "Limited"@,
        Band::Good => "Good"@,
        Band::Unknown => "Unknown"@,
    }
}

pub open spec fn spec_tier(b: Band) -> Tier {
    match b {
        Band::Pending => Tier::Caution,
        Band::BlockedFailed => Tier::Alert,
        Band::Limited => Tier::Caution,
        Band::Good => Tier::Healthy,
        Band::Unknown => Tier::Neutral,
    }
}

/// Classifies a score; any value above 10 is `Unknown`.
pub fn band(score: u8) -> (b: Band)
    ensures
        b == spec_band(score as int),
{
    if score <= 3 {
        Band::BlockedFailed
    } else if score <= 6 {
        Band::Limited
    } else if score <= 10 {
        Band::Good
    } else {
        Band::Unknown
    }
}

impl Band {
    /// The text shown for the band.
    pub fn label(&self) -> (r: String)
        ensures
            r@ == spec_label(*self),
    {
        match self {
            Band::Pending => String::from_str("Testing..."),
            Band::BlockedFailed => String::from_str("Blocked/Failed"),
            Band::Limited => String::from_str("Limited"),
            Band::Good => String::from_str("Good"),
            Band::Unknown => String::from_str("Unknown"),
        }
    }

    pub fn tier(&self) -> (r: Tier)
        ensures
            r == spec_tier(*self),
    {
        match self {
            Band::Pending => Tier::Caution,
            Band::BlockedFailed => Tier::Alert,
            Band::Limited => Tier::Caution,
            Band::Good => Tier::Healthy,
            Band::Unknown => Tier::Neutral,
        }
    }
}

/// Every score from 0 to 10 falls in one of the three scored bands,
/// exactly as the ranges 0-3, 4-6 and 7-10 say.
pub proof fn lemma_band_of_valid_score(s: int)
    requires
        0 <= s <= 10,
    ensures
        spec_band(s) == Band::BlockedFailed || spec_band(s) == Band::Limited || spec_band(s)
            == Band::Good,
        spec_band(s) == Band::BlockedFailed <==> s <= 3,
        spec_band(s) == Band::Limited <==> 4 <= s <= 6,
        spec_band(s) == Band::Good <==> 7 <= s,
{
}

/// Over valid scores the band never gets worse as the score grows.
pub proof fn lemma_band_monotone(s: int, t: int)
    requires
        0 <= s <= t <= 10,
    ensures
        band_rank(spec_band(s)) <= band_rank(spec_band(t)),
{
}

} // verus!
