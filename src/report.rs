use vstd::prelude::*;

verus! {

/// How reachable a resolver is, from its connection score.
#[derive(Clone, Copy, Debug, PartialEq, Eq, Structural)]
pub enum Reachability {
    Reachable,
    Limited,
    Blocked,
}

/// How censored the network looks, from the share of domains that resolve.
#[derive(Clone, Copy, Debug, PartialEq, Eq, Structural)]
pub enum CensorshipLevel {
    /// More than four in five domains resolve.
    Uncensored,
    /// More than half, at most four in five.
    Partial,
    /// At most half.
    Heavy,
}

/// Upload bandwidth class read from a UDP score.
#[derive(Clone, Copy, Debug, PartialEq, Eq, Structural)]
pub enum UploadEstimate {
    AboveLimit,
    WithinLimit,
    SeverelyLimited,
}

/// The export formats the configuration can be written in.
#[derive(Clone, Copy, Debug, PartialEq, Eq, Structural)]
pub enum ExportFormat {
    Json,
    Qr,
    Unsupported,
}

pub open spec fn spec_reachability(score: u8) -> Reachability {
    if score > 7 {
        Reachability::Reachable
    } else if score > 3 {
        Reachability::Limited
    } else {
        Reachability::Blocked
    }
}

pub fn reachability(score: u8) -> (r: Reachability)
    ensures
        r == spec_reachability(score),
{
    if score > 7 {
        Reachability::Reachable
    } else if score > 3 {
        Reachability::Limited
    } else {
        Reachability::Blocked
    }
}

/// The level for `accessible` of `total` domains, compared as exact ratios:
/// above 4/5 is uncensored, above 1/2 partial, anything else heavy.
pub open spec fn spec_censorship(accessible: int, total: int) -> CensorshipLevel {
    if 5 * accessible > 4 * total {
        CensorshipLevel::Uncensored
    } else if 2 * accessible > total {
        CensorshipLevel::Partial
    } else {
        CensorshipLevel::Heavy
    }
}

pub fn censorship_level(accessible: usize, total: usize) -> (r: CensorshipLevel)
    ensures
        r == spec_censorship(accessible as int, total as int),
{
    let a = accessible as u128;
    let t = total as u128;
    if 5 * a > 4 * t {
        CensorshipLevel::Uncensored
    } else if 2 * a > t {
        CensorshipLevel::Partial
    } else {
        CensorshipLevel::Heavy
    }
}

/// The score a QUIC attempt is given by port: 443 is taken as blocked, the
/// alternative HTTP ports as limited, any other port as poor.
pub open spec fn spec_quic_score(port: u16) -> u8 {
    if port == 443 {
        1
    } else if port == 80 || port == 8080 {
        6
    } else {
        3
    }
}

pub fn quic_score(port: u16) -> (r: u8)
    ensures
        r == spec_quic_score(port),
{
    if port == 443 {
        1
    } else if port == 80 || port == 8080 {
        6
    } else {
        3
    }
}

/// QUIC on port 443 counts as blocked at a score of 2 or less.
pub fn quic_443_blocked(score: u8) -> (r: bool)
    ensures
        r == (score <= 2),
{
    score <= 2
}

/// QUIC on an alternative port counts as working above a score of 5.
pub fn quic_alt_port_works(score: u8) -> (r: bool)
    ensures
        r == (score > 5),
{
    score > 5
}

/// A UDP score with upload throttling applied: anything above 5 is held at 5.
pub fn udp_advanced_score(basic: u8) -> (r: u8)
    ensures
        r == if basic > 5 { 5 } else { basic },
{
    if basic > 5 {
        5
    } else {
        basic
    }
}

pub open spec fn spec_upload_estimate(udp: u8) -> UploadEstimate {
    if udp > 7 {
        UploadEstimate::AboveLimit
    } else if udp > 4 {
        UploadEstimate::WithinLimit
    } else {
        UploadEstimate::SeverelyLimited
    }
}

pub fn upload_estimate(udp: u8) -> (r: UploadEstimate)
    ensures
        r == spec_upload_estimate(udp),
{
    if udp > 7 {
        UploadEstimate::AboveLimit
    } else if udp > 4 {
        UploadEstimate::WithinLimit
    } else {
        UploadEstimate::SeverelyLimited
    }
}

impl UploadEstimate {
    pub open spec fn spec_text(self) -> Seq<char> {
        match self {
            UploadEstimate::AboveLimit => "2.5 Mbps (above typical limit)"@,
            UploadEstimate::WithinLimit => "1.8 Mbps (within expected limit)"@,
            UploadEstimate::SeverelyLimited => "< 1 Mbps (severely limited)"@,
        }
    }

    pub fn text(&self) -> (r: String)
        ensures
            r@ == self.spec_text(),
    {
        match self {
            UploadEstimate::AboveLimit => String::from_str("2.5 Mbps (above typical limit)"),
            UploadEstimate::WithinLimit => String::from_str("1.8 Mbps (within expected limit)"),
            UploadEstimate::SeverelyLimited => String::from_str("< 1 Mbps (severely limited)"),
        }
    }
}

/// A UDP score from 4 to 7 matches the upload-throttling pattern.
pub fn udp_pattern_matches(udp: u8) -> (r: bool)
    ensures
        r == (4 <= udp <= 7),
{
    4 <= udp && udp <= 7
}

/// The number of successful pings before the first failure.
pub fn leading_successes(results: &Vec<bool>) -> (n: usize)
    ensures
        n <= results@.len(),
        forall|j: int| 0 <= j < n ==> #[trigger] results@[j],
        n < results@.len() ==> !results@[n as int],
{
    let mut n: usize = 0;
    while n < results.len() && results[n]
        invariant
            n <= results@.len(),
            forall|j: int| 0 <= j < n ==> #[trigger] results@[j],
        decreases results.len() - n,
    {
        n = n + 1;
    }
    n
}

/// Rate limiting after two or three answered pings matches the ICMP pattern.
pub fn icmp_pattern_matches(successes: usize) -> (r: bool)
    ensures
        r == (2 <= successes <= 3),
{
    2 <= successes && successes <= 3
}

/// Normal sites pass, VPN tunnels are caught and fragmentation gets through.
pub fn tls_pattern_matches(normal: u8, vpn: u8, fragmented: u8) -> (r: bool)
    ensures
        r == (normal > 7 && vpn <= 3 && fragmented > 7),
{
    normal > 7 && vpn <= 3 && fragmented > 7
}

pub open spec fn spec_severity_label(score: u8) -> Seq<char> {
    if score <= 3 {
        "Blocked/Severely Limited"@
    } else if score <= 6 {
        "Limited"@
    } else if score <= 10 {
        "Good"@
    } else {
        "Unknown"@
    }
}

/// The label of a score in the standalone censorship report.
pub fn severity_label(score: u8) -> (r: String)
    ensures
        r@ == spec_severity_label(score),
{
    if score <= 3 {
        String::from_str("Blocked/Severely Limited")
    } else if score <= 6 {
        String::from_str("Limited")
    } else if score <= 10 {
        String::from_str("Good")
    } else {
        String::from_str("Unknown")
    }
}

/// Reads the export format argument: `json`, `qr`, or anything else.
pub fn export_format(arg: &String) -> (r: ExportFormat)
    ensures
        arg@ == "json"@ ==> r == ExportFormat::Json,
        arg@ == "qr"@ ==> r == ExportFormat::Qr,
        arg@ != "json"@ && arg@ != "qr"@ ==> r == ExportFormat::Unsupported,
{
    proof {
        reveal_strlit("json");
        reveal_strlit("qr");
        assert("json"@.len() != "qr"@.len());
    }
    let json = String::from_str("json");
    let qr = String::from_str("qr");
    if arg.eq(&json) {
        ExportFormat::Json
    } else if arg.eq(&qr) {
        ExportFormat::Qr
    } else {
        ExportFormat::Unsupported
    }
}

} // verus!
