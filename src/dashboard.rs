use vstd::prelude::*;
use crate::band::spec_label;
use crate::table::{record_band, ProtocolRecord, RecordView};

verus! {

/// Number of segments in a progress bar; a full bar is a score of 10.
pub const BAR_WIDTH: usize = 10;

/// Width the protocol name is padded to.
pub const NAME_WIDTH: usize = 8;

/// The shared cancellation flag: it starts running and can only be stopped.
#[derive(Clone, Copy, Debug, PartialEq, Eq, Structural)]
pub struct RunState {
    running: bool,
}

impl RunState {
    pub fn new() -> (r: RunState)
        ensures
            r.is_running_spec(),
    {
        RunState { running: true }
    }

    pub closed spec fn is_running_spec(&self) -> bool {
        self.running
    }

    #[verifier::when_used_as_spec(is_running_spec)]
    pub fn is_running(&self) -> (r: bool)
        ensures
            r == self.is_running_spec(),
    {
        self.running
    }

    /// Signals cancellation; there is no way back to running.
    pub fn stop(&mut self)
        ensures
            !final(self).is_running_spec(),
    {
        self.running = false;
    }
}

/// A keystroke as the dashboard sees it.
#[derive(Clone, Copy, Debug, PartialEq, Eq, Structural)]
pub enum Key {
    Char(char),
    Esc,
    Other,
}

/// What the render loop does after a poll.
#[derive(Clone, Copy, Debug, PartialEq, Eq, Structural)]
pub enum DashAction {
    Redraw,
    Quit,
}

pub open spec fn spec_is_cancel(k: Key) -> bool {
    k == Key::Char('q') || k == Key::Esc
}

/// The quit key `q` and the escape key cancel; every other key is ignored.
pub fn is_cancel_key(k: Key) -> (r: bool)
    ensures
        r == spec_is_cancel(k),
{
    match k {
        Key::Char(c) => c == 'q',
        Key::Esc => true,
        Key::Other => false,
    }
}

/// What one poll of the render loop decides, given the flag before the poll
/// and the key read during it, if any.
pub open spec fn spec_poll(running: bool, key: Option<Key>) -> DashAction {
    if key.is_some() && spec_is_cancel(key.unwrap()) {
        DashAction::Quit
    } else if !running {
        DashAction::Quit
    } else {
        DashAction::Redraw
    }
}

/// The decision at the top of each render cycle. A cancel key stops `run`;
/// a flag already stopped ends the loop too.
pub fn dashboard_poll(run: &mut RunState, key: Option<Key>) -> (a: DashAction)
    ensures
        a == spec_poll(old(run).is_running_spec(), key),
        key.is_some() && spec_is_cancel(key.unwrap()) ==> !final(run).is_running_spec(),
        !(key.is_some() && spec_is_cancel(key.unwrap())) ==> *final(run) == *old(run),
{
    let cancel = match key {
        Some(k) => is_cancel_key(k),
        None => false,
    };
    if cancel {
        run.stop();
        DashAction::Quit
    } else if !run.is_running() {
        DashAction::Quit
    } else {
        DashAction::Redraw
    }
}

/// Filled segments shown for a score: the score itself, capped at the bar width.
pub open spec fn filled_segments(score: u8) -> int {
    if score as int <= BAR_WIDTH as int {
        score as int
    } else {
        BAR_WIDTH as int
    }
}

pub open spec fn spec_bar(score: u8) -> Seq<char> {
    Seq::new(BAR_WIDTH as nat, |i: int| if i < filled_segments(score) { '█' } else { '░' })
}

/// A bar of ten segments, `score` of them filled.
pub fn create_progress_bar(score: u8) -> (r: String)
    ensures
        r@ == spec_bar(score),
{
    let filled: usize = if score as usize <= BAR_WIDTH {
        score as usize
    } else {
        BAR_WIDTH
    };
    let mut bar = String::new();
    let mut i: usize = 0;
    while i < BAR_WIDTH
        invariant
            i <= BAR_WIDTH,
            filled == filled_segments(score),
            bar@ == spec_bar(score).take(i as int),
        decreases BAR_WIDTH - i,
    {
        proof {
            reveal_strlit("█");
            reveal_strlit("░");
        }
        if i < filled {
            bar.append("█");
        } else {
            bar.append("░");
        }
        assert(bar@ =~= spec_bar(score).take(i + 1));
        i = i + 1;
    }
    assert(spec_bar(score).take(BAR_WIDTH as int) =~= spec_bar(score));
    bar
}

/// A name left-aligned in a field of eight characters; longer names stay whole.
pub open spec fn spec_pad(name: Seq<char>) -> Seq<char> {
    if name.len() >= NAME_WIDTH {
        name
    } else {
        name + Seq::new((NAME_WIDTH - name.len()) as nat, |i: int| ' ')
    }
}

/// The dashboard line of one row: name, bar and band label.
pub open spec fn spec_line(r: RecordView) -> Seq<char> {
    "["@ + spec_pad(r.name) + "] "@ + spec_bar(r.score) + " "@ + spec_label(record_band(r))
}

pub open spec fn spec_title() -> Seq<char> {
    "HAM - Network Protocol Scanner"@
}

pub open spec fn spec_hint() -> Seq<char> {
    "Press 'q' to quit"@
}

fn pad_name(name: &str) -> (r: String)
    ensures
        r@ == spec_pad(name@),
{
    let n = name.unicode_len();
    let mut out = String::from_str(name);
    if n < NAME_WIDTH {
        let mut k: usize = n;
        while k < NAME_WIDTH
            invariant
                n == name@.len(),
                n <= k <= NAME_WIDTH,
                out@ == name@ + Seq::new((k - n) as nat, |i: int| ' '),
            decreases NAME_WIDTH - k,
        {
            proof {
                reveal_strlit(" ");
            }
            out.append(" ");
            assert(out@ =~= name@ + Seq::new((k + 1 - n) as nat, |i: int| ' '));
            k = k + 1;
        }
    }
    out
}

/// Renders one row of the table.
pub fn render_line(rec: &ProtocolRecord) -> (r: String)
    ensures
        r@ == spec_line(rec@),
{
    let mut line = String::from_str("[");
    let padded = pad_name(rec.name.as_str());
    line.append(padded.as_str());
    line.append("] ");
    let bar = create_progress_bar(rec.score);
    line.append(bar.as_str());
    line.append(" ");
    let status = rec.status();
    line.append(status.as_str());
    line
}

/// One frame: the two header lines, then one line per row in table order.
pub fn render_frame(rows: &Vec<ProtocolRecord>) -> (r: Vec<String>)
    ensures
        r@.len() == rows@.len() + 2,
        r@[0]@ == spec_title(),
        r@[1]@ == spec_hint(),
        forall|i: int| 0 <= i < rows@.len() ==> (#[trigger] r@[i + 2])@ == spec_line(rows@[i]@),
{
    let mut lines: Vec<String> = Vec::new();
    lines.push(String::from_str("HAM - Network Protocol Scanner"));
    lines.push(String::from_str("Press 'q' to quit"));
    let mut i: usize = 0;
    while i < rows.len()
        invariant
            i <= rows@.len(),
            lines@.len() == i + 2,
            lines@[0]@ == spec_title(),
            lines@[1]@ == spec_hint(),
            forall|j: int| 0 <= j < i ==> (#[trigger] lines@[j + 2])@ == spec_line(rows@[j]@),
        decreases rows.len() - i,
    {
        lines.push(render_line(&rows[i]));
        i = i + 1;
    }
    lines
}

} // verus!
