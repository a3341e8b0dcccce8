use vstd::prelude::*;
use crate::clamp_score;
use crate::dashboard::{spec_poll, DashAction, Key};
use crate::table::{updated_rows, StatusTable};

verus! {

/// Where the background prober stands in its loop.
#[derive(Clone, Copy, Debug, PartialEq, Eq, Structural)]
pub enum ProberPhase {
    /// About to read the run flag.
    AtTop,
    /// Waiting for the result of the probe at this catalog position.
    Probing(usize),
    /// Between two cycles.
    Sleeping,
    /// Saw the flag stopped; the loop is over.
    Exited,
}

/// What the prober's driver does next.
#[derive(Clone, Copy, Debug, PartialEq, Eq, Structural)]
pub enum ProberAction {
    /// Run the probe at this catalog position and report its score.
    RunProbe(usize),
    /// Sleep the inter-cycle interval, then report waking.
    Sleep,
    /// Leave the loop.
    Exit,
}

/// The decision at the top of the loop, for a catalog of `n` probes.
pub open spec fn spec_check(running: bool, n: nat) -> (ProberPhase, ProberAction) {
    if !running {
        (ProberPhase::Exited, ProberAction::Exit)
    } else if n == 0 {
        (ProberPhase::Sleeping, ProberAction::Sleep)
    } else {
        (ProberPhase::Probing(0), ProberAction::RunProbe(0))
    }
}

/// The step after the probe at position `i` of `n` has reported.
pub open spec fn spec_after_probe(i: nat, n: nat) -> (ProberPhase, ProberAction) {
    if i + 1 < n {
        (ProberPhase::Probing((i + 1) as usize), ProberAction::RunProbe((i + 1) as usize))
    } else {
        (ProberPhase::Sleeping, ProberAction::Sleep)
    }
}

/// The decisions of the background prober: it runs the catalog in order, writes
/// each result into the table, sleeps, and leaves once the run flag is stopped.
pub struct Prober {
    names: Vec<String>,
    details: Vec<String>,
    phase: ProberPhase,
}

impl Prober {
    pub closed spec fn names_spec(&self) -> Seq<Seq<char>> {
        self.names@.map_values(|s: String| s@)
    }

    pub closed spec fn details_spec(&self) -> Seq<Seq<char>> {
        self.details@.map_values(|s: String| s@)
    }

    pub closed spec fn phase_spec(&self) -> ProberPhase {
        self.phase
    }

    /// The catalog pairs each name with a detail, and a probe in flight is in it.
    pub closed spec fn wf(&self) -> bool {
        &&& self.names@.len() == self.details@.len()
        &&& match self.phase {
            ProberPhase::Probing(i) => i < self.names@.len(),
            _ => true,
        }
    }

    /// A prober for the catalog `names`/`details`, at the top of its loop.
    pub fn new(names: Vec<String>, details: Vec<String>) -> (p: Prober)
        requires
            names.len() == details.len(),
        ensures
            p.wf(),
            p.phase_spec() == ProberPhase::AtTop,
            p.names_spec() == names@.map_values(|s: String| s@),
            p.details_spec() == details@.map_values(|s: String| s@),
    {
        Prober { names, details, phase: ProberPhase::AtTop }
    }

    pub fn phase(&self) -> (r: ProberPhase)
        ensures
            r == self.phase_spec(),
    {
        self.phase
    }

    pub fn catalog_len(&self) -> (n: usize)
        requires
            self.wf(),
        ensures
            n == self.names_spec().len(),
            n == self.details_spec().len(),
    {
        self.names.len()
    }

    /// Reads the run flag at the top of the loop: stop when it is down, otherwise
    /// start a cycle with the first probe (or sleep when the catalog is empty).
    pub fn check_run(&mut self, running: bool) -> (a: ProberAction)
        requires
            old(self).wf(),
            old(self).phase_spec() == ProberPhase::AtTop,
        ensures
            final(self).wf(),
            final(self).names_spec() == old(self).names_spec(),
            final(self).details_spec() == old(self).details_spec(),
            (final(self).phase_spec(), a) == spec_check(running, old(self).names_spec().len()),
    {
        if !running {
            self.phase = ProberPhase::Exited;
            ProberAction::Exit
        } else if self.names.len() == 0 {
            self.phase = ProberPhase::Sleeping;
            ProberAction::Sleep
        } else {
            self.phase = ProberPhase::Probing(0);
            ProberAction::RunProbe(0)
        }
    }

    /// Records the raw score of the probe in flight: the score, capped at 10,
    /// and the probe's detail go into its row; then the next probe runs, or the
    /// cycle ends in a sleep.
    pub fn probe_done(&mut self, table: &mut StatusTable, raw_score: u8) -> (a: ProberAction)
        requires
            old(self).wf(),
            old(self).phase_spec() is Probing,
        ensures
            final(self).wf(),
            final(self).names_spec() == old(self).names_spec(),
            final(self).details_spec() == old(self).details_spec(),
            ({
                let i = old(self).phase_spec()->Probing_0;
                &&& final(table)@ == updated_rows(
                    old(table)@,
                    old(self).names_spec()[i as int],
                    if raw_score <= 10 { raw_score } else { 10 },
                    old(self).details_spec()[i as int],
                )
                &&& (final(self).phase_spec(), a) == spec_after_probe(
                    i as nat,
                    old(self).names_spec().len(),
                )
            }),
    {
        let i = match self.phase {
            ProberPhase::Probing(i) => i,
            _ => 0,
        };
        let n = self.names.len();
        let score = clamp_score(raw_score);
        table.update(self.names[i].as_str(), score, self.details[i].as_str());
        if i + 1 < n {
            self.phase = ProberPhase::Probing(i + 1);
            ProberAction::RunProbe(i + 1)
        } else {
            self.phase = ProberPhase::Sleeping;
            ProberAction::Sleep
        }
    }

    /// The inter-cycle sleep is over: back to the top of the loop.
    pub fn woke(&mut self)
        requires
            old(self).wf(),
            old(self).phase_spec() == ProberPhase::Sleeping,
        ensures
            final(self).wf(),
            final(self).names_spec() == old(self).names_spec(),
            final(self).details_spec() == old(self).details_spec(),
            final(self).phase_spec() == ProberPhase::AtTop,
    {
        self.phase = ProberPhase::AtTop;
    }
}

/// Once the run flag is down, the prober's next check at the top of its loop
/// exits, and the dashboard's next poll quits whatever key, if any, it reads.
pub proof fn lemma_stop_ends_both_loops(n: nat, key: Option<Key>)
    ensures
        spec_check(false, n) == (ProberPhase::Exited, ProberAction::Exit),
        spec_poll(false, key) == DashAction::Quit,
{
}

/// Within one cycle the probes run in catalog order, each exactly once: the
/// probe after position `i` is position `i + 1`, and the cycle ends after the last.
pub proof fn lemma_cycle_in_catalog_order(i: nat, n: nat)
    requires
        i < n,
    ensures
        i + 1 < n ==> spec_after_probe(i, n).1 == ProberAction::RunProbe((i + 1) as usize),
        i + 1 == n ==> spec_after_probe(i, n).1 == ProberAction::Sleep,
        spec_check(true, n).1 == ProberAction::RunProbe(0),
{
}

} // verus!
