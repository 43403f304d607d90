//! The trial orchestrator.
//!
//! For each candidate in catalog order the orchestrator sequences one trial:
//! launch the candidate, wait for the expected process to appear, probe the
//! target, record the result, clean up. A preflight probe against the bare
//! target can short-circuit the whole run. The run stops at the first
//! candidate whose probe succeeds; every candidate failure is recorded, never
//! raised.
//!
//! The decisions are verified here over plain values; the surrounding driver
//! performs the actual launching, waiting, probing and killing, and feeds
//! what it observed back in as a [`TrialBehavior`].

use vstd::prelude::*;

use crate::probe::ProbeOutcome;

verus! {

/// One candidate configuration script, in catalog order.
#[derive(Debug, Clone)]
pub struct Candidate {
    /// Display name of the script.
    pub name: String,
    /// Filesystem path handed to the launcher.
    pub path: String,
}

/// What the environment did during one candidate's trial: whether the launch
/// succeeded, whether the expected process appeared within the wait budget,
/// and what the probe returned. `probe` is only meaningful when the launch
/// succeeded and the process appeared, since no probe runs otherwise.
#[derive(Debug, Clone, Copy)]
pub struct TrialBehavior {
    pub launch_ok: bool,
    pub process_appeared: bool,
    pub probe: ProbeOutcome,
}

/// Verdict for a single trial.
#[derive(Debug, PartialEq, Eq, Structural, Clone, Copy)]
pub enum TrialVerdict {
    /// The candidate's probe succeeded: this configuration works.
    Pass,
    /// The candidate could not be launched; skipped.
    SkipLaunchFailed,
    /// The expected process never appeared within the wait budget.
    FailProcessMissing,
    /// The probe came back with the carried non-success outcome.
    FailProbe(ProbeOutcome),
}

/// Per-candidate result, immutable once appended to the run summary.
#[derive(Debug, Clone, Copy)]
pub struct TrialRecord {
    /// Position of the candidate in the catalog.
    pub candidate_index: usize,
    pub launch_ok: bool,
    pub process_appeared: bool,
    /// The probe outcome, when a probe was reached.
    pub probe: Option<ProbeOutcome>,
    pub verdict: TrialVerdict,
}

/// The verdict a trial earns from the observed behavior: launch failure is a
/// skip, a missing process is a failure, and a probe decides the rest.
pub open spec fn verdict_of(b: TrialBehavior) -> TrialVerdict {
    if !b.launch_ok {
        TrialVerdict::SkipLaunchFailed
    } else if !b.process_appeared {
        TrialVerdict::FailProcessMissing
    } else if b.probe == ProbeOutcome::Success {
        TrialVerdict::Pass
    } else {
        TrialVerdict::FailProbe(b.probe)
    }
}

/// A trial on this behavior passes.
pub open spec fn passes(b: TrialBehavior) -> bool {
    verdict_of(b) == TrialVerdict::Pass
}

/// The record written for candidate `i` behaving as `b`.
pub open spec fn record_of(i: int, b: TrialBehavior) -> TrialRecord {
    TrialRecord {
        candidate_index: i as usize,
        launch_ok: b.launch_ok,
        process_appeared: b.process_appeared,
        probe: if b.launch_ok && b.process_appeared {
            Some(b.probe)
        } else {
            None
        },
        verdict: verdict_of(b),
    }
}

/// Decides one trial from the observed behavior.
pub fn decide_trial(b: &TrialBehavior) -> (r: TrialVerdict)
    ensures
        r == verdict_of(*b),
{
    if !b.launch_ok {
        TrialVerdict::SkipLaunchFailed
    } else if !b.process_appeared {
        TrialVerdict::FailProcessMissing
    } else if b.probe.is_success() {
        TrialVerdict::Pass
    } else {
        TrialVerdict::FailProbe(b.probe)
    }
}

/// What the preflight probe against the bare target decides for the run.
#[derive(Debug, PartialEq, Eq, Structural, Clone, Copy)]
pub enum PreflightDecision {
    /// The target is directly reachable: no configuration is needed.
    NoConfigNeeded,
    /// The network itself is unreachable: trying candidates is pointless.
    NetworkUnavailable,
    /// Neither: trial the candidates.
    Proceed,
}

/// Decision taken from the preflight probe outcome.
pub open spec fn preflight_of(o: ProbeOutcome) -> PreflightDecision {
    if o == ProbeOutcome::Success {
        PreflightDecision::NoConfigNeeded
    } else if o == ProbeOutcome::NoConnection {
        PreflightDecision::NetworkUnavailable
    } else {
        PreflightDecision::Proceed
    }
}

/// Decides from the preflight probe whether the run can be short-circuited.
pub fn preflight_decision(o: &ProbeOutcome) -> (r: PreflightDecision)
    ensures
        r == preflight_of(*o),
{
    match o {
        ProbeOutcome::Success => PreflightDecision::NoConfigNeeded,
        ProbeOutcome::NoConnection => PreflightDecision::NetworkUnavailable,
        _ => PreflightDecision::Proceed,
    }
}

/// Overall verdict of a run.
#[derive(Debug, PartialEq, Eq, Structural, Clone, Copy)]
pub enum RunVerdict {
    /// Preflight: the target was directly reachable.
    NoConfigNeeded,
    /// Preflight: the network itself was unreachable.
    NetworkUnavailable,
    /// The candidate at the carried catalog index worked.
    Solved(usize),
    /// Every candidate was tried and none worked.
    Exhausted,
}

/// Ordered trial records plus the overall verdict of one run.
#[derive(Debug, Clone)]
pub struct RunSummary {
    pub records: Vec<TrialRecord>,
    pub verdict: RunVerdict,
}

/// Index of the first behavior at or after `i` whose trial passes.
pub open spec fn first_pass_from(bs: Seq<TrialBehavior>, i: int) -> Option<int>
    decreases bs.len() - i,
{
    if i < 0 || i >= bs.len() {
        None
    } else if passes(bs[i]) {
        Some(i)
    } else {
        first_pass_from(bs, i + 1)
    }
}

/// How many trials a run over `bs` performs: up to and including the first
/// pass, or all of them when none passes.
pub open spec fn trials_run(bs: Seq<TrialBehavior>) -> int {
    match first_pass_from(bs, 0) {
        Some(i) => i + 1,
        None => bs.len() as int,
    }
}

/// The orchestrator performs at most as many trials as there are candidates,
/// and when some candidate passes, it stops exactly at the first one: no
/// trial after the first pass is counted.
pub proof fn lemma_stops_at_first_pass(bs: Seq<TrialBehavior>)
    ensures
        0 <= trials_run(bs) <= bs.len(),
        match first_pass_from(bs, 0) {
            Some(i) => {
                &&& trials_run(bs) == i + 1
                &&& 0 <= i < bs.len()
                &&& passes(bs[i])
                &&& forall|k: int| 0 <= k < i ==> !passes(bs[k])
            },
            None => forall|k: int| 0 <= k < bs.len() ==> !passes(bs[k]),
        },
{
    lemma_first_pass_characterizes(bs, 0);
}

/// `first_pass_from` finds a passing index exactly when one exists at or
/// after `i`, and the one it finds is the earliest.
pub proof fn lemma_first_pass_characterizes(bs: Seq<TrialBehavior>, i: int)
    requires
        0 <= i,
    ensures
        match first_pass_from(bs, i) {
            Some(p) => {
                &&& i <= p < bs.len()
                &&& passes(bs[p])
                &&& forall|k: int| i <= k < p ==> !passes(bs[k])
            },
            None => forall|k: int| i <= k < bs.len() ==> !passes(bs[k]),
        },
    decreases bs.len() - i,
{
    if i < bs.len() && !passes(bs[i]) {
        lemma_first_pass_characterizes(bs, i + 1);
    }
}

/// The run's mutable state: how many candidates there are, what has been
/// recorded so far, and whether a final verdict has been reached.
pub struct TrialOrchestrator {
    /// Number of candidates in the catalog.
    pub total: usize,
    /// Records of the trials performed so far, in catalog order.
    pub records: Vec<TrialRecord>,
    /// The final verdict, once one is known.
    pub verdict: Option<RunVerdict>,
    /// Whether the preflight decision has been applied.
    pub preflight_done: bool,
}

impl TrialOrchestrator {
    /// A fresh run over a catalog of `total` candidates.
    pub fn new(total: usize) -> (s: Self)
        ensures
            s.total == total,
            s.records@ =~= Seq::<TrialRecord>::empty(),
            s.verdict is None,
            !s.preflight_done,
    {
        TrialOrchestrator { total, records: Vec::new(), verdict: None, preflight_done: false }
    }

    /// Applies the preflight probe: a reachable target or an unreachable
    /// network ends the run before any trial; anything else proceeds.
    pub fn apply_preflight(&mut self, o: &ProbeOutcome)
        requires
            !old(self).preflight_done,
            old(self).verdict is None,
            old(self).records@.len() == 0,
        ensures
            final(self).total == old(self).total,
            final(self).records@ == old(self).records@,
            final(self).preflight_done,
            final(self).verdict == match preflight_of(*o) {
                PreflightDecision::NoConfigNeeded => Some(RunVerdict::NoConfigNeeded),
                PreflightDecision::NetworkUnavailable => Some(RunVerdict::NetworkUnavailable),
                PreflightDecision::Proceed => None::<RunVerdict>,
            },
    {
        self.preflight_done = true;
        match preflight_decision(o) {
            PreflightDecision::NoConfigNeeded => {
                self.verdict = Some(RunVerdict::NoConfigNeeded);
            },
            PreflightDecision::NetworkUnavailable => {
                self.verdict = Some(RunVerdict::NetworkUnavailable);
            },
            PreflightDecision::Proceed => {},
        }
    }

    /// The catalog index to trial next, or `None` when the run is over.
    pub fn next_index(&self) -> (r: Option<usize>)
        ensures
            r == if self.verdict is None && self.records@.len() < self.total {
                Some(self.records@.len() as usize)
            } else {
                None::<usize>
            },
    {
        if self.verdict.is_none() && self.records.len() < self.total {
            Some(self.records.len())
        } else {
            None
        }
    }

    /// Records one trial. A pass settles the run verdict; any failure leaves
    /// the run open for the next candidate.
    pub fn record_trial(&mut self, b: &TrialBehavior)
        requires
            old(self).preflight_done,
            old(self).verdict is None,
            old(self).records@.len() < old(self).total,
        ensures
            final(self).total == old(self).total,
            final(self).preflight_done,
            final(self).records@ == old(self).records@.push(
                record_of(old(self).records@.len() as int, *b),
            ),
            final(self).verdict == if passes(*b) {
                Some(RunVerdict::Solved(old(self).records@.len() as usize))
            } else {
                None::<RunVerdict>
            },
    {
        let idx = self.records.len();
        let verdict = decide_trial(b);
        let probe = if b.launch_ok && b.process_appeared {
            Some(b.probe)
        } else {
            None
        };
        let passed = match verdict {
            TrialVerdict::Pass => true,
            _ => false,
        };
        self.records.push(
            TrialRecord {
                candidate_index: idx,
                launch_ok: b.launch_ok,
                process_appeared: b.process_appeared,
                probe,
                verdict,
            },
        );
        if passed {
            self.verdict = Some(RunVerdict::Solved(idx));
        }
    }

    /// Closes the run: a run that recorded every candidate without a pass is
    /// exhausted.
    pub fn finish(self) -> (r: RunSummary)
        requires
            self.preflight_done,
            self.verdict is Some || self.records@.len() == self.total,
        ensures
            r.records@ == self.records@,
            r.verdict == match self.verdict {
                Some(v) => v,
                None => RunVerdict::Exhausted,
            },
    {
        let verdict = match self.verdict {
            Some(v) => v,
            None => RunVerdict::Exhausted,
        };
        RunSummary { records: self.records, verdict }
    }
}

/// Runs a whole orchestration over a script of per-candidate behaviors:
/// `behaviors[i]` is how the environment would behave for candidate `i`.
/// Returns the run summary and the number of per-trial cleanups performed.
///
/// The contract states the orchestration laws: a preflight success or a dead
/// network short-circuits the run with no trials; otherwise candidates are
/// tried in catalog order up to and including the first pass, each trial is
/// recorded faithfully, and cleanup runs exactly once per trial.
pub fn run_scripted(preflight: &ProbeOutcome, behaviors: &Vec<TrialBehavior>) -> (r: (
    RunSummary,
    usize,
))
    ensures
        preflight_of(*preflight) == PreflightDecision::NoConfigNeeded ==> {
            &&& r.0.records@.len() == 0
            &&& r.0.verdict == RunVerdict::NoConfigNeeded
            &&& r.1 == 0
        },
        preflight_of(*preflight) == PreflightDecision::NetworkUnavailable ==> {
            &&& r.0.records@.len() == 0
            &&& r.0.verdict == RunVerdict::NetworkUnavailable
            &&& r.1 == 0
        },
        preflight_of(*preflight) == PreflightDecision::Proceed ==> {
            &&& r.0.records@.len() == trials_run(behaviors@)
            &&& forall|k: int| 0 <= k < r.0.records@.len() ==> r.0.records@[k] == record_of(
                k,
                behaviors@[k],
            )
            &&& r.1 == r.0.records@.len()
            &&& r.0.verdict == match first_pass_from(behaviors@, 0) {
                Some(i) => RunVerdict::Solved(i as usize),
                None => RunVerdict::Exhausted,
            }
        },
{
    let n = behaviors.len();
    let mut orch = TrialOrchestrator::new(n);
    orch.apply_preflight(preflight);
    let mut cleanups: usize = 0;
    let mut i: usize = 0;
    let mut done = orch.verdict.is_some();
    proof {
        lemma_first_pass_characterizes(behaviors@, 0);
    }
    while !done && i < n
        invariant
            n == behaviors@.len(),
            orch.total == n,
            orch.preflight_done,
            i <= n,
            orch.records@.len() == i,
            cleanups == i,
            done == (orch.verdict is Some),
            forall|k: int| 0 <= k < i ==> orch.records@[k] == record_of(k, behaviors@[k]),
            preflight_of(*preflight) != PreflightDecision::Proceed ==> done && i == 0,
            preflight_of(*preflight) == PreflightDecision::NoConfigNeeded ==> orch.verdict == Some(
                RunVerdict::NoConfigNeeded,
            ),
            preflight_of(*preflight) == PreflightDecision::NetworkUnavailable ==> orch.verdict
                == Some(RunVerdict::NetworkUnavailable),
            preflight_of(*preflight) == PreflightDecision::Proceed ==> {
                &&& first_pass_from(behaviors@, 0) == first_pass_from(behaviors@, i as int)
                    || (orch.verdict is Some)
                &&& match orch.verdict {
                    Some(v) => {
                        &&& v == RunVerdict::Solved((i - 1) as usize)
                        &&& i >= 1
                        &&& passes(behaviors@[i - 1])
                        &&& first_pass_from(behaviors@, 0) == Some(i - 1)
                    },
                    None => first_pass_from(behaviors@, 0) == first_pass_from(
                        behaviors@,
                        i as int,
                    ),
                }
            },
        decreases n - i,
    {
        let b = behaviors[i];
        proof {
            if preflight_of(*preflight) == PreflightDecision::Proceed {
                if passes(b) {
                    assert(first_pass_from(behaviors@, i as int) == Some(i as int));
                } else {
                    assert(first_pass_from(behaviors@, i as int) == first_pass_from(
                        behaviors@,
                        i as int + 1,
                    ));
                }
            }
        }
        orch.record_trial(&b);
        cleanups = cleanups + 1;
        i = i + 1;
        done = orch.verdict.is_some();
    }
    proof {
        lemma_first_pass_characterizes(behaviors@, 0);
    }
    let summary = orch.finish();
    (summary, cleanups)
}

} // verus!
