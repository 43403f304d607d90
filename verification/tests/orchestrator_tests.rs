use preconfig_tester::orchestrator::{
    decide_trial, preflight_decision, run_scripted, PreflightDecision, RunVerdict, TrialBehavior,
    TrialVerdict,
};
use preconfig_tester::probe::ProbeOutcome;

fn behaving(launch_ok: bool, process_appeared: bool, probe: ProbeOutcome) -> TrialBehavior {
    TrialBehavior { launch_ok, process_appeared, probe }
}

#[test]
fn preflight_success_short_circuits() {
    let behaviors = vec![
        behaving(true, true, ProbeOutcome::Success),
        behaving(true, true, ProbeOutcome::Success),
    ];
    let (summary, cleanups) = run_scripted(&ProbeOutcome::Success, &behaviors);
    assert_eq!(summary.records.len(), 0);
    assert_eq!(summary.verdict, RunVerdict::NoConfigNeeded);
    assert_eq!(cleanups, 0);
}

#[test]
fn preflight_no_connection_short_circuits() {
    let behaviors = vec![behaving(true, true, ProbeOutcome::Success)];
    let (summary, cleanups) = run_scripted(&ProbeOutcome::NoConnection, &behaviors);
    assert_eq!(summary.records.len(), 0);
    assert_eq!(summary.verdict, RunVerdict::NetworkUnavailable);
    assert_eq!(cleanups, 0);
}

#[test]
fn preflight_decisions() {
    assert_eq!(preflight_decision(&ProbeOutcome::Success), PreflightDecision::NoConfigNeeded);
    assert_eq!(
        preflight_decision(&ProbeOutcome::NoConnection),
        PreflightDecision::NetworkUnavailable
    );
    assert_eq!(preflight_decision(&ProbeOutcome::ConnectionReset), PreflightDecision::Proceed);
    assert_eq!(preflight_decision(&ProbeOutcome::Timeout), PreflightDecision::Proceed);
    assert_eq!(
        preflight_decision(&ProbeOutcome::CensorshipRedirect),
        PreflightDecision::Proceed
    );
}

#[test]
fn end_to_end_scenario_three_candidates() {
    // A: launch ok, process never appears; B: probe reset; C: success.
    let behaviors = vec![
        behaving(true, false, ProbeOutcome::Success),
        behaving(true, true, ProbeOutcome::ConnectionReset),
        behaving(true, true, ProbeOutcome::Success),
    ];
    let (summary, cleanups) = run_scripted(&ProbeOutcome::ConnectionReset, &behaviors);
    assert_eq!(summary.records.len(), 3);
    assert_eq!(summary.records[0].verdict, TrialVerdict::FailProcessMissing);
    assert_eq!(summary.records[0].probe, None);
    assert_eq!(
        summary.records[1].verdict,
        TrialVerdict::FailProbe(ProbeOutcome::ConnectionReset)
    );
    assert_eq!(summary.records[1].probe, Some(ProbeOutcome::ConnectionReset));
    assert_eq!(summary.records[2].verdict, TrialVerdict::Pass);
    assert_eq!(summary.verdict, RunVerdict::Solved(2));
    assert_eq!(cleanups, 3);
}

#[test]
fn stops_at_first_success() {
    // The third candidate would also pass, but the run stops at the second.
    let behaviors = vec![
        behaving(false, false, ProbeOutcome::Success),
        behaving(true, true, ProbeOutcome::Success),
        behaving(true, true, ProbeOutcome::Success),
    ];
    let (summary, cleanups) = run_scripted(&ProbeOutcome::Timeout, &behaviors);
    assert_eq!(summary.records.len(), 2);
    assert_eq!(summary.records[0].verdict, TrialVerdict::SkipLaunchFailed);
    assert_eq!(summary.records[1].verdict, TrialVerdict::Pass);
    assert_eq!(summary.verdict, RunVerdict::Solved(1));
    assert_eq!(cleanups, 2);
}

#[test]
fn exhausted_run_records_every_candidate() {
    let behaviors = vec![
        behaving(false, false, ProbeOutcome::Success),
        behaving(true, false, ProbeOutcome::Success),
        behaving(true, true, ProbeOutcome::Timeout),
        behaving(true, true, ProbeOutcome::CensorshipRedirect),
    ];
    let (summary, cleanups) = run_scripted(&ProbeOutcome::CensorshipRedirect, &behaviors);
    assert_eq!(summary.records.len(), 4);
    assert_eq!(summary.verdict, RunVerdict::Exhausted);
    // Cleanup ran exactly once per trial, whatever state the trial failed in.
    assert_eq!(cleanups, 4);
    assert_eq!(summary.records[0].verdict, TrialVerdict::SkipLaunchFailed);
    assert_eq!(summary.records[1].verdict, TrialVerdict::FailProcessMissing);
    assert_eq!(summary.records[2].verdict, TrialVerdict::FailProbe(ProbeOutcome::Timeout));
    assert_eq!(
        summary.records[3].verdict,
        TrialVerdict::FailProbe(ProbeOutcome::CensorshipRedirect)
    );
}

#[test]
fn empty_candidate_list_is_exhausted() {
    let behaviors: Vec<TrialBehavior> = vec![];
    let (summary, cleanups) = run_scripted(&ProbeOutcome::ConnectionReset, &behaviors);
    assert_eq!(summary.records.len(), 0);
    assert_eq!(summary.verdict, RunVerdict::Exhausted);
    assert_eq!(cleanups, 0);
}

#[test]
fn trial_verdicts() {
    assert_eq!(
        decide_trial(&behaving(false, false, ProbeOutcome::Success)),
        TrialVerdict::SkipLaunchFailed
    );
    assert_eq!(
        decide_trial(&behaving(true, false, ProbeOutcome::Success)),
        TrialVerdict::FailProcessMissing
    );
    assert_eq!(decide_trial(&behaving(true, true, ProbeOutcome::Success)), TrialVerdict::Pass);
    assert_eq!(
        decide_trial(&behaving(true, true, ProbeOutcome::Timeout)),
        TrialVerdict::FailProbe(ProbeOutcome::Timeout)
    );
}

#[test]
fn candidate_indices_follow_catalog_order() {
    let behaviors = vec![
        behaving(true, true, ProbeOutcome::Timeout),
        behaving(true, true, ProbeOutcome::Timeout),
        behaving(true, true, ProbeOutcome::Success),
    ];
    let (summary, _) = run_scripted(&ProbeOutcome::Timeout, &behaviors);
    for (i, record) in summary.records.iter().enumerate() {
        assert_eq!(record.candidate_index, i);
    }
}
