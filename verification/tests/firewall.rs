use orange::firewall::child::{
    bounded_run, pipe_wait, run_bounded_while, BoundedBuffer, BoundedRun, ChildEvent, ChildPoll,
    ChildState, PipeWait, Streams,
};
use orange::firewall::repair::{
    elevation_parameters, launch_elevated_and_wait, open_verified, plan_repair, process_creation,
    repair, repair_outcome_code, repair_step, Elevation, RepairAction, RepairEvent, RepairState,
};
use orange::firewall::{
    classify_facts, inspect, parse_script_outcome, run_facts_script, strip_verbatim_prefix,
    AppRuleFact, FirewallFacts, FirewallStatus, Inspection, ProfileFact, ScriptOutcome,
    ScriptReadings, DETAIL_LIMIT, OUTPUT_LIMIT, REPAIR_CHANGED_OR_VERIFIED, REPAIR_FAILED,
    REPAIR_NOTHING_TO_CHANGE, REPAIR_NOT_LOCALLY_REPAIRABLE, REPAIR_REQUESTER_CANCELLED,
    REPAIR_UAC_DECLINED,
};

const EXE: &str = r"C:\Program Files\Orange\orange.exe";
const OTHER_EXE: &str = r"C:\Program Files\Contoso\contoso.exe";

fn profile(
    name: &str,
    enabled: bool,
    block_all_inbound: bool,
    outbound_block: bool,
) -> ProfileFact {
    ProfileFact {
        name: name.to_string(),
        enabled,
        block_all_inbound,
        outbound_block,
    }
}

fn all_profiles_enabled() -> Vec<ProfileFact> {
    vec![
        profile("Domain", true, false, false),
        profile("Private", true, false, false),
        profile("Public", true, false, false),
    ]
}

fn whole_app_block_rule(program: &str) -> AppRuleFact {
    AppRuleFact {
        program: program.to_string(),
        enabled: true,
        action: "Block".to_string(),
        protocol: "TCP".to_string(),
        profiles: vec!["Private".to_string(), "Public".to_string()],
        restricted: false,
    }
}

fn facts(profiles: Vec<ProfileFact>, app_rules: Vec<AppRuleFact>) -> FirewallFacts {
    FirewallFacts {
        active_profiles: vec!["Private".to_string()],
        profiles,
        app_rules,
        managed_origin: false,
    }
}

/// Which rules name this executable, by the comparison of path names that the
/// system makes.
fn ours(data: &FirewallFacts, exe: &str) -> Vec<bool> {
    data.app_rules
        .iter()
        .map(|rule| rule.program.trim().to_uppercase() == exe.trim().to_uppercase())
        .collect()
}

fn classified(data: &FirewallFacts) -> Inspection {
    classify_facts(data, &ours(data, EXE))
}

#[test]
fn an_unrestricted_local_whole_app_block_on_the_exact_exe_is_repairable() {
    let data = facts(all_profiles_enabled(), vec![whole_app_block_rule(EXE)]);
    let result = classified(&data);
    assert_eq!(result.status, FirewallStatus::Blocked);
    assert!(result.repairable);
    assert!(result.detail.len() <= DETAIL_LIMIT);
}

#[test]
fn a_block_rule_for_a_different_program_path_is_not_ours_even_with_a_similar_name() {
    let data = facts(
        all_profiles_enabled(),
        vec![whole_app_block_rule(OTHER_EXE)],
    );
    let result = classified(&data);
    assert_eq!(result.status, FirewallStatus::Clear);
    assert!(!result.repairable);
}

#[test]
fn exact_path_matching_is_case_insensitive_but_still_exact() {
    let mut rule = whole_app_block_rule(EXE);
    rule.program = EXE.to_ascii_uppercase();
    let data = facts(all_profiles_enabled(), vec![rule]);
    let result = classified(&data);
    assert_eq!(result.status, FirewallStatus::Blocked);
    assert!(result.repairable);
}

#[test]
fn a_rule_scoped_to_an_inactive_profile_only_is_not_evidence_of_a_block() {
    let mut rule = whole_app_block_rule(EXE);
    rule.profiles = vec!["Domain".to_string()];
    let data = facts(all_profiles_enabled(), vec![rule]);
    let result = classified(&data);
    assert_eq!(result.status, FirewallStatus::Clear);
}

#[test]
fn a_rule_restricted_by_port_is_blocked_but_not_repairable() {
    let mut rule = whole_app_block_rule(EXE);
    rule.restricted = true;
    let data = facts(all_profiles_enabled(), vec![rule]);
    let result = classified(&data);
    assert_eq!(result.status, FirewallStatus::Blocked);
    assert!(!result.repairable);
}

#[test]
fn managed_origin_is_managed_not_repairable() {
    let mut data = facts(all_profiles_enabled(), vec![whole_app_block_rule(EXE)]);
    data.managed_origin = true;
    let result = classified(&data);
    assert_eq!(result.status, FirewallStatus::Managed);
    assert!(!result.repairable);
}

#[test]
fn managed_origin_takes_precedence_over_an_otherwise_repairable_local_block() {
    let mut data = facts(all_profiles_enabled(), vec![whole_app_block_rule(EXE)]);
    data.managed_origin = true;
    let result = classified(&data);
    assert_eq!(result.status, FirewallStatus::Managed);
    assert!(!result.repairable);
}

#[test]
fn block_all_inbound_with_no_matching_app_rule_is_managed_not_blocked() {
    let mut profiles = all_profiles_enabled();
    profiles[1] = profile("Private", true, true, false);
    let data = facts(profiles, vec![]);
    let result = classified(&data);
    assert_eq!(result.status, FirewallStatus::Managed);
    assert!(!result.repairable);
}

#[test]
fn block_all_inbound_takes_precedence_over_a_matching_repairable_local_block() {
    let mut profiles = all_profiles_enabled();
    profiles[1] = profile("Private", true, true, false);
    let data = facts(profiles, vec![whole_app_block_rule(EXE)]);
    let result = classified(&data);
    assert_eq!(result.status, FirewallStatus::Managed);
    assert!(!result.repairable);
}

#[test]
fn a_default_outbound_block_with_nothing_else_is_managed_not_clear() {
    let mut profiles = all_profiles_enabled();
    profiles[1] = profile("Private", true, false, true);
    let data = facts(profiles, vec![]);
    let result = classified(&data);
    assert_eq!(result.status, FirewallStatus::Managed);
    assert!(!result.repairable);
}

#[test]
fn ordinary_default_inbound_policy_without_any_block_condition_is_clear() {
    let data = facts(all_profiles_enabled(), vec![]);
    let result = classified(&data);
    assert_eq!(result.status, FirewallStatus::Clear);
}

#[test]
fn a_disabled_firewall_on_every_active_profile_is_clear() {
    let profiles = vec![
        profile("Domain", true, false, false),
        profile("Private", false, false, false),
        profile("Public", true, false, false),
    ];
    let data = facts(profiles, vec![whole_app_block_rule(EXE)]);
    let result = classified(&data);
    assert_eq!(result.status, FirewallStatus::Clear);
}

#[test]
fn no_active_profile_reported_is_unknown_not_clear() {
    let mut data = facts(all_profiles_enabled(), vec![]);
    data.active_profiles.clear();
    let result = classified(&data);
    assert_eq!(result.status, FirewallStatus::Unknown);
    assert!(!result.repairable);
}

#[test]
fn an_unrecognized_active_profile_name_is_unknown() {
    let mut data = facts(all_profiles_enabled(), vec![]);
    data.active_profiles = vec!["Guest".to_string()];
    let result = classified(&data);
    assert_eq!(result.status, FirewallStatus::Unknown);
}

#[test]
fn an_active_profile_missing_from_the_profile_facts_is_unknown_not_firewall_off() {
    let mut data = facts(vec![profile("Private", true, false, false)], vec![]);
    data.active_profiles = vec!["Private".to_string(), "Public".to_string()];
    let result = classified(&data);
    assert_eq!(result.status, FirewallStatus::Unknown);
}

#[test]
fn a_disabled_block_rule_is_never_treated_as_current_evidence() {
    let mut rule = whole_app_block_rule(EXE);
    rule.enabled = false;
    let data = facts(all_profiles_enabled(), vec![rule]);
    let result = classified(&data);
    assert_eq!(result.status, FirewallStatus::Clear);
}

fn facts_json() -> &'static str {
    r#"{"activeProfiles":["Public"],"profiles":[{"name":"Domain","enabled":true,"blockAllInbound":false,"outboundBlock":false},{"name":"Private","enabled":true,"blockAllInbound":false,"outboundBlock":false},{"name":"Public","enabled":true,"blockAllInbound":false,"outboundBlock":false}],"appRules":[],"managedOrigin":false}"#
}

fn read_profile(value: &serde_json::Value) -> Option<ProfileFact> {
    Some(ProfileFact {
        name: value.get("name")?.as_str()?.to_string(),
        enabled: value.get("enabled")?.as_bool()?,
        block_all_inbound: value.get("blockAllInbound")?.as_bool()?,
        outbound_block: value.get("outboundBlock")?.as_bool()?,
    })
}

fn read_facts(value: &serde_json::Value) -> Option<FirewallFacts> {
    let mut active_profiles = Vec::new();
    for name in value.get("activeProfiles")?.as_array()? {
        active_profiles.push(name.as_str()?.to_string());
    }
    let mut profiles = Vec::new();
    for profile in value.get("profiles")?.as_array()? {
        profiles.push(read_profile(profile)?);
    }
    if !value.get("appRules")?.as_array()?.is_empty() {
        return None;
    }
    Some(FirewallFacts {
        active_profiles,
        profiles,
        app_rules: Vec::new(),
        managed_origin: value.get("managedOrigin")?.as_bool()?,
    })
}

/// What the output of a script reads as, in each of the three shapes.
fn readings(bytes: &[u8]) -> Option<ScriptReadings> {
    let text = std::str::from_utf8(bytes).ok()?;
    let value = serde_json::from_str::<serde_json::Value>(text).ok();
    Some(ScriptReadings {
        facts: value.as_ref().and_then(read_facts),
        requester_cancelled: value
            .as_ref()
            .and_then(|value| value.get("requesterCancelled")?.as_bool()),
        error: value
            .as_ref()
            .and_then(|value| Some(value.get("error")?.as_str()?.to_string())),
    })
}

#[test]
fn exit_zero_with_a_well_formed_facts_payload_is_facts() {
    match parse_script_outcome(0, readings(facts_json().as_bytes())) {
        Ok(ScriptOutcome::Facts(_)) => {}
        other => panic!("expected Facts, got {other:?}"),
    }
}

#[test]
fn exit_zero_with_a_cancelled_marker_is_requester_cancelled() {
    let payload = br#"{"schema":2,"requesterCancelled":true}"#;
    match parse_script_outcome(0, readings(payload)) {
        Ok(ScriptOutcome::RequesterCancelled) => {}
        other => panic!("expected RequesterCancelled, got {other:?}"),
    }
}

#[test]
fn exit_zero_with_neither_recognized_shape_is_malformed() {
    let result = parse_script_outcome(0, readings(b"not json at all"));
    assert_eq!(result.unwrap_err(), "malformed");
}

#[test]
fn exit_zero_with_truncated_json_is_malformed_rather_than_partially_trusted() {
    let truncated = &facts_json().as_bytes()[..facts_json().len() - 30];
    let result = parse_script_outcome(0, readings(truncated));
    assert_eq!(result.unwrap_err(), "malformed");
}

#[test]
fn exit_one_with_a_script_error_payload_is_carried_through() {
    let payload = br#"{"schema":2,"error":"exception"}"#;
    match parse_script_outcome(1, readings(payload)) {
        Ok(ScriptOutcome::ScriptError(reason)) => assert_eq!(reason, "exception"),
        other => panic!("expected ScriptError, got {other:?}"),
    }
}

#[test]
fn exit_one_with_a_non_error_shaped_payload_is_malformed() {
    let result = parse_script_outcome(1, readings(facts_json().as_bytes()));
    assert_eq!(result.unwrap_err(), "malformed");
}

#[test]
fn any_other_exit_code_is_rejected_without_trusting_its_output() {
    let result = parse_script_outcome(2, readings(facts_json().as_bytes()));
    assert_eq!(result.unwrap_err(), "unexpected-exit");
}

fn inspection_of(status: FirewallStatus, repairable: bool) -> Inspection {
    Inspection {
        status,
        detail: "detail".to_string(),
        repairable,
    }
}

#[test]
fn repair_planning_matches_each_inspection_outcome_to_the_right_action() {
    assert_eq!(
        plan_repair(&inspection_of(FirewallStatus::Clear, false)),
        RepairAction::NothingToChange
    );
    assert_eq!(
        plan_repair(&inspection_of(FirewallStatus::Blocked, true)),
        RepairAction::Proceed
    );
    assert_eq!(
        plan_repair(&inspection_of(FirewallStatus::Blocked, false)),
        RepairAction::NotRepairable
    );
    assert_eq!(
        plan_repair(&inspection_of(FirewallStatus::Managed, false)),
        RepairAction::NotRepairable
    );
    assert_eq!(
        plan_repair(&inspection_of(FirewallStatus::Unknown, false)),
        RepairAction::NotRepairable
    );
}

#[test]
fn repair_is_only_reported_successful_when_the_postcondition_shows_clear() {
    assert_eq!(
        repair_outcome_code(&inspection_of(FirewallStatus::Clear, false)),
        REPAIR_CHANGED_OR_VERIFIED
    );
    assert_eq!(
        repair_outcome_code(&inspection_of(FirewallStatus::Managed, false)),
        REPAIR_FAILED
    );
    assert_eq!(
        repair_outcome_code(&inspection_of(FirewallStatus::Blocked, false)),
        REPAIR_FAILED
    );
}

#[test]
fn inspect_completes_quickly_and_returns_a_well_formed_result_on_this_machine() {
    let scan = facts(all_profiles_enabled(), vec![whole_app_block_rule(EXE)]);
    let named = ours(&scan, EXE);
    for (outcome, ours) in [
        (None, vec![]),
        (Some(Err("timeout".to_string())), vec![]),
        (Some(Ok(ScriptOutcome::RequesterCancelled)), vec![]),
        (Some(Ok(ScriptOutcome::Facts(scan))), named),
    ] {
        let result = inspect(&outcome, &ours);
        assert!(result.detail.len() <= DETAIL_LIMIT);
        assert!(!result.detail.is_empty());
        if result.repairable {
            assert_eq!(result.status, FirewallStatus::Blocked);
        }
    }
}

/// A supervised child whose every action succeeds, that is wanted for so many
/// questions, exits at the poll of that number and is past its deadline from
/// the check of that number on.
fn supervised(wanted: usize, exits_at: usize, deadline_at: usize) -> (ChildState, usize) {
    let mut state = ChildState::AskBeforeStart;
    let (mut asked, mut polled, mut checked, mut spawned) = (0, 0, 0, 0);
    for _ in 0..200 {
        let event = match state {
            ChildState::AskBeforeStart | ChildState::AskAgain => {
                asked += 1;
                ChildEvent::Answer(asked <= wanted)
            }
            ChildState::Spawn => {
                spawned += 1;
                ChildEvent::Answer(true)
            }
            ChildState::CreateJob | ChildState::AssignJob => ChildEvent::Answer(true),
            ChildState::Poll => {
                polled += 1;
                if polled >= exits_at {
                    ChildEvent::Polled(ChildPoll::Exited(Some(0)))
                } else {
                    ChildEvent::Polled(ChildPoll::Running)
                }
            }
            ChildState::CheckClock => {
                checked += 1;
                ChildEvent::Answer(checked < deadline_at)
            }
            ChildState::Kill => ChildEvent::Reaped(Some(1)),
            ChildState::Unstarted | ChildState::Stopped { .. } => return (state, spawned),
            _ => ChildEvent::Done,
        };
        state = run_bounded_while(state, event);
    }
    panic!("the run did not end");
}

fn whole_streams(stdout: &[u8]) -> Streams {
    Streams {
        written: Some(true),
        stdout: Some((stdout.to_vec(), false)),
        stderr_truncated: Some(false),
    }
}

#[test]
fn a_policy_child_is_stopped_when_the_requester_exits_during_work() {
    let (state, spawned) = supervised(3, usize::MAX, usize::MAX);
    assert_eq!(spawned, 1);
    let run = bounded_run(state, whole_streams(b""));
    assert!(run.exit_code.is_some(), "the started child must be reaped");
}

#[test]
fn a_cancelled_policy_request_never_starts_a_child() {
    let (state, spawned) = supervised(0, 1, usize::MAX);
    assert_eq!(spawned, 0);
    let run = bounded_run(state, whole_streams(b""));
    assert!(
        run.exit_code.is_none(),
        "a child ran after the requester was gone"
    );
}

#[test]
fn a_bounded_child_that_finishes_in_time_returns_its_output_exit_code_and_is_not_marked_timed_out()
{
    let (state, _) = supervised(usize::MAX, 2, usize::MAX);
    let run = bounded_run(state, whole_streams(b"fixture-output\n"));
    assert!(!run.timed_out);
    assert!(!run.truncated);
    assert_eq!(run.exit_code, Some(0));
    assert!(String::from_utf8_lossy(&run.stdout).contains("fixture-output"));
}

#[test]
fn a_bounded_child_past_its_deadline_is_killed_and_reaped() {
    let (state, _) = supervised(usize::MAX, usize::MAX, 4);
    let run = bounded_run(state, whole_streams(b""));
    assert!(run.timed_out);
}

#[test]
fn retained_stdout_never_exceeds_the_bounded_cap_and_is_flagged_truncated() {
    let mut buffer = BoundedBuffer::new(OUTPUT_LIMIT);
    for _ in 0..64 {
        buffer.bounded_reader(&[b'x'; 1024]);
    }
    let (state, _) = supervised(usize::MAX, 2, usize::MAX);
    let run = bounded_run(
        state,
        Streams {
            written: Some(true),
            stdout: Some((buffer.kept, buffer.truncated)),
            stderr_truncated: Some(false),
        },
    );
    assert!(!run.timed_out);
    assert_eq!(run.stdout.len(), OUTPUT_LIMIT);
    assert!(run.truncated);
}

#[test]
fn a_stream_that_just_fits_is_whole() {
    let mut buffer = BoundedBuffer::new(4);
    buffer.bounded_reader(b"ab");
    buffer.bounded_reader(b"cd");
    assert_eq!(buffer.kept, b"abcd");
    assert!(!buffer.truncated);
    buffer.bounded_reader(b"e");
    assert_eq!(buffer.kept, b"abcd");
    assert!(buffer.truncated);
}

#[test]
fn a_stream_without_an_end_counts_as_cut_off() {
    let stopped = ChildState::Stopped {
        timed_out: false,
        exit_code: Some(0),
    };
    for streams in [
        Streams {
            written: None,
            ..whole_streams(b"x")
        },
        Streams {
            written: Some(false),
            ..whole_streams(b"x")
        },
        Streams {
            stdout: None,
            ..whole_streams(b"x")
        },
        Streams {
            stderr_truncated: None,
            ..whole_streams(b"x")
        },
        Streams {
            stderr_truncated: Some(true),
            ..whole_streams(b"x")
        },
    ] {
        assert!(bounded_run(stopped, streams).truncated);
    }
}

#[test]
fn a_child_that_cannot_be_contained_is_discarded() {
    let mut state = ChildState::AskBeforeStart;
    for event in [
        ChildEvent::Answer(true),
        ChildEvent::Answer(true),
        ChildEvent::Answer(false),
    ] {
        state = run_bounded_while(state, event);
    }
    assert_eq!(state, ChildState::Discard);
    assert_eq!(
        run_bounded_while(state, ChildEvent::Done),
        ChildState::Unstarted
    );
}

#[test]
fn a_pipe_worker_is_waited_for_within_its_bound() {
    assert_eq!(pipe_wait(true, 10, 5), PipeWait::Join);
    assert_eq!(pipe_wait(false, 4, 5), PipeWait::Sleep);
    assert_eq!(pipe_wait(false, 5, 5), PipeWait::Abort);
}

fn run_with(timed_out: bool, truncated: bool, exit_code: Option<i32>) -> BoundedRun {
    BoundedRun {
        stdout: Vec::new(),
        timed_out,
        truncated,
        exit_code,
    }
}

#[test]
fn a_run_is_read_only_where_it_is_whole() {
    let read = || readings(facts_json().as_bytes());
    assert_eq!(
        run_facts_script(&run_with(true, false, Some(0)), None, read()).unwrap_err(),
        "timeout"
    );
    assert_eq!(
        run_facts_script(&run_with(false, true, Some(0)), None, read()).unwrap_err(),
        "truncated"
    );
    assert_eq!(
        run_facts_script(&run_with(false, false, None), None, read()).unwrap_err(),
        "no-exit-code"
    );
    assert!(matches!(
        run_facts_script(&run_with(false, false, Some(0)), Some(true), read()),
        Ok(ScriptOutcome::Facts(_))
    ));
    assert!(matches!(
        run_facts_script(&run_with(true, true, None), Some(false), read()),
        Ok(ScriptOutcome::RequesterCancelled)
    ));
}

#[test]
fn a_reused_process_id_is_not_the_requester() {
    let created = process_creation(1, 2);
    assert_eq!(created, (1 << 32) + 2);
    assert!(open_verified(true, Some(created), created));
    assert!(!open_verified(true, Some(created), 0));
    assert!(!open_verified(true, None, created));
    assert!(!open_verified(false, Some(created), created));
}

#[test]
fn elevation_outcomes_have_their_exit_codes() {
    assert_eq!(
        launch_elevated_and_wait(Elevation::Declined),
        REPAIR_UAC_DECLINED
    );
    for failed in [
        Elevation::NoCreationTime,
        Elevation::NotLaunched,
        Elevation::NoProcess,
        Elevation::WaitTimedOut,
        Elevation::Waited { exit_code: None },
    ] {
        assert_eq!(launch_elevated_and_wait(failed), REPAIR_FAILED);
    }
    assert_eq!(
        launch_elevated_and_wait(Elevation::Waited { exit_code: Some(2) }),
        REPAIR_NOTHING_TO_CHANGE
    );
    assert!(elevation_parameters(42, 7).contains("42"));
    assert!(elevation_parameters(42, 7).contains('7'));
}

fn followed(mut state: RepairState, events: &[RepairEvent]) -> RepairState {
    for event in events {
        state = repair_step(state, event);
    }
    state
}

#[test]
fn an_elevated_repair_runs_only_for_a_live_requester() {
    let blocked = || RepairEvent::Inspected(inspection_of(FirewallStatus::Blocked, true));
    let start = || repair(true, Some(4), Some(9));
    assert_eq!(
        followed(
            start(),
            &[
                RepairEvent::Answer(true),
                RepairEvent::Answer(true),
                blocked(),
                RepairEvent::Answer(true),
                RepairEvent::Answer(true),
            ]
        ),
        RepairState::RunScript
    );
    assert_eq!(
        followed(
            start(),
            &[
                RepairEvent::Answer(true),
                RepairEvent::Answer(true),
                blocked(),
                RepairEvent::Answer(false),
            ]
        ),
        RepairState::Finished {
            code: REPAIR_REQUESTER_CANCELLED
        }
    );
}

/// The end of an elevated repair whose changing script reported `outcome`.
fn repaired(outcome: Result<ScriptOutcome, String>) -> RepairState {
    let flags = match &outcome {
        Ok(ScriptOutcome::Facts(data)) => ours(data, EXE),
        _ => Vec::new(),
    };
    repair_step(
        RepairState::RunScript,
        &RepairEvent::Repaired(outcome, flags),
    )
}

#[test]
fn a_repair_succeeds_exactly_where_the_reported_facts_are_clear() {
    let clear = facts(all_profiles_enabled(), vec![whole_app_block_rule(OTHER_EXE)]);
    assert_eq!(
        repaired(Ok(ScriptOutcome::Facts(clear))),
        RepairState::Finished {
            code: REPAIR_CHANGED_OR_VERIFIED
        }
    );
    let blocked = facts(all_profiles_enabled(), vec![whole_app_block_rule(EXE)]);
    assert_eq!(
        repaired(Ok(ScriptOutcome::Facts(blocked))),
        RepairState::Finished {
            code: REPAIR_FAILED
        }
    );
    assert_eq!(
        repaired(Ok(ScriptOutcome::RequesterCancelled)),
        RepairState::Finished {
            code: REPAIR_REQUESTER_CANCELLED
        }
    );
    assert_eq!(
        repaired(Ok(ScriptOutcome::ScriptError("denied".to_string()))),
        RepairState::Finished {
            code: REPAIR_FAILED
        }
    );
    assert_eq!(
        repaired(Err("timeout".to_string())),
        RepairState::Finished {
            code: REPAIR_FAILED
        }
    );
}

#[test]
fn an_elevated_repair_without_a_known_requester_is_cancelled() {
    for start in [repair(true, None, Some(9)), repair(true, Some(4), None)] {
        assert_eq!(
            followed(start, &[RepairEvent::Answer(true), RepairEvent::Answer(true)]),
            RepairState::Finished {
                code: REPAIR_REQUESTER_CANCELLED
            }
        );
    }
}

#[test]
fn a_plain_repair_asks_for_elevation_only_where_there_is_something_to_repair() {
    let start = || repair(false, None, None);
    assert_eq!(
        followed(
            start(),
            &[RepairEvent::Inspected(inspection_of(
                FirewallStatus::Clear,
                false
            ))]
        ),
        RepairState::Finished {
            code: REPAIR_NOTHING_TO_CHANGE
        }
    );
    assert_eq!(
        followed(
            start(),
            &[RepairEvent::Inspected(inspection_of(
                FirewallStatus::Managed,
                false
            ))]
        ),
        RepairState::Finished {
            code: REPAIR_NOT_LOCALLY_REPAIRABLE
        }
    );
    assert_eq!(
        followed(
            start(),
            &[
                RepairEvent::Inspected(inspection_of(FirewallStatus::Blocked, true)),
                RepairEvent::Answer(true),
            ]
        ),
        RepairState::Elevate
    );
}

#[test]
fn a_verbatim_prefix_is_taken_off_once() {
    assert_eq!(
        strip_verbatim_prefix(r"\\?\C:\Orange\orange.exe"),
        r"C:\Orange\orange.exe"
    );
    assert_eq!(strip_verbatim_prefix(r"C:\x"), r"C:\x");
    assert_eq!(strip_verbatim_prefix(""), "");
}
