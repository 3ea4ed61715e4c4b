//! The repair: first inspected without rights, then, where a local rule is to
//! blame, carried out by an elevated copy of the program.

use crate::firewall::{
    self, classify_facts, FirewallFacts, FirewallStatus, Inspection, ScriptOutcome, REPAIR_CHANGED_OR_VERIFIED, REPAIR_FAILED,
    REPAIR_NOTHING_TO_CHANGE, REPAIR_NOT_LOCALLY_REPAIRABLE, REPAIR_REQUESTER_CANCELLED,
    REPAIR_UAC_DECLINED,
};
use crate::text_ops::{self, decimal_string};
use vstd::prelude::*;
use vstd::string::*;

verus! {

#[derive(Debug, Clone, Copy, PartialEq, Eq, Structural)]
pub enum RepairAction {
    NothingToChange,
    NotRepairable,
    Proceed,
}

/// What an inspection calls for.
pub open spec fn action_for(found: Inspection) -> RepairAction {
    match found.status {
        FirewallStatus::Clear => RepairAction::NothingToChange,
        FirewallStatus::Blocked => if found.repairable {
            RepairAction::Proceed
        } else {
            RepairAction::NotRepairable
        },
        FirewallStatus::Managed | FirewallStatus::Unknown => RepairAction::NotRepairable,
    }
}

pub fn plan_repair(inspection: &Inspection) -> (action: RepairAction)
    ensures
        action == action_for(*inspection),
{
    match inspection.status {
        FirewallStatus::Clear => RepairAction::NothingToChange,
        FirewallStatus::Blocked => if inspection.repairable {
            RepairAction::Proceed
        } else {
            RepairAction::NotRepairable
        },
        FirewallStatus::Managed | FirewallStatus::Unknown => RepairAction::NotRepairable,
    }
}

/// A repair counts as done only where the block is gone afterward.
pub open spec fn code_after(post: Inspection) -> i32 {
    if post.status == FirewallStatus::Clear {
        REPAIR_CHANGED_OR_VERIFIED
    } else {
        REPAIR_FAILED
    }
}

pub fn repair_outcome_code(post: &Inspection) -> (code: i32)
    ensures
        code == code_after(*post),
{
    match post.status {
        FirewallStatus::Clear => REPAIR_CHANGED_OR_VERIFIED,
        _ => REPAIR_FAILED,
    }
}

/// The creation time of a process, from its two halves.
pub fn process_creation(high: u32, low: u32) -> (created: u64)
    ensures
        created == high * 0x1_0000_0000 + low,
{
    let high64: u64 = high as u64;
    let low64: u64 = low as u64;
    proof {
        assert((high64 << 32) | low64 == high64 * 0x1_0000_0000 + low64) by (bit_vector)
            requires
                high64 <= 0xffff_ffff,
                low64 <= 0xffff_ffff,
        ;
    }
    (high64 << 32) | low64
}

/// The requester is the process that asked: the one with this creation time.
/// A process identifier alone may have been reused.
pub fn open_verified(opened: bool, created: Option<u64>, expected: u64) -> (verified: bool)
    ensures
        verified == (opened && created == Some(expected)),
{
    opened && matches!(created, Some(created) if created == expected)
}

/// The command line of the elevated helper.
pub open spec fn elevation_text(requester_pid: u32, created: u64) -> Seq<char> {
    "repair-network --elevated --requester "@ + text_ops::decimal(requester_pid as nat)
        + " --requester-created "@ + text_ops::decimal(created as nat)
}

pub fn elevation_parameters(requester_pid: u32, created: u64) -> (parameters: String)
    ensures
        parameters@ == elevation_text(requester_pid, created),
{
    let mut text = "repair-network --elevated --requester ".to_owned();
    text.append(decimal_string(requester_pid as u128).as_str());
    text.append(" --requester-created ");
    text.append(decimal_string(created as u128).as_str());
    text
}

/// How launching the elevated helper went.
#[derive(Debug, Clone, Copy, PartialEq, Eq, Structural)]
pub enum Elevation {
    /// This process could not tell when it was created.
    NoCreationTime,
    /// The user said no.
    Declined,
    NotLaunched,
    /// It was launched, but there is no process to wait for.
    NoProcess,
    /// The wait ended in time, and with it came an exit code, or not.
    Waited { exit_code: Option<u32> },
    WaitTimedOut,
}

/// The exit code for an elevation: the helper's own, where it can be had.
pub open spec fn elevation_code(elevation: Elevation) -> i32 {
    match elevation {
        Elevation::Declined => REPAIR_UAC_DECLINED,
        Elevation::Waited { exit_code: Some(code) } => if code <= i32::MAX {
            code as i32
        } else {
            REPAIR_FAILED
        },
        _ => REPAIR_FAILED,
    }
}

pub fn launch_elevated_and_wait(elevation: Elevation) -> (code: i32)
    ensures
        code == elevation_code(elevation),
{
    match elevation {
        Elevation::Declined => REPAIR_UAC_DECLINED,
        Elevation::Waited { exit_code: Some(code) } => if code <= i32::MAX as u32 {
            code as i32
        } else {
            REPAIR_FAILED
        },
        _ => REPAIR_FAILED,
    }
}

/// What a repair is to do.
#[derive(Debug, Clone, Copy, PartialEq, Eq, Structural)]
pub enum RepairState {
    /// Without rights: inspect.
    Inspect,
    /// Without rights: find the own executable.
    Locate,
    /// Without rights: launch the elevated helper and wait for it.
    Elevate,
    /// Elevated: open the requester and verify that it is the one that asked.
    OpenRequester,
    /// Elevated: ask whether the requester is alive.
    CheckRequester,
    /// Elevated: inspect.
    InspectElevated,
    /// Elevated: ask again, on the same handle, right before anything changes.
    CheckRequesterAgain,
    /// Elevated: find the own executable.
    LocateElevated,
    /// Elevated: run the script that changes rules.
    RunScript,
    Finished { code: i32 },
}

/// What came of it.
#[derive(Debug)]
pub enum RepairEvent {
    Answer(bool),
    Inspected(Inspection),
    Elevated(Elevation),
    /// The script's outcome and, where it reports facts, of each of their
    /// rules whether its program is this one.
    Repaired(Result<ScriptOutcome, String>, Vec<bool>),
}

/// Where a repair begins. An elevated one must know its requester.
pub open spec fn repair_start(
    elevated: bool,
    requester: Option<u32>,
    requester_created: Option<u64>,
) -> RepairState {
    if !elevated {
        RepairState::Inspect
    } else if requester is Some && requester_created is Some {
        RepairState::OpenRequester
    } else {
        RepairState::Finished { code: REPAIR_REQUESTER_CANCELLED }
    }
}

pub fn repair(elevated: bool, requester: Option<u32>, requester_created: Option<u64>) -> (state:
    RepairState)
    ensures
        state == repair_start(elevated, requester, requester_created),
{
    if !elevated {
        RepairState::Inspect
    } else if requester.is_some() && requester_created.is_some() {
        RepairState::OpenRequester
    } else {
        RepairState::Finished { code: REPAIR_REQUESTER_CANCELLED }
    }
}

/// The exit code of a script that ran: success exactly where the facts that it
/// reported afterward classify as clear.
pub open spec fn script_code(outcome: Result<ScriptOutcome, String>, ours: Seq<bool>) -> i32 {
    match outcome {
        Ok(ScriptOutcome::Facts(facts)) => if firewall::finding_status(firewall::finding(facts, ours))
            == FirewallStatus::Clear {
            REPAIR_CHANGED_OR_VERIFIED
        } else {
            REPAIR_FAILED
        },
        Ok(ScriptOutcome::RequesterCancelled) => REPAIR_REQUESTER_CANCELLED,
        _ => REPAIR_FAILED,
    }
}

/// The next state. An event that does not fit the state changes nothing.
pub open spec fn repair_after(state: RepairState, event: RepairEvent) -> RepairState {
    match (state, event) {
        (RepairState::Inspect, RepairEvent::Inspected(found)) => match action_for(found) {
            RepairAction::NothingToChange => RepairState::Finished {
                code: REPAIR_NOTHING_TO_CHANGE,
            },
            RepairAction::NotRepairable => RepairState::Finished {
                code: REPAIR_NOT_LOCALLY_REPAIRABLE,
            },
            RepairAction::Proceed => RepairState::Locate,
        },
        (RepairState::Locate, RepairEvent::Answer(found)) => if found {
            RepairState::Elevate
        } else {
            RepairState::Finished { code: REPAIR_FAILED }
        },
        (RepairState::Elevate, RepairEvent::Elevated(elevation)) => RepairState::Finished {
            code: elevation_code(elevation),
        },
        (RepairState::OpenRequester, RepairEvent::Answer(verified)) => if verified {
            RepairState::CheckRequester
        } else {
            RepairState::Finished { code: REPAIR_REQUESTER_CANCELLED }
        },
        (RepairState::CheckRequester, RepairEvent::Answer(alive)) => if alive {
            RepairState::InspectElevated
        } else {
            RepairState::Finished { code: REPAIR_REQUESTER_CANCELLED }
        },
        (RepairState::InspectElevated, RepairEvent::Inspected(found)) => match action_for(found) {
            RepairAction::NothingToChange => RepairState::Finished {
                code: REPAIR_NOTHING_TO_CHANGE,
            },
            RepairAction::NotRepairable => RepairState::Finished {
                code: REPAIR_NOT_LOCALLY_REPAIRABLE,
            },
            RepairAction::Proceed => RepairState::CheckRequesterAgain,
        },
        (RepairState::CheckRequesterAgain, RepairEvent::Answer(alive)) => if alive {
            RepairState::LocateElevated
        } else {
            RepairState::Finished { code: REPAIR_REQUESTER_CANCELLED }
        },
        (RepairState::LocateElevated, RepairEvent::Answer(found)) => if found {
            RepairState::RunScript
        } else {
            RepairState::Finished { code: REPAIR_FAILED }
        },
        (RepairState::RunScript, RepairEvent::Repaired(outcome, ours)) => RepairState::Finished {
            code: script_code(outcome, ours@),
        },
        _ => state,
    }
}

/// One step of a repair. The facts that a changing script reports are
/// classified here.
pub fn repair_step(state: RepairState, event: &RepairEvent) -> (next: RepairState)
    requires
        event matches RepairEvent::Repaired(Ok(ScriptOutcome::Facts(facts)), ours) ==> ours@.len()
            == facts.app_rules@.len(),
    ensures
        next == repair_after(state, *event),
{
    match (state, event) {
        (RepairState::Inspect, RepairEvent::Inspected(found)) => match plan_repair(found) {
            RepairAction::NothingToChange => RepairState::Finished {
                code: REPAIR_NOTHING_TO_CHANGE,
            },
            RepairAction::NotRepairable => RepairState::Finished {
                code: REPAIR_NOT_LOCALLY_REPAIRABLE,
            },
            RepairAction::Proceed => RepairState::Locate,
        },
        (RepairState::Locate, RepairEvent::Answer(found)) => if *found {
            RepairState::Elevate
        } else {
            RepairState::Finished { code: REPAIR_FAILED }
        },
        (RepairState::Elevate, RepairEvent::Elevated(elevation)) => RepairState::Finished {
            code: launch_elevated_and_wait(*elevation),
        },
        (RepairState::OpenRequester, RepairEvent::Answer(verified)) => if *verified {
            RepairState::CheckRequester
        } else {
            RepairState::Finished { code: REPAIR_REQUESTER_CANCELLED }
        },
        (RepairState::CheckRequester, RepairEvent::Answer(alive)) => if *alive {
            RepairState::InspectElevated
        } else {
            RepairState::Finished { code: REPAIR_REQUESTER_CANCELLED }
        },
        (RepairState::InspectElevated, RepairEvent::Inspected(found)) => match plan_repair(found) {
            RepairAction::NothingToChange => RepairState::Finished {
                code: REPAIR_NOTHING_TO_CHANGE,
            },
            RepairAction::NotRepairable => RepairState::Finished {
                code: REPAIR_NOT_LOCALLY_REPAIRABLE,
            },
            RepairAction::Proceed => RepairState::CheckRequesterAgain,
        },
        (RepairState::CheckRequesterAgain, RepairEvent::Answer(alive)) => if *alive {
            RepairState::LocateElevated
        } else {
            RepairState::Finished { code: REPAIR_REQUESTER_CANCELLED }
        },
        (RepairState::LocateElevated, RepairEvent::Answer(found)) => if *found {
            RepairState::RunScript
        } else {
            RepairState::Finished { code: REPAIR_FAILED }
        },
        (RepairState::RunScript, RepairEvent::Repaired(outcome, ours)) => match outcome {
            Ok(ScriptOutcome::Facts(facts)) => RepairState::Finished {
                code: repair_outcome_code(&classify_facts(facts, ours)),
            },
            Ok(ScriptOutcome::RequesterCancelled) => RepairState::Finished {
                code: REPAIR_REQUESTER_CANCELLED,
            },
            _ => RepairState::Finished { code: REPAIR_FAILED },
        },
        _ => state,
    }
}

/// The state that a run of events leads to.
pub open spec fn repair_run(start: RepairState, events: Seq<RepairEvent>) -> RepairState
    decreases events.len(),
{
    if events.len() == 0 {
        start
    } else {
        repair_after(repair_run(start, events.drop_last()), events.last())
    }
}

/// How a repair that is about to change rules came there, at the latest
/// event: `at` names the event that led to each state.
pub open spec fn step_taken(
    start: RepairState,
    events: Seq<RepairEvent>,
    at: int,
    state: RepairState,
    event: RepairEvent,
) -> bool {
    0 <= at < events.len() && repair_run(start, events.take(at)) == state && events[at] == event
}

proof fn lemma_how_it_came(start: RepairState, events: Seq<RepairEvent>)
    requires
        start is OpenRequester,
    ensures
        repair_run(start, events) is RunScript ==> exists|k: int|
            step_taken(
                start,
                events,
                k,
                RepairState::LocateElevated,
                RepairEvent::Answer(true),
            ),
        repair_run(start, events) is LocateElevated ==> exists|k: int|
            step_taken(
                start,
                events,
                k,
                RepairState::CheckRequesterAgain,
                RepairEvent::Answer(true),
            ),
        repair_run(start, events) is CheckRequesterAgain ==> exists|k: int, found: Inspection|
            #[trigger] action_for(found) is Proceed && #[trigger] step_taken(
                start,
                events,
                k,
                RepairState::InspectElevated,
                RepairEvent::Inspected(found),
            ),
        repair_run(start, events) is InspectElevated ==> exists|k: int|
            step_taken(
                start,
                events,
                k,
                RepairState::CheckRequester,
                RepairEvent::Answer(true),
            ),
        repair_run(start, events) is CheckRequester ==> exists|k: int|
            step_taken(start, events, k, RepairState::OpenRequester, RepairEvent::Answer(true)),
    decreases events.len(),
{
    if events.len() > 0 {
        let rest = events.drop_last();
        let n = events.len() - 1;
        let last = events.last();
        lemma_how_it_came(start, rest);
        assert(rest =~= events.take(n));
        let before = repair_run(start, rest);
        let now = repair_run(start, events);
        if before != now {
            assert(step_taken(start, events, n, before, last));
            if now is RunScript || now is LocateElevated || now is InspectElevated
                || now is CheckRequester {
                assert(last == RepairEvent::Answer(true));
                assert(step_taken(start, events, n, before, RepairEvent::Answer(true)));
            }
            if now is CheckRequesterAgain {
                assert(action_for(last->Inspected_0) is Proceed);
            }
        } else {
            assert forall|k: int, state: RepairState, event: RepairEvent| #[trigger]
                step_taken(start, rest, k, state, event) implies step_taken(
                start,
                events,
                k,
                state,
                event,
            ) by {
                assert(rest.take(k) =~= events.take(k));
            }
        }
    }
}

proof fn lemma_earlier(
    start: RepairState,
    events: Seq<RepairEvent>,
    cut: int,
    at: int,
    state: RepairState,
    event: RepairEvent,
)
    requires
        0 <= cut <= events.len(),
        step_taken(start, events.take(cut), at, state, event),
    ensures
        step_taken(start, events, at, state, event),
        at < cut,
{
    assert(events.take(cut).take(at) =~= events.take(at));
}

/// Rules are changed only for a live requester: before the changing script may
/// run, the requester was verified, was found alive, an inspection found a
/// block that can be repaired, and the requester was found alive once more,
/// in that order.
pub proof fn rules_change_only_for_a_live_requester(
    requester: Option<u32>,
    created: Option<u64>,
    events: Seq<RepairEvent>,
)
    requires
        repair_run(repair_start(true, requester, created), events) is RunScript,
    ensures
        ({
            let start = repair_start(true, requester, created);
            exists|a: int, b: int, c: int, d: int, found: Inspection|
                a < b < c < d && #[trigger] step_taken(
                    start,
                    events,
                    a,
                    RepairState::OpenRequester,
                    RepairEvent::Answer(true),
                ) && #[trigger] step_taken(
                    start,
                    events,
                    b,
                    RepairState::CheckRequester,
                    RepairEvent::Answer(true),
                ) && action_for(found) is Proceed && #[trigger] step_taken(
                    start,
                    events,
                    c,
                    RepairState::InspectElevated,
                    RepairEvent::Inspected(found),
                ) && #[trigger] step_taken(
                    start,
                    events,
                    d,
                    RepairState::CheckRequesterAgain,
                    RepairEvent::Answer(true),
                )
        }),
{
    let start = repair_start(true, requester, created);
    lemma_finished_stays(start, events);
    lemma_how_it_came(start, events);
    let e = choose|k: int|
        step_taken(start, events, k, RepairState::LocateElevated, RepairEvent::Answer(true));
    lemma_how_it_came(start, events.take(e));
    let d = choose|k: int|
        step_taken(
            start,
            events.take(e),
            k,
            RepairState::CheckRequesterAgain,
            RepairEvent::Answer(true),
        );
    lemma_earlier(
        start,
        events,
        e,
        d,
        RepairState::CheckRequesterAgain,
        RepairEvent::Answer(true),
    );
    lemma_how_it_came(start, events.take(d));
    let (c, found) = choose|k: int, found: Inspection|
        #[trigger] action_for(found) is Proceed && #[trigger] step_taken(
            start,
            events.take(d),
            k,
            RepairState::InspectElevated,
            RepairEvent::Inspected(found),
        );
    lemma_earlier(
        start,
        events,
        d,
        c,
        RepairState::InspectElevated,
        RepairEvent::Inspected(found),
    );
    lemma_how_it_came(start, events.take(c));
    let b = choose|k: int|
        step_taken(
            start,
            events.take(c),
            k,
            RepairState::CheckRequester,
            RepairEvent::Answer(true),
        );
    lemma_earlier(start, events, c, b, RepairState::CheckRequester, RepairEvent::Answer(true));
    lemma_how_it_came(start, events.take(b));
    let a = choose|k: int|
        step_taken(
            start,
            events.take(b),
            k,
            RepairState::OpenRequester,
            RepairEvent::Answer(true),
        );
    lemma_earlier(start, events, b, a, RepairState::OpenRequester, RepairEvent::Answer(true));
}

proof fn lemma_finished_stays(start: RepairState, events: Seq<RepairEvent>)
    ensures
        start is Finished ==> repair_run(start, events) == start,
    decreases events.len(),
{
    if events.len() > 0 {
        lemma_finished_stays(start, events.drop_last());
    }
}

/// An elevated repair that does not know its requester is cancelled, whatever
/// happens: it inspects nothing and runs no script.
pub proof fn unknown_requester_cancels(
    requester: Option<u32>,
    created: Option<u64>,
    events: Seq<RepairEvent>,
)
    requires
        requester is None || created is None,
    ensures
        repair_run(repair_start(true, requester, created), events) == (RepairState::Finished {
            code: REPAIR_REQUESTER_CANCELLED,
        }),
{
    lemma_finished_stays(repair_start(true, requester, created), events);
}

/// Event `at` is the report of the changing script, with facts that classify
/// as clear.
pub open spec fn found_clear(
    start: RepairState,
    events: Seq<RepairEvent>,
    at: int,
    facts: FirewallFacts,
    ours: Vec<bool>,
) -> bool {
    &&& step_taken(
        start,
        events,
        at,
        RepairState::RunScript,
        RepairEvent::Repaired(Ok(ScriptOutcome::Facts(facts)), ours),
    )
    &&& firewall::finding_status(firewall::finding(facts, ours@)) == FirewallStatus::Clear
}

/// An elevated repair reports success only after the changing script ran and
/// the facts that it reported classify as clear.
pub proof fn success_means_the_block_is_gone(
    requester: Option<u32>,
    created: Option<u64>,
    events: Seq<RepairEvent>,
)
    requires
        repair_run(repair_start(true, requester, created), events) == (RepairState::Finished {
            code: REPAIR_CHANGED_OR_VERIFIED,
        }),
    ensures
        exists|at: int, facts: FirewallFacts, ours: Vec<bool>| #[trigger]
            found_clear(repair_start(true, requester, created), events, at, facts, ours),
    decreases events.len(),
{
    let start = repair_start(true, requester, created);
    lemma_finished_stays(start, events);
    let rest = events.drop_last();
    let n = events.len() - 1;
    assert(rest =~= events.take(n));
    let before = repair_run(start, rest);
    if before is Finished {
        success_means_the_block_is_gone(requester, created, rest);
        let (at, facts, ours) = choose|at: int, facts: FirewallFacts, ours: Vec<bool>| #[trigger]
            found_clear(start, rest, at, facts, ours);
        lemma_earlier(
            start,
            events,
            n,
            at,
            RepairState::RunScript,
            RepairEvent::Repaired(Ok(ScriptOutcome::Facts(facts)), ours),
        );
        assert(found_clear(start, events, at, facts, ours));
    } else {
        lemma_elevated(start, rest);
        let outcome = events.last()->Repaired_0;
        let ours = events.last()->Repaired_1;
        let facts = outcome->Ok_0->Facts_0;
        assert(found_clear(start, events, n, facts, ours));
    }
}

proof fn lemma_elevated(start: RepairState, events: Seq<RepairEvent>)
    requires
        start is OpenRequester,
    ensures
        ({
            let state = repair_run(start, events);
            state !is Inspect && state !is Locate && state !is Elevate
        }),
    decreases events.len(),
{
    if events.len() > 0 {
        lemma_elevated(start, events.drop_last());
    }
}

/// An unelevated repair never runs the changing script itself.
pub proof fn unelevated_repair_changes_nothing(
    requester: Option<u32>,
    created: Option<u64>,
    events: Seq<RepairEvent>,
)
    ensures
        repair_run(repair_start(false, requester, created), events) !is RunScript,
{
    lemma_unelevated(events);
}

proof fn lemma_unelevated(events: Seq<RepairEvent>)
    ensures
        ({
            let state = repair_run(RepairState::Inspect, events);
            state is Inspect || state is Locate || state is Elevate || state is Finished
        }),
    decreases events.len(),
{
    if events.len() > 0 {
        lemma_unelevated(events.drop_last());
    }
}

} // verus!
