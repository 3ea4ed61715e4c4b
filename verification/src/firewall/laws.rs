//! What the inspection and the repair of the firewall come to, told of the
//! facts themselves.

use vstd::prelude::*;
use vstd::string::*;

use super::child::{
    self, BoundedBuffer, BoundedRun, ChildEvent, ChildPoll, ChildState, PipeWait, Streams,
};
use super::repair::{self, Elevation, RepairEvent, RepairState};
use crate::firewall::{
    self, FirewallFacts, FirewallStatus, Inspection, ScriptOutcome, ScriptReadings,
};
use crate::text_ops;

verus! {

/// One of the active profiles goes by this name.
pub open spec fn profile_active(facts: FirewallFacts, name: Seq<char>) -> bool {
    exists|i: int| 0 <= i < facts.active_profiles@.len() && (#[trigger] facts.active_profiles@[i])@
        == name
}

/// The facts can be judged: there is an active profile, and each is one of the
/// three that Windows has and is described.
pub open spec fn judged(facts: FirewallFacts) -> bool {
    &&& facts.active_profiles@.len() > 0
    &&& forall|i: int|
        0 <= i < facts.active_profiles@.len() ==> {
            let name = (#[trigger] facts.active_profiles@[i])@;
            &&& name == "Domain"@ || name == "Private"@ || name == "Public"@
            &&& exists|k: int|
                0 <= k < facts.profiles@.len() && (#[trigger] facts.profiles@[k]).name@ == name
        }
}

/// The firewall is on for an active profile.
pub open spec fn guarded(facts: FirewallFacts) -> bool {
    exists|i: int|
        0 <= i < facts.profiles@.len() && (#[trigger] facts.profiles@[i]).enabled && profile_active(
            facts,
            facts.profiles@[i].name@,
        )
}

/// An active profile blocks everything that comes in.
pub open spec fn shut(facts: FirewallFacts) -> bool {
    exists|i: int|
        0 <= i < facts.profiles@.len() && (#[trigger] facts.profiles@[i]).block_all_inbound
            && profile_active(facts, facts.profiles@[i].name@)
}

/// An active profile blocks what goes out, unless allowed.
pub open spec fn shut_out(facts: FirewallFacts) -> bool {
    exists|i: int|
        0 <= i < facts.profiles@.len() && (#[trigger] facts.profiles@[i]).outbound_block
            && profile_active(facts, facts.profiles@[i].name@)
}

/// Rule `i` is an enabled block of this program for traffic that it uses, on
/// an active profile.
pub open spec fn hits(facts: FirewallFacts, ours: Seq<bool>, i: int) -> bool {
    &&& 0 <= i < facts.app_rules@.len()
    &&& ours[i]
    &&& facts.app_rules@[i].enabled
    &&& facts.app_rules@[i].action@ == "Block"@
    &&& {
        ||| facts.app_rules@[i].protocol@ == "TCP"@
        ||| facts.app_rules@[i].protocol@ == "UDP"@
        ||| facts.app_rules@[i].protocol@ == "Any"@
    }
    &&& exists|k: int|
        0 <= k < facts.app_rules@[i].profiles@.len() && profile_active(
            facts,
            (#[trigger] facts.app_rules@[i].profiles@[k])@,
        )
}

/// Nothing outranks the local rules.
pub open spec fn local_rules_decide(facts: FirewallFacts) -> bool {
    judged(facts) && guarded(facts) && !facts.managed_origin && !shut(facts)
}

/// The result is what an inspection of these facts gives.
pub open spec fn inspected(result: Inspection, facts: FirewallFacts, ours: Seq<bool>) -> bool {
    firewall::inspects(result, Some(Ok(ScriptOutcome::Facts(facts))), ours)
}

proof fn lemma_active(facts: FirewallFacts, name: Seq<char>)
    ensures
        facts.active(name) == profile_active(facts, name),
{
    let names = text_ops::texts(facts.active_profiles@);
    if facts.active(name) {
        let i = choose|i: int| 0 <= i < names.len() && names[i] == name;
        assert(facts.active_profiles@[i]@ == name);
    }
    if profile_active(facts, name) {
        let i = choose|i: int|
            0 <= i < facts.active_profiles@.len() && (#[trigger] facts.active_profiles@[i])@ == name;
        assert(names[i] == name);
    }
}

proof fn lemma_facts(facts: FirewallFacts, ours: Seq<bool>)
    ensures
        judged(facts) <==> facts.active_profiles@.len() > 0 && facts.all_names_valid()
            && facts.all_described(),
        guarded(facts) == facts.firewall_on(),
        shut(facts) == facts.blocks_all_inbound(),
        shut_out(facts) == facts.blocks_outbound(),
        forall|i: int| #[trigger] hits(facts, ours, i) == facts.blocking(ours, i),
{
    assert forall|name: Seq<char>| #[trigger] facts.active(name) == profile_active(facts, name) by {
        lemma_active(facts, name);
    }
    assert forall|i: int| 0 <= i < facts.profiles@.len() implies facts.in_use(i) == profile_active(
        facts,
        (#[trigger] facts.profiles@[i]).name@,
    ) by {
        lemma_active(facts, facts.profiles@[i].name@);
    }
    if judged(facts) {
        assert forall|i: int| 0 <= i < facts.active_profiles@.len() implies facts.described(
            (#[trigger] facts.active_profiles@[i])@,
        ) by {}
    }
    assert forall|i: int| #[trigger] hits(facts, ours, i) == facts.blocking(ours, i) by {
        if 0 <= i < facts.app_rules@.len() {
            let rule = facts.app_rules@[i];
            assert forall|k: int| 0 <= k < rule.profiles@.len() implies facts.active(
                (#[trigger] rule.profiles@[k])@,
            ) == profile_active(facts, rule.profiles@[k]@) by {
                lemma_active(facts, rule.profiles@[k]@);
            }
        }
    }
}

/// A rule that blocks this program is found, whatever else the rules are and
/// whichever of the three kinds of traffic it is about.
pub proof fn every_block_is_found(
    facts: FirewallFacts,
    ours: Seq<bool>,
    i: int,
    k: int,
    result: Inspection,
)
    requires
        inspected(result, facts, ours),
        local_rules_decide(facts),
        0 <= i < facts.app_rules@.len(),
        ours[i],
        facts.app_rules@[i].enabled,
        facts.app_rules@[i].action@ == "Block"@,
        facts.app_rules@[i].protocol@ == "TCP"@ || facts.app_rules@[i].protocol@ == "UDP"@
            || facts.app_rules@[i].protocol@ == "Any"@,
        0 <= k < facts.app_rules@[i].profiles@.len(),
        profile_active(facts, facts.app_rules@[i].profiles@[k]@),
    ensures
        result.status == FirewallStatus::Blocked,
{
    lemma_facts(facts, ours);
    assert(profile_active(facts, (facts.app_rules@[i].profiles@[k])@));
    assert(hits(facts, ours, i));
    assert(facts.blocking(ours, i));
}

/// Nothing else is reported as a block.
pub proof fn no_block_is_invented(facts: FirewallFacts, ours: Seq<bool>, result: Inspection)
    requires
        inspected(result, facts, ours),
        result.status == FirewallStatus::Blocked,
    ensures
        local_rules_decide(facts),
        exists|i: int| hits(facts, ours, i),
{
    lemma_facts(facts, ours);
    let i = choose|i: int| #[trigger] facts.blocking(ours, i);
    assert(hits(facts, ours, i));
}

/// A repair is offered exactly where every rule that blocks is a plain local
/// one.
pub proof fn repair_is_offered_for_plain_rules(
    facts: FirewallFacts,
    ours: Seq<bool>,
    result: Inspection,
)
    requires
        inspected(result, facts, ours),
    ensures
        result.repairable <==> result.status == FirewallStatus::Blocked && forall|i: int|
            #[trigger] hits(facts, ours, i) ==> !facts.app_rules@[i].restricted,
{
    lemma_facts(facts, ours);
    if result.status == FirewallStatus::Blocked {
        if facts.any_restricted(ours) {
            let i = choose|i: int|
                #[trigger] facts.blocking(ours, i) && facts.app_rules@[i].restricted;
            assert(hits(facts, ours, i));
        } else {
            assert forall|i: int| #[trigger] hits(facts, ours, i) implies !facts.app_rules@[i].restricted by {
                assert(facts.blocking(ours, i));
            }
        }
    }
}

/// Facts that cannot be judged are never taken for an answer, and facts that
/// can be are.
pub proof fn unknown_means_unjudged(facts: FirewallFacts, ours: Seq<bool>, result: Inspection)
    requires
        inspected(result, facts, ours),
    ensures
        result.status == FirewallStatus::Unknown <==> !judged(facts),
        result.status == FirewallStatus::Unknown ==> !result.repairable,
{
    lemma_facts(facts, ours);
}

/// A policy is blamed exactly where it stands in the way: one that is managed,
/// one that shuts everything out, or one that lets nothing out while no local
/// rule blocks.
pub proof fn policy_is_blamed(facts: FirewallFacts, ours: Seq<bool>, result: Inspection)
    requires
        inspected(result, facts, ours),
    ensures
        result.status == FirewallStatus::Managed <==> judged(facts) && guarded(facts) && (
        facts.managed_origin || shut(facts) || (shut_out(facts) && !(exists|i: int|
            hits(facts, ours, i)))),
{
    lemma_facts(facts, ours);
    if exists|i: int| hits(facts, ours, i) {
        let i = choose|i: int| hits(facts, ours, i);
        assert(facts.blocking(ours, i));
    }
    if facts.any_blocking(ours) {
        let i = choose|i: int| #[trigger] facts.blocking(ours, i);
        assert(hits(facts, ours, i));
    }
    if facts.any_restricted(ours) {
        let i = choose|i: int| #[trigger] facts.blocking(ours, i) && facts.app_rules@[i].restricted;
        assert(hits(facts, ours, i));
    }
}

/// The way is clear exactly where the firewall is off, or on with nothing in
/// the way; and an inspection always gives one of the four answers.
pub proof fn clear_means_nothing_in_the_way(
    facts: FirewallFacts,
    ours: Seq<bool>,
    result: Inspection,
)
    requires
        inspected(result, facts, ours),
    ensures
        result.status == FirewallStatus::Clear <==> judged(facts) && (!guarded(facts) || (
        !facts.managed_origin && !shut(facts) && !shut_out(facts) && !(exists|i: int|
            hits(facts, ours, i)))),
        result.status == FirewallStatus::Clear ==> !result.repairable,
{
    policy_is_blamed(facts, ours, result);
    unknown_means_unjudged(facts, ours, result);
    lemma_facts(facts, ours);
    if exists|i: int| hits(facts, ours, i) {
        let i = choose|i: int| hits(facts, ours, i);
        assert(facts.blocking(ours, i));
    }
    if result.status == FirewallStatus::Blocked {
        no_block_is_invented(facts, ours, result);
    }
}

/// The line for the user says what the verdict is about.
pub proof fn line_tells_the_verdict(facts: FirewallFacts, ours: Seq<bool>, result: Inspection)
    requires
        inspected(result, facts, ours),
    ensures
        result.status == FirewallStatus::Blocked ==> text_ops::mentions(
            result.detail@,
            "blocks Orange"@,
        ),
        result.status == FirewallStatus::Blocked && !result.repairable ==> text_ops::mentions(
            result.detail@,
            "not automatically repairable"@,
        ),
        result.status == FirewallStatus::Clear ==> text_ops::mentions(
            result.detail@,
            if guarded(facts) {
                "No matching inbound block rule"@
            } else {
                "is off"@
            },
        ),
        result.status == FirewallStatus::Managed && facts.managed_origin ==> text_ops::mentions(
            result.detail@,
            "Managed Windows policy"@,
        ),
        result.status == FirewallStatus::Managed && !facts.managed_origin && shut(facts)
            ==> text_ops::mentions(result.detail@, "Block all incoming"@),
        result.status == FirewallStatus::Managed && !facts.managed_origin && !shut(facts)
            ==> text_ops::mentions(result.detail@, "outbound block"@),
{
    lemma_facts(facts, ours);
    let text = result.detail@;
    reveal_strlit("blocks Orange");
    reveal_strlit("not automatically repairable");
    reveal_strlit("No matching inbound block rule");
    reveal_strlit("is off");
    reveal_strlit("Managed Windows policy");
    reveal_strlit("Block all incoming");
    reveal_strlit("outbound block");
    reveal_strlit("Windows Firewall is off for the active network profile.");
    reveal_strlit("Managed Windows policy prevents a local Orange repair.");
    reveal_strlit("Block all incoming connections is active for the active network profile.");
    reveal_strlit("A scoped local rule blocks Orange; it is not automatically repairable.");
    reveal_strlit("A local rule blocks Orange on the active network profile.");
    reveal_strlit("A default outbound block policy is active for the active network profile.");
    reveal_strlit("No matching inbound block rule found for Orange on the active network profile.");
    if result.status == FirewallStatus::Blocked {
        if result.repairable {
            assert(text.subrange(13, 13int + 13) =~= "blocks Orange"@);
        } else {
            assert(text.subrange(20, 20int + 13) =~= "blocks Orange"@);
            assert(text.subrange(41, 41int + 28) =~= "not automatically repairable"@);
        }
    } else if result.status == FirewallStatus::Clear {
        if guarded(facts) {
            assert(text.subrange(0, 0int + 30) =~= "No matching inbound block rule"@);
        } else {
            assert(text.subrange(17, 17int + 6) =~= "is off"@);
        }
    } else if result.status == FirewallStatus::Managed {
        if facts.managed_origin {
            assert(text.subrange(0, 0int + 22) =~= "Managed Windows policy"@);
        } else if shut(facts) {
            assert(text.subrange(0, 0int + 18) =~= "Block all incoming"@);
        } else {
            assert(text.subrange(10, 10int + 14) =~= "outbound block"@);
        }
    }
}

/// A scan that could not be made, or not be read, is never taken for an
/// answer.
pub proof fn no_scan_no_answer(
    outcome: Option<Result<ScriptOutcome, String>>,
    ours: Seq<bool>,
    result: Inspection,
)
    requires
        firewall::inspects(result, outcome, ours),
        !(outcome matches Some(Ok(ScriptOutcome::Facts(_)))),
    ensures
        result.status == FirewallStatus::Unknown,
        !result.repairable,
{
}

/// Facts count only where the script ran to its end in time, nothing of its
/// output was cut off, it exited with 0 and the requester, where there is one,
/// was still there. Then they are the facts that were read.
pub proof fn facts_come_from_a_whole_run(
    run: BoundedRun,
    requester_alive: Option<bool>,
    readings: Option<ScriptReadings>,
)
    ensures
        firewall::script_read(run, requester_alive, readings) matches Ok(ScriptOutcome::Facts(_))
            <==> requester_alive != Some(false) && !run.timed_out && !run.truncated
            && run.exit_code == Some(0i32) && readings is Some && readings->Some_0.facts is Some,
        firewall::script_read(run, requester_alive, readings) matches Ok(ScriptOutcome::Facts(facts))
            ==> readings->Some_0.facts == Some(facts),
{
}

/// A requester that is gone cancels whatever the script did; otherwise the
/// script itself must say so, with exit code 0 and no facts.
pub proof fn cancellation_is_heard(
    run: BoundedRun,
    requester_alive: Option<bool>,
    readings: Option<ScriptReadings>,
)
    ensures
        firewall::script_read(run, requester_alive, readings)
            == Ok::<ScriptOutcome, Seq<char>>(ScriptOutcome::RequesterCancelled)
            <==> requester_alive == Some(false) || (!run.timed_out && !run.truncated
            && run.exit_code == Some(0i32) && readings is Some && readings->Some_0.facts is None
            && readings->Some_0.requester_cancelled == Some(true)),
{
}

/// A script that failed for a reason of its own exits with 1 and is quoted;
/// what does not fit is an error of one word, which tells what was wrong.
pub proof fn script_failures_are_told(
    run: BoundedRun,
    requester_alive: Option<bool>,
    readings: Option<ScriptReadings>,
)
    requires
        requester_alive != Some(false),
    ensures
        firewall::script_read(run, requester_alive, readings) matches Ok(
            ScriptOutcome::ScriptError(text),
        ) ==> run.exit_code == Some(1i32) && readings is Some && readings->Some_0.error == Some(
            text,
        ),
        run.timed_out ==> firewall::script_read(run, requester_alive, readings) == Err::<
            ScriptOutcome,
            Seq<char>,
        >("timeout"@),
        !run.timed_out && run.truncated ==> firewall::script_read(run, requester_alive, readings)
            == Err::<ScriptOutcome, Seq<char>>("truncated"@),
        !run.timed_out && !run.truncated && run.exit_code is None ==> firewall::script_read(
            run,
            requester_alive,
            readings,
        ) == Err::<ScriptOutcome, Seq<char>>("no-exit-code"@),
        !run.timed_out && !run.truncated && run.exit_code is Some && readings is Some
            && run.exit_code->Some_0 != 0 && run.exit_code->Some_0 != 1 ==> firewall::script_read(
            run,
            requester_alive,
            readings,
        ) == Err::<ScriptOutcome, Seq<char>>("unexpected-exit"@),
        !run.timed_out && !run.truncated && run.exit_code == Some(1i32) && readings is Some
            && readings->Some_0.error is Some ==> firewall::script_read(
            run,
            requester_alive,
            readings,
        ) == Ok::<ScriptOutcome, Seq<char>>(
            ScriptOutcome::ScriptError(readings->Some_0.error->Some_0),
        ),
{
}

/// The prefix of a canonical path goes, and nothing else: what carries it loses
/// those four characters, and what does not stays as it is.
pub proof fn prefix_goes_alone(path: Seq<char>)
    ensures
        firewall::without_verbatim_prefix(seq!['\\', '\\', '?', '\\'] + path) == path,
        path.len() < 4 || path[0] != '\\' || path[1] != '\\' || path[2] != '?' || path[3] != '\\'
            ==> firewall::without_verbatim_prefix(path) == path,
{
    let prefix = seq!['\\', '\\', '?', '\\'];
    assert((prefix + path).take(4) =~= prefix);
    assert((prefix + path).skip(4) =~= path);
    if path.len() >= 4 && path.take(4) == prefix {
        assert(path.take(4)[0] == path[0] && path.take(4)[1] == path[1]);
        assert(path.take(4)[2] == path[2] && path.take(4)[3] == path[3]);
    }
}

/// An inspection leads to a repair exactly where it offers one; where the way
/// is clear there is nothing to do.
pub proof fn repair_follows_the_offer(found: Inspection)
    requires
        found.repairable ==> found.status == FirewallStatus::Blocked,
    ensures
        repair::action_for(found) is Proceed <==> found.repairable,
        repair::action_for(found) is NothingToChange <==> found.status == FirewallStatus::Clear,
{
}

/// The exit codes of a repair keep its outcomes apart.
pub proof fn outcomes_have_codes_of_their_own()
    ensures
        firewall::REPAIR_CHANGED_OR_VERIFIED == 0,
        firewall::REPAIR_NOTHING_TO_CHANGE == 2,
        firewall::REPAIR_NOT_LOCALLY_REPAIRABLE == 3,
        firewall::REPAIR_UAC_DECLINED == 4,
        firewall::REPAIR_FAILED == 5,
        firewall::REPAIR_REQUESTER_CANCELLED == 6,
{
}

/// An unelevated repair inspects; where a repair is offered it finds itself
/// and asks for rights, and then reports what the elevated helper reports, or
/// that the user declined.
pub proof fn unelevated_repair_asks_for_rights(
    requester: Option<u32>,
    created: Option<u64>,
    found: Inspection,
    code: u32,
)
    requires
        found.repairable ==> found.status == FirewallStatus::Blocked,
    ensures
        ({
            let start = repair::repair_start(false, requester, created);
            let inspected = repair::repair_after(start, RepairEvent::Inspected(found));
            let located = repair::repair_after(inspected, RepairEvent::Answer(true));
            &&& found.status == FirewallStatus::Clear ==> inspected == (RepairState::Finished {
                code: 2,
            })
            &&& found.status != FirewallStatus::Clear && !found.repairable ==> inspected == (
            RepairState::Finished { code: 3 })
            &&& found.repairable ==> {
                &&& located is Elevate
                &&& repair::repair_after(inspected, RepairEvent::Answer(false)) == (
                RepairState::Finished { code: 5 })
                &&& repair::repair_after(located, RepairEvent::Elevated(Elevation::Declined)) == (
                RepairState::Finished { code: 4 })
                &&& code <= i32::MAX ==> repair::repair_after(
                    located,
                    RepairEvent::Elevated(Elevation::Waited { exit_code: Some(code) }),
                ) == (RepairState::Finished { code: code as i32 })
                &&& repair::repair_after(located, RepairEvent::Elevated(Elevation::WaitTimedOut))
                    == (RepairState::Finished { code: 5 })
            }
        }),
{
}

/// An elevated repair on behalf of a requester that is alive throughout runs
/// the changing script where a repair is offered, and reports success exactly
/// where the facts afterwards are clear; a requester that is gone at any of the
/// questions cancels it.
pub proof fn elevated_repair_goes_through(
    requester: u32,
    created: u64,
    found: Inspection,
    facts: FirewallFacts,
    ours: Vec<bool>,
    after: Inspection,
)
    requires
        found.repairable,
        found.status == FirewallStatus::Blocked,
        inspected(after, facts, ours@),
    ensures
        ({
            let yes = RepairEvent::Answer(true);
            let no = RepairEvent::Answer(false);
            let opened = repair::repair_start(true, Some(requester), Some(created));
            let checked = repair::repair_after(opened, yes);
            let inspecting = repair::repair_after(checked, yes);
            let again = repair::repair_after(inspecting, RepairEvent::Inspected(found));
            let locating = repair::repair_after(again, yes);
            let script = repair::repair_after(locating, yes);
            let cancelled = RepairState::Finished { code: 6 };
            let done = repair::repair_after(
                script,
                RepairEvent::Repaired(Ok(ScriptOutcome::Facts(facts)), ours),
            );
            &&& repair::repair_after(opened, no) == cancelled
            &&& repair::repair_after(checked, no) == cancelled
            &&& repair::repair_after(again, no) == cancelled
            &&& script is RunScript
            &&& done == (RepairState::Finished {
                code: if after.status == FirewallStatus::Clear {
                    0
                } else {
                    5
                },
            })
        }),
{
}

/// A wanted child that can be started and contained is given its input, and is
/// then watched for as long as it is wanted, runs and is in time.
pub proof fn wanted_child_is_run()
    ensures
        ({
            let yes = ChildEvent::Answer(true);
            let spawn = child::child_after(ChildState::AskBeforeStart, yes);
            let job = child::child_after(spawn, yes);
            let assign = child::child_after(job, yes);
            let pipes = child::child_after(assign, yes);
            let asked = child::child_after(pipes, ChildEvent::Done);
            let polled = child::child_after(asked, yes);
            let clock = child::child_after(polled, ChildEvent::Polled(ChildPoll::Running));
            let asleep = child::child_after(clock, yes);
            &&& spawn is Spawn
            &&& job is CreateJob
            &&& assign is AssignJob
            &&& pipes is StartPipes
            &&& polled is Poll
            &&& asleep is Sleep
            &&& child::child_after(asleep, ChildEvent::Done) == asked
        }),
{
}

/// A child that is not wanted any more, is late, or cannot be asked is killed
/// and counts as timed out; one that exited does not, and either keeps the
/// exit code that was found.
pub proof fn child_is_stopped(exit_code: Option<i32>)
    ensures
        ({
            let no = ChildEvent::Answer(false);
            let killed = child::child_after(
                child::child_after(ChildState::AskAgain, no),
                ChildEvent::Reaped(exit_code),
            );
            let exited = child::child_after(
                ChildState::Poll,
                ChildEvent::Polled(ChildPoll::Exited(exit_code)),
            );
            &&& child::child_after(ChildState::AskAgain, no) is Kill
            &&& child::child_after(ChildState::CheckClock, no) is Kill
            &&& child::child_after(ChildState::Poll, ChildEvent::Polled(ChildPoll::Unreadable))
                is Kill
            &&& child::child_after(killed, ChildEvent::Done) == (ChildState::Stopped {
                timed_out: true,
                exit_code,
            })
            &&& child::child_after(exited, ChildEvent::Done) == (ChildState::Stopped {
                timed_out: false,
                exit_code,
            })
        }),
{
}

/// A child that cannot be contained is discarded before it gets any input, and
/// the run counts as never started; so does one that could not be spawned.
pub proof fn uncontained_child_is_discarded()
    ensures
        ({
            let no = ChildEvent::Answer(false);
            let discarded = child::child_after(ChildState::CreateJob, no);
            &&& discarded is Discard
            &&& child::child_after(ChildState::AssignJob, no) == discarded
            &&& child::child_after(discarded, ChildEvent::Done) is Unstarted
            &&& child::child_after(ChildState::Spawn, no) is Unstarted
        }),
{
}

/// Output is whole exactly where all input was taken and both streams ended
/// within their bounds.
pub proof fn whole_output_needs_every_stream(streams: Streams)
    ensures
        !child::incomplete(streams) <==> streams.written == Some(true) && streams.stdout is Some
            && !streams.stdout->Some_0.1 && streams.stderr_truncated == Some(false),
{
}

/// A run that ended is reported with its own output, exit code and timeout; it
/// counts as whole exactly where its streams are. One that never started has
/// nothing to tell.
pub proof fn ended_run_is_reported(
    timed_out: bool,
    exit_code: Option<i32>,
    stdout: Vec<u8>,
    cut: bool,
    written: bool,
    noisy: bool,
    run: BoundedRun,
    none: BoundedRun,
    streams: Streams,
)
    requires
        streams.written == Some(written),
        streams.stdout == Some((stdout, cut)),
        streams.stderr_truncated == Some(noisy),
        call_ensures(
            child::bounded_run,
            (ChildState::Stopped { timed_out, exit_code }, streams),
            run,
        ),
        call_ensures(child::bounded_run, (ChildState::Unstarted, streams), none),
    ensures
        run.timed_out == timed_out,
        run.exit_code == exit_code,
        run.stdout@ == stdout@,
        run.truncated <==> !written || cut || noisy,
        none.stdout@.len() == 0 && !none.timed_out && none.exit_code is None,
{
}

/// What is kept of a stream is its beginning, as much as may be kept, and
/// whether there was more.
pub proof fn beginning_of_a_stream_is_kept(buffer: BoundedBuffer, stream: Seq<u8>)
    requires
        buffer.holds(stream),
    ensures
        buffer.kept@.len() <= buffer.cap,
        buffer.kept@.len() <= stream.len(),
        forall|i: int| 0 <= i < buffer.kept@.len() ==> buffer.kept@[i] == #[trigger] stream[i],
        buffer.truncated <==> buffer.kept@.len() < stream.len(),
        stream.len() <= buffer.cap ==> buffer.kept@ == stream,
{
    if stream.len() <= buffer.cap {
        assert(buffer.kept@ =~= stream);
    }
}

/// A pipe's worker is joined where it finished, given up at the deadline, and
/// waited for until then.
pub proof fn pipes_are_waited_for(finished: bool, now: u64, deadline: u64, wait: PipeWait)
    requires
        call_ensures(child::pipe_wait, (finished, now, deadline), wait),
    ensures
        finished <==> wait is Join,
        !finished && now < deadline <==> wait is Sleep,
        !finished && now >= deadline <==> wait is Abort,
{
}

/// A process is the one that asked where it can be opened and was created at
/// the time that was told; its two halves give that time.
pub proof fn requester_is_known_by_its_creation(
    opened: bool,
    created: Option<u64>,
    expected: u64,
    verified: bool,
    high: u32,
    low: u32,
    time: u64,
)
    requires
        call_ensures(repair::open_verified, (opened, created, expected), verified),
        call_ensures(repair::process_creation, (high, low), time),
    ensures
        verified ==> opened,
        created is None ==> !verified,
        opened && created is Some ==> (verified <==> created->0 == expected),
        time / 0x1_0000_0000 == high,
        time % 0x1_0000_0000 == low,
{
}

/// The elevated helper is told who asked, by number and creation time.
pub proof fn helper_is_told_who_asked(pid: u32, created: u64)
    ensures
        text_ops::begins_with(
            repair::elevation_text(pid, created),
            "repair-network --elevated --requester "@ + text_ops::decimal(pid as nat),
        ),
        text_ops::closes_with(
            repair::elevation_text(pid, created),
            " --requester-created "@ + text_ops::decimal(created as nat),
        ),
{
    let text = repair::elevation_text(pid, created);
    let start = "repair-network --elevated --requester "@ + text_ops::decimal(pid as nat);
    let end = " --requester-created "@ + text_ops::decimal(created as nat);
    assert(text.take(start.len() as int) =~= start);
    assert(text.skip(text.len() - end.len()) =~= end);
}

/// The code of an elevation is the helper's own where there is one that can be
/// told; a user who said no is told apart from every failure.
pub proof fn helper_answers_for_the_repair(elevation: Elevation, code: u32)
    ensures
        elevation is Declined ==> repair::elevation_code(elevation) == 4,
        code <= 0x7fff_ffff ==> repair::elevation_code(
            Elevation::Waited { exit_code: Some(code) },
        ) == code,
        code > 0x7fff_ffff ==> repair::elevation_code(
            Elevation::Waited { exit_code: Some(code) },
        ) == 5,
        elevation is NoCreationTime || elevation is NotLaunched || elevation is NoProcess
            || elevation is WaitTimedOut ==> repair::elevation_code(elevation) == 5,
        repair::elevation_code(Elevation::Waited { exit_code: None }) == 5,
{
}

/// A repair is verified where nothing blocks afterward; then alone its code is
/// zero.
pub proof fn repair_is_verified_afterward(post: Inspection, code: i32)
    requires
        call_ensures(repair::repair_outcome_code, (&post,), code),
    ensures
        code == 0 <==> post.status is Clear,
        !(post.status is Clear) ==> code == 5,
{
}

/// A script's failure to answer is told by its reason, and what it answers is
/// handed on.
pub proof fn script_is_taken_at_its_word(
    run: BoundedRun,
    code: i32,
    readings: Option<ScriptReadings>,
    outcome: Result<ScriptOutcome, String>,
    parsed: Result<ScriptOutcome, String>,
)
    requires
        call_ensures(firewall::run_facts_script, (&run, None::<bool>, readings), outcome),
        call_ensures(firewall::parse_script_outcome, (code, readings), parsed),
    ensures
        run.timed_out ==> outcome is Err && outcome->Err_0@ == "timeout"@,
        !run.timed_out && run.truncated ==> outcome is Err && outcome->Err_0@ == "truncated"@,
        outcome is Ok ==> !run.timed_out && !run.truncated && run.exit_code is Some,
        !run.timed_out && !run.truncated && run.exit_code == Some(code) ==> (outcome is Ok
            <==> parsed is Ok) && (outcome is Ok ==> outcome->Ok_0 == parsed->Ok_0),
        parsed is Ok ==> readings is Some && (code == 0 || code == 1),
        parsed matches Ok(ScriptOutcome::Facts(facts)) ==> code == 0 && readings->0.facts == Some(
            facts,
        ),
{
}

/// An elevated repair opens its requester, whom it knows by number and creation
/// time; with one of the two missing it does nothing.
pub proof fn elevated_repair_knows_its_requester(
    elevated: bool,
    requester: Option<u32>,
    created: Option<u64>,
    state: RepairState,
)
    requires
        call_ensures(repair::repair, (elevated, requester, created), state),
    ensures
        !elevated <==> state is Inspect,
        elevated && requester is Some && created is Some <==> state is OpenRequester,
        elevated && (requester is None || created is None) ==> state == (RepairState::Finished {
            code: 6,
        }),
{
}

} // verus!
