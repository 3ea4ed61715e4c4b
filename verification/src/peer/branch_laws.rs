//! How a viewer's branch comes and goes.

use vstd::prelude::*;
use vstd::string::*;

use super::host_branch::{
    self as branch, AddViewer, CommandPlace, LinkPhase, RemoveAction, SenderSetting,
    StartupEvent, StartupKeyframeTrigger, StartupKeyframes, TeardownCommand, TeardownProblem,
    TeeLink, UnlinkPlan,
};
use crate::pipeline::{Property, PropertyValue};
use crate::text_ops;

verus! {

/// Startup keyframes are asked for once, with the first report of a connection.
pub proof fn startup_is_asked_for_once(trigger: StartupKeyframeTrigger)
    requires
        !trigger.requested,
    ensures
        branch::triggered(trigger).0,
        !branch::triggered(branch::triggered(trigger).1).0,
{
}

/// The delays before the further keyframes are a quarter, a half and three
/// quarters of a second.
pub proof fn delays_grow_by_a_quarter(index: usize, delay: u64)
    requires
        index < 3,
        call_ensures(branch::startup_delay_ms, (index,), delay),
    ensures
        delay == 250 * (index + 1),
{
}

/// A keyframe that was asked for is followed by a delay, and the delay by the
/// next keyframe, four in all; one that cannot be asked for ends the series.
pub proof fn each_delay_gives_a_keyframe(n: u8)
    requires
        n < 3,
    ensures
        branch::startup_after(
            StartupKeyframes::Requesting { sent: n },
            StartupEvent::Requested(true),
        ) == (StartupKeyframes::Waiting { delay: n }),
        branch::startup_after(
            StartupKeyframes::Waiting { delay: n },
            StartupEvent::TimedOut,
        ) == (StartupKeyframes::Requesting { sent: (n + 1) as u8 }),
        branch::startup_after(
            StartupKeyframes::Requesting { sent: 3 },
            StartupEvent::Requested(true),
        ) is Idle,
        branch::startup_after(
            StartupKeyframes::Requesting { sent: n },
            StartupEvent::Requested(false),
        ) is Idle,
        branch::startup_after(StartupKeyframes::Idle, StartupEvent::Request) == (
        StartupKeyframes::Requesting { sent: 0 }),
        branch::startup_after(StartupKeyframes::Idle, StartupEvent::TimedOut) is Idle,
{
}

/// A further keyframe is asked for while the viewer is connected; the first
/// needs the encoder only.
pub proof fn further_keyframes_need_a_viewer(
    tee: bool,
    first: bool,
    bin: bool,
    connected: bool,
    yes: bool,
)
    requires
        call_ensures(branch::startup_request_allowed, (tee, first, bin, connected), yes),
    ensures
        !tee ==> !yes,
        tee && first ==> yes,
        tee && !first ==> (yes <==> bin && connected),
{
}

/// Two keyframes are asked for at least a fifth of a second apart; a request
/// that failed makes room for the next at once.
pub proof fn requests_keep_their_distance(last: Option<u64>, first: u64, second: u64)
    requires
        first <= second,
        branch::reserved(last, first).0,
    ensures
        branch::reserved(branch::reserved(last, first).1, second).0 <==> second - first
            >= 200_000_000,
        branch::reserved(None, first).0,
        ({
            let freed = branch::taken_back(branch::reserved(last, first).1, first);
            branch::reserved(freed, second).0
        }),
        second > first ==> branch::taken_back(Some(second), first) == Some(second),
        !branch::reserved(branch::reserved(last, first).1, second).0 ==> branch::reserved(
            branch::reserved(last, first).1,
            second,
        ).1 == Some(first),
{
}

/// The queue of a branch is bounded, and an old buffer gives way to a new one,
/// so that a slow viewer holds up nobody.
pub proof fn slow_viewer_holds_up_nobody(video: Vec<Property>, audio: Vec<Property>)
    requires
        call_ensures(branch::branch_queue, (true,), video),
        call_ensures(branch::branch_queue, (false,), audio),
    ensures
        video@.len() == 2,
        video@[0].name@ == "max-size-buffers"@ && video@[0].value == PropertyValue::Uint(200),
        video@[1].name@ == "leaky"@ && video@[1].value == PropertyValue::Text("downstream"),
        audio@.len() == 2,
        audio@[0].name@ == "max-size-buffers"@ && audio@[0].value == PropertyValue::Uint(10),
        audio@[1].name@ == "leaky"@ && audio@[1].value == PropertyValue::Text("downstream"),
{
}

/// Lost video is sent again, and sound goes first on the network.
pub proof fn video_is_repaired_and_sound_goes_first(
    video: bool,
    has_sender: bool,
    setting: SenderSetting,
)
    requires
        call_ensures(branch::sender_setting, (video, has_sender), setting),
    ensures
        video <==> setting is Retransmission,
        !video && has_sender <==> setting is HighPriority,
{
}

/// Where all goes well, a branch gets its two pads, all its elements, one after
/// the other, and its two links, and then it is linked.
pub proof fn branch_is_linked_in_order(count: usize, outcomes: Seq<bool>)
    requires
        0 < count,
        count + 4 <= usize::MAX,
        outcomes.len() <= count + 4,
        forall|i: int| 0 <= i < outcomes.len() ==> #[trigger] outcomes[i],
    ensures
        ({
            let link = branch::link_run(count, outcomes);
            let n = outcomes.len();
            &&& n == 0 ==> link.phase is RequestBinPad
            &&& n == 1 ==> link.phase is RequestTeePad
            &&& 2 <= n < count + 2 ==> link.phase is Adding && link.added == n - 2
            &&& n == count + 2 ==> link.phase is LinkElements
            &&& n == count + 3 ==> link.phase is LinkBinPad
            &&& n == count + 4 ==> link.phase is Linked
            &&& !link.failed && link.count == count
            &&& n >= count + 2 ==> link.added == count
            &&& n < 2 ==> link.added == 0
            &&& n >= 1 ==> link.bin_pad
            &&& n >= 2 ==> link.tee_pad
        }),
    decreases outcomes.len(),
{
    if outcomes.len() > 0 {
        let rest = outcomes.drop_last();
        assert forall|i: int| 0 <= i < rest.len() implies #[trigger] rest[i] by {
            assert(rest[i] == outcomes[i]);
        }
        branch_is_linked_in_order(count, rest);
        assert(outcomes[outcomes.len() - 1]);
    }
}

/// A branch that has its pads and cannot go on is stopped, unlinked, gives its
/// two pads back and then loses its elements, in this order, however these go.
pub proof fn branch_is_undone_in_order(
    link: TeeLink,
    a: bool,
    b: bool,
    c: bool,
    d: bool,
    e: bool,
)
    requires
        link.phase is Adding || link.phase is LinkElements || link.phase is LinkBinPad,
    ensures
        ({
            let stop = branch::link_after(link, false);
            let unlink = branch::link_after(stop, a);
            let tee = branch::link_after(unlink, b);
            let bin = branch::link_after(tee, c);
            let remove = branch::link_after(bin, d);
            let failed = branch::link_after(remove, e);
            &&& stop.phase is StopElements && stop.failed
            &&& unlink.phase is UnlinkBinPad
            &&& tee.phase is ReleaseTeePad
            &&& bin.phase is ReleaseBinPad && !bin.tee_pad
            &&& remove.phase is RemoveElements && !remove.bin_pad
            &&& failed.phase is Failed && failed.added == 0
        }),
{
}

/// A pad that is refused ends the linking; a pad that was granted before is
/// given back, and the refusal is told.
pub proof fn refused_pads_are_told(
    link: TeeLink,
    ok: bool,
    bin: Option<&'static str>,
    tee: Option<&'static str>,
)
    requires
        call_ensures(branch::refused_pad, (LinkPhase::RequestBinPad,), bin),
        call_ensures(branch::refused_pad, (LinkPhase::RequestTeePad,), tee),
    ensures
        link.phase is RequestBinPad ==> branch::link_after(link, false).phase is Failed,
        link.phase is RequestTeePad ==> {
            let back = branch::link_after(link, false);
            &&& back.phase is GiveBackBinPad
            &&& branch::link_after(back, ok).phase is Failed
            &&& !branch::link_after(back, ok).bin_pad
        },
        bin matches Some(text) && text@ == "webrtcbin refused a sink pad"@,
        tee matches Some(text) && text@ == "tee refused a source pad"@,
{
}

/// Where all goes well, a viewer gets its connection, its video, its sound
/// where there is any, the flow into each of them, its keyframes and an offer,
/// in this order.
pub proof fn viewer_is_added_in_order(has_audio: bool)
    ensures
        ({
            let make = branch::new_viewer(has_audio);
            let into = branch::add_after(make, true);
            let video = branch::add_after(into, true);
            let next = branch::add_after(video, true);
            let sync = if has_audio {
                branch::add_after(next, true)
            } else {
                next
            };
            let flow = branch::add_after(sync, true);
            let more = branch::add_after(flow, true);
            let frames = if has_audio {
                branch::add_after(more, true)
            } else {
                more
            };
            let offer = branch::add_after(frames, true);
            let added = branch::add_after(offer, true);
            &&& make.phase is MakeBin
            &&& into.phase is AddBin
            &&& video.phase is LinkVideo && video.in_pipeline
            &&& has_audio ==> next.phase is LinkAudio
            &&& sync.phase is SyncBin
            &&& flow.phase is Connect && flow.connected == 0
            &&& has_audio ==> flow.links == 2 && more.phase is Connect && more.connected == 1
            &&& !has_audio ==> flow.links == 1
            &&& frames.phase is SpawnKeyframes && frames.connected == frames.links
            &&& offer.phase is Offer
            &&& added.phase is Added
        }),
{
}

/// A viewer that cannot be added is taken out again as far as it was in.
pub proof fn failing_viewer_is_taken_out(add: AddViewer, ok: bool)
    ensures
        ({
            let next = branch::add_after(add, false);
            &&& add.phase is MakeBin || add.phase is AddBin ==> next.phase is Failed
            &&& add.phase is LinkVideo || add.phase is LinkAudio || add.phase is SyncBin
                || add.phase is Connect || add.phase is SpawnKeyframes ==> {
                let gone = branch::add_after(next, ok);
                &&& next.phase is Remove
                &&& gone.phase is Failed && gone.links == 0 && gone.connected == 0
                    && !gone.in_pipeline
            }
        }),
{
}

/// A viewer is taken down link by link: its workers end first, each link is
/// taken off the encoder, the connection is stopped, each link is removed, and
/// the connection last.
pub proof fn viewer_is_taken_down_in_order(links: int, has_keyframes: bool, i: int)
    requires
        0 <= i < links <= usize::MAX,
    ensures
        ({
            let steps = branch::removal(links, has_keyframes);
            let first: int = if has_keyframes {
                2
            } else {
                1
            };
            &&& steps.len() == first + links + 1 + links + 1
            &&& has_keyframes ==> steps[0] is JoinKeyframes
            &&& steps[first - 1] is DropDiagnostics
            &&& steps[first + i] == RemoveAction::Unlink(i as usize)
            &&& steps[first + links] is StopBin
            &&& steps[first + links + 1 + i] == RemoveAction::RemoveLink(i as usize)
            &&& steps.last() is RemoveBin
        }),
{
}

/// A link that data flows through is taken off once it is idle, where that can
/// be told; one that is not linked is left alone.
pub proof fn links_are_taken_off_when_idle(
    has_sink_pad: bool,
    linked: bool,
    has_probe: bool,
    plan: UnlinkPlan,
)
    requires
        call_ensures(
            branch::block_and_unlink_tee_branch,
            (has_sink_pad, linked, has_probe),
            plan,
        ),
    ensures
        plan.unlink <==> has_sink_pad && linked,
        plan.wait <==> has_sink_pad && linked && has_probe,
        plan.remove_probe == plan.wait,
{
}

/// Commands are done in the order in which they were handed over, each once.
pub proof fn first_command_is_done_first(
    waiting: Seq<TeardownCommand>,
    a: TeardownCommand,
    b: TeardownCommand,
)
    ensures
        branch::taken(branch::handed_over(branch::handed_over(Seq::empty(), a), b)) == (
            Some(a),
            seq![b],
        ),
        branch::taken(Seq::empty()).0 is None,
        branch::handed_over(waiting, a).len() == waiting.len() + 1,
        branch::handed_over(waiting, a).last() == a,
        waiting.len() > 0 ==> branch::taken(waiting).0 == Some(waiting[0]) && branch::taken(
            branch::handed_over(waiting, a),
        ) == (Some(waiting[0]), branch::handed_over(branch::taken(waiting).1, a)),
{
    let both = branch::handed_over(branch::handed_over(Seq::empty(), a), b);
    assert(both.drop_first() =~= seq![b]);
    if waiting.len() > 0 {
        assert(waiting.push(a).drop_first() =~= waiting.drop_first().push(a));
    }
}

/// A command that the worker cannot take is done all the same.
pub proof fn commands_are_never_lost(sent: bool, place: CommandPlace)
    requires
        call_ensures(branch::enqueue_command, (sent,), place),
    ensures
        sent <==> place is Worker,
        !sent <==> place is BlockingTask,
{
}

/// A failure of the tasks around the teardown is quoted; the others are told
/// in words of their own.
pub proof fn teardown_failures_are_told(error: Seq<char>)
    ensures
        text_ops::closes_with(
            branch::teardown_problem_text(TeardownProblem::FallbackTask, error),
            error,
        ),
        text_ops::closes_with(
            branch::teardown_problem_text(TeardownProblem::JoinTask, error),
            error,
        ),
        text_ops::mentions(
            branch::teardown_problem_text(TeardownProblem::WorkerPanicked, error),
            "panicked"@,
        ),
        text_ops::mentions(
            branch::teardown_problem_text(TeardownProblem::LostAcknowledgment, error),
            "before draining"@,
        ),
{
    let a = branch::teardown_problem_text(TeardownProblem::FallbackTask, error);
    assert(a.skip(a.len() - error.len()) =~= error);
    let b = branch::teardown_problem_text(TeardownProblem::JoinTask, error);
    assert(b.skip(b.len() - error.len()) =~= error);
    reveal_strlit("viewer teardown worker panicked");
    reveal_strlit("panicked");
    reveal_strlit("viewer teardown stopped before draining");
    reveal_strlit("before draining");
    let c = branch::teardown_problem_text(TeardownProblem::WorkerPanicked, error);
    assert(c.subrange(23, 23int + 8) =~= "panicked"@);
    let d = branch::teardown_problem_text(TeardownProblem::LostAcknowledgment, error);
    assert(d.subrange(24, 24int + 15) =~= "before draining"@);
}

/// No two viewers share a name, in the pipeline or in the records.
pub proof fn viewers_have_names_of_their_own(
    a: &str,
    b: &str,
    name_a: String,
    name_b: String,
    i: u64,
    j: u64,
    label_i: String,
    label_j: String,
)
    requires
        call_ensures(branch::viewer_bin_name, (a,), name_a),
        call_ensures(branch::viewer_bin_name, (b,), name_b),
        call_ensures(branch::diagnostic_label, (i,), label_i),
        call_ensures(branch::diagnostic_label, (j,), label_j),
    ensures
        name_a@ == "viewer-"@ + a@,
        a@ != b@ ==> name_a@ != name_b@,
        i != j ==> label_i@ != label_j@,
{
    let n = "viewer-"@.len() as int;
    assert(name_a@.skip(n) =~= a@);
    assert(name_b@.skip(n) =~= b@);
    let m = "host-viewer-"@.len() as int;
    assert(label_i@.skip(m) =~= text_ops::decimal(i as nat));
    assert(label_j@.skip(m) =~= text_ops::decimal(j as nat));
    text_ops::decimal_is_read_back(i as nat);
    text_ops::decimal_is_read_back(j as nat);
}

} // verus!
