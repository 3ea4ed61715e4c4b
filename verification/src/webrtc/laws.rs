//! What becomes of a stream that is sent and received.

use vstd::prelude::*;
use vstd::string::*;

use super::attach::{self, Attach, AttachAction};
use super::loopback::{
    self, LoopbackPlan, Negotiation, NegotiationAction, NegotiationEvent, PadAction, Peer,
    StreamProblem,
};
use super::{
    ControlsLock, ElementPlan, InitialVolume, Output, PadCaps, ReceiveBranch,
    ReceiveKind, ReceiveWorkerRegistry, RtpCaps, WorkerStep, WorkerWait,
};
use crate::json;
use crate::pipeline::{self, CaptureSettings, Codec, Property, PropertyValue};
use crate::text_ops;
use crate::webrtc;

verus! {

/// The properties hold this one.
pub open spec fn holds(properties: Seq<Property>, name: Seq<char>, value: PropertyValue) -> bool {
    exists|i: int|
        0 <= i < properties.len() && (#[trigger] properties[i]).name@ == name && properties[i].value
            == value
}

proof fn lemma_holds(properties: Seq<Property>, i: int)
    requires
        0 <= i < properties.len(),
    ensures
        holds(properties, properties[i].name@, properties[i].value),
{
}

/// A stream that a sender announces is received with the elements of its codec:
/// unpacked, parsed and decoded, in this order.
pub proof fn received_as_it_was_sent(
    codec: Codec,
    fps: u32,
    caps: RtpCaps,
    encoding: String,
    output: Output,
    selection: Option<String>,
    rate: Option<u32>,
    branch: Result<ReceiveBranch, String>,
)
    requires
        call_ensures(webrtc::rtp_caps, (codec, fps), caps),
        encoding@ == caps.encoding_name@,
        call_ensures(
            webrtc::build_receive_branch,
            (&Some(encoding), &output, &selection, rate),
            branch,
        ),
    ensures
        branch matches Ok(plan) && {
            let elements = plan.elements@;
            &&& plan.codec == codec
            &&& elements.len() >= 6
            &&& elements[0].factory@ == pipeline::depayloader_text(codec)
            &&& elements[1].factory@ == pipeline::parser_text(codec)
            &&& codec !is Av1 ==> elements[2].factory@ == pipeline::decoder_text(codec)
            &&& codec is Av1 && selection is None ==> elements[2].factory@ == "d3d11av1dec"@
            &&& codec is Av1 && output is File ==> elements[2].factory@ == "d3d11av1dec"@
            &&& codec is Av1 && output is Window && (selection matches Some(word) && word@
                == "software"@) ==> elements[2].factory@ == "dav1ddec"@
        },
{
    lemma_encoding(codec);
    if let Ok(plan) = branch {
        let plans = webrtc::plans(plan.elements@);
        assert(plans == webrtc::receive_plans(codec, json::optional_text(selection), output));
        assert(plans.len() == plan.elements@.len());
        assert(plans[0] == plan.elements@[0]@);
        assert(plans[1] == plan.elements@[1]@);
        assert(plans[2] == plan.elements@[2]@);
    }
}

proof fn lemma_encoding(codec: Codec)
    ensures
        pipeline::codec_of_encoding(pipeline::rtp_text(codec)) == Some(codec),
{
    reveal_strlit("AV1");
    reveal_strlit("H264");
    reveal_strlit("H265");
    assert("AV1"@.len() == 3 && "H264"@[3] == '4' && "H265"@[3] == '5');
}

/// After a loss the receiver asks for a keyframe and waits for it, and shows no
/// picture that is damaged.
pub proof fn losses_are_recovered_from(codec: Codec, selection: Option<Seq<char>>, output: Output)
    ensures
        ({
            let plans = webrtc::receive_plans(codec, selection, output);
            let yes = PropertyValue::Flag(true);
            &&& holds(plans[0].properties, "request-keyframe"@, yes)
            &&& holds(plans[0].properties, "wait-for-keyframe"@, yes)
            &&& holds(plans[2].properties, "automatic-request-sync-points"@, yes)
            &&& holds(plans[2].properties, "discard-corrupted-frames"@, yes)
        }),
{
    let plans = webrtc::receive_plans(codec, selection, output);
    lemma_holds(plans[0].properties, 0);
    lemma_holds(plans[0].properties, 1);
    lemma_holds(plans[2].properties, 0);
    lemma_holds(plans[2].properties, 1);
}

/// Who joins later can read the stream too: the headers of H.264 and H.265 are
/// sent again with each keyframe.
pub proof fn headers_are_repeated(codec: Codec, plan: ElementPlan)
    requires
        call_ensures(webrtc::build_video_payloader, (codec,), plan),
    ensures
        plan.factory@ == pipeline::payloader_text(codec),
        codec is H264 || codec is H265 ==> holds(
            plan.properties@,
            "config-interval"@,
            PropertyValue::Int((-1) as i32),
        ),
        codec is H264 ==> holds(
            plan.properties@,
            "aggregate-mode"@,
            PropertyValue::Text("zero-latency"),
        ),
{
    assert(plan.properties@ == plan@.properties);
    if codec is H264 {
        lemma_holds(plan.properties@, 0);
        lemma_holds(plan.properties@, 1);
    }
    if codec is H265 {
        lemma_holds(plan.properties@, 0);
    }
}

/// A window shows the newest picture at once: only one waits, an older one
/// gives way, and the sink waits for no clock.
pub proof fn newest_picture_is_shown_at_once(codec: Codec, selection: Option<Seq<char>>)
    ensures
        ({
            let plans = webrtc::receive_plans(codec, selection, Output::Window);
            &&& plans.len() == 6
            &&& plans[3].factory == "queue"@
            &&& holds(plans[3].properties, "max-size-buffers"@, PropertyValue::Uint(1))
            &&& holds(plans[3].properties, "max-size-bytes"@, PropertyValue::Uint(0))
            &&& holds(plans[3].properties, "max-size-time"@, PropertyValue::Long(0))
            &&& holds(plans[3].properties, "leaky"@, PropertyValue::Text("downstream"))
            &&& plans[4].factory == "overlaycomposition"@
            &&& plans[5].factory == "d3d11videosink"@
            &&& holds(plans[5].properties, "sync"@, PropertyValue::Flag(false))
            &&& holds(plans[5].properties, "async"@, PropertyValue::Flag(false))
            &&& holds(plans[5].properties, "force-aspect-ratio"@, PropertyValue::Flag(true))
        }),
{
    let plans = webrtc::receive_plans(codec, selection, Output::Window);
    lemma_holds(plans[3].properties, 0);
    lemma_holds(plans[3].properties, 1);
    lemma_holds(plans[3].properties, 2);
    lemma_holds(plans[3].properties, 3);
    lemma_holds(plans[5].properties, 0);
    lemma_holds(plans[5].properties, 1);
    lemma_holds(plans[5].properties, 2);
}

/// A stream for a file is written there, encoded again in its own codec; one
/// for a window is shown, with the rate that the sender told.
pub proof fn stream_ends_where_it_should(
    codec: Codec,
    encoding: String,
    path: String,
    selection: Option<String>,
    rate: Option<u32>,
    written: ReceiveBranch,
    shown: ReceiveBranch,
)
    requires
        pipeline::codec_of_encoding(encoding@) == Some(codec),
        call_ensures(
            webrtc::build_receive_branch,
            (&Some(encoding), &Output::File(path), &selection, rate),
            Ok::<ReceiveBranch, String>(written),
        ),
        call_ensures(
            webrtc::build_receive_branch,
            (&Some(encoding), &Output::Window, &selection, rate),
            Ok::<ReceiveBranch, String>(shown),
        ),
    ensures
        written.location matches Some(file) && file@ == path@,
        shown.location is None,
        shown.reveal,
        !written.reveal,
        shown.shown_fps == rate,
        written.shown_fps is None,
        written.elements@.len() == 7,
        written.elements@[3].factory@ == pipeline::encoder_text(codec),
        written.elements@[4].factory@ == pipeline::parser_text(codec),
        written.elements@[5].factory@ == "matroskamux"@,
        written.elements@[6].factory@ == "filesink"@,
{
    let plans = webrtc::plans(written.elements@);
    assert(plans.len() == written.elements@.len());
    assert(plans[3] == written.elements@[3]@);
    assert(plans[4] == written.elements@[4]@);
    assert(plans[5] == written.elements@[5]@);
    assert(plans[6] == written.elements@[6]@);
}

/// A pad without an encoding, or with one that nobody knows, gets no branch.
pub proof fn unknown_streams_are_refused(
    encoding: Option<String>,
    output: Output,
    selection: Option<String>,
    rate: Option<u32>,
    branch: Result<ReceiveBranch, String>,
)
    requires
        encoding matches Some(name) ==> name@ != "AV1"@ && name@ != "H264"@ && name@ != "H265"@,
        call_ensures(
            webrtc::build_receive_branch,
            (&encoding, &output, &selection, rate),
            branch,
        ),
    ensures
        branch is Err,
        encoding matches Some(name) ==> (name@ != "OPUS"@ ==> webrtc::encoding_kind(Some(name@))
            is None),
        encoding is None ==> webrtc::encoding_kind(None) is None,
{
}

/// Sound is unpacked, decoded, converted, set to the viewer's volume and
/// played, in this order; the second choice of a sink is only another sink.
pub proof fn sound_goes_to_the_speakers(primary: bool)
    ensures
        ({
            let plans = webrtc::audio_plans(primary);
            &&& plans.len() == 6
            &&& plans[0].factory == "rtpopusdepay"@
            &&& plans[1].factory == "opusdec"@
            &&& holds(plans[1].properties, "plc"@, PropertyValue::Flag(true))
            &&& plans[2].factory == "audioconvert"@
            &&& plans[3].factory == "audioresample"@
            &&& plans[4].factory == "volume"@
            &&& holds(plans[4].properties, "name"@, PropertyValue::Text("viewer-volume"))
            &&& primary ==> plans[5].factory == "wasapi2sink"@
            &&& !primary ==> plans[5].factory == "wasapisink"@
            &&& holds(plans[5].properties, "buffer-time"@, PropertyValue::Signed(40_000))
            &&& holds(plans[5].properties, "latency-time"@, PropertyValue::Signed(10_000))
        }),
        webrtc::audio_plans(true).take(5) == webrtc::audio_plans(false).take(5),
{
    let plans = webrtc::audio_plans(primary);
    lemma_holds(plans[1].properties, 0);
    lemma_holds(plans[4].properties, 0);
    lemma_holds(plans[5].properties, 1);
    lemma_holds(plans[5].properties, 2);
    assert(webrtc::audio_plans(true).take(5) =~= webrtc::audio_plans(false).take(5));
}

/// A muted stream starts silent, and no other does.
pub proof fn muted_stream_starts_silent(muted: Option<bool>, volume: InitialVolume)
    requires
        call_ensures(webrtc::initial_volume, (muted,), volume),
    ensures
        volume is Silent <==> muted == Some(true),
        volume is Overlay <==> muted == Some(false),
{
}

/// The caps that a pad has fixed go before those that it allows.
pub proof fn fixed_caps_go_first(
    current: PadCaps,
    allowed: Option<PadCaps>,
    fixed: Option<String>,
    open: PadCaps,
    offered: Option<String>,
)
    requires
        call_ensures(webrtc::encoding_name, (&Some(current), &allowed), fixed),
        call_ensures(webrtc::encoding_name, (&None::<PadCaps>, &Some(open)), offered),
    ensures
        json::optional_text(fixed) == json::optional_text(current.encoding_name),
        json::optional_text(offered) == json::optional_text(open.encoding_name),
{
}

/// The frame rate that a sender announces is the one that the receiver reads,
/// where it is a plausible one; any other is not shown.
pub proof fn announced_rate_is_read(
    codec: Codec,
    fps: u32,
    caps: RtpCaps,
    text: String,
    rate: Option<u32>,
)
    requires
        call_ensures(webrtc::rtp_caps, (codec, fps), caps),
        text@ == caps.frame_rate@,
        call_ensures(webrtc::frame_rate_from_rtp_caps, (&Some(text),), rate),
    ensures
        1 <= fps <= 480 ==> rate == Some(fps),
        fps == 0 || fps > 480 ==> rate is None,
{
    text_ops::decimal_is_read_back(fps as nat);
}

/// The first stream of sound and the first of each video codec are accepted,
/// by a registry that is open.
pub proof fn first_streams_are_accepted<A, V>(codec: Codec, registry: ReceiveWorkerRegistry<A, V>)
    ensures
        webrtc::encoding_kind(Some("OPUS"@)) == Some(ReceiveKind::Audio),
        webrtc::encoding_kind(Some(pipeline::rtp_text(codec))) == Some(ReceiveKind::Video),
        registry.may_claim(ReceiveKind::Audio) <==> registry.accepting && !registry.audio_claimed,
        registry.may_claim(ReceiveKind::Video) <==> registry.accepting && !registry.video_claimed,
        registry.begun(ReceiveKind::Audio).audio_claimed,
        registry.begun(ReceiveKind::Video).video_claimed,
        registry.begun(ReceiveKind::Audio).video_claimed == registry.video_claimed,
        registry.begun(ReceiveKind::Video).audio_claimed == registry.audio_claimed,
{
    reveal_strlit("OPUS");
    reveal_strlit("AV1");
    reveal_strlit("H264");
    reveal_strlit("H265");
    assert("OPUS"@[0] == 'O' && "AV1"@[0] == 'A' && "H264"@[0] == 'H' && "H265"@[0] == 'H');
}

/// The workers that two streams brought are handed out when the session closes,
/// each once, whichever stream was ready first; nothing is accepted after that.
pub proof fn workers_come_back<A, V>(
    registry: ReceiveWorkerRegistry<A, V>,
    audio: Option<A>,
    video: Option<V>,
)
    requires
        registry.accepting,
        registry.active_callbacks == 0,
        !registry.audio_claimed,
        !registry.video_claimed,
    ensures
        ({
            let both = registry.begun(ReceiveKind::Audio).begun(ReceiveKind::Video);
            let first = both.with_audio(audio).with_video(video);
            let second = both.with_video(video).with_audio(audio);
            &&& first == second
            &&& both.handed_out() is None
            &&& both.with_audio(audio).handed_out() is None
            &&& first.handed_out() matches Some(workers) && workers.audio == audio
                && workers.bitrate == video
            &&& !first.closed().accepting
            &&& first.closed().audio is None && first.closed().bitrate is None
            &&& !first.may_claim(ReceiveKind::Audio) && !first.may_claim(ReceiveKind::Video)
        }),
{
}

/// A stream whose branch could not be built leaves the registry as it was.
pub proof fn failed_stream_leaves_no_trace<A, V>(
    registry: ReceiveWorkerRegistry<A, V>,
    kind: ReceiveKind,
)
    requires
        registry.wf(),
        registry.may_claim(kind),
    ensures
        registry.begun(kind).without(kind) == registry,
        registry.begun(kind).closed().without(kind).accepting == false,
        registry.begun(kind).closed().without(kind).audio == registry.audio,
        registry.begun(kind).closed().without(kind).bitrate == registry.bitrate,
{
}

/// A worker stops when it is told to or when the controls are gone, and at no
/// other time; it acts only on controls that it holds.
pub proof fn workers_stop_when_told(
    wait: WorkerWait,
    lock: ControlsLock,
    received: u64,
    elapsed: u64,
    volume: WorkerStep,
    bitrate: WorkerStep,
)
    requires
        call_ensures(webrtc::audio_control_step, (wait, lock), volume),
        call_ensures(webrtc::incoming_bitrate_step, (wait, lock, received, elapsed), bitrate),
    ensures
        wait is Stopped ==> volume is Stop && bitrate is Stop,
        lock is Gone ==> volume is Stop && bitrate is Stop,
        wait is TimedOut && lock is Held ==> volume is Apply,
        wait is TimedOut && lock is Held && received > 0 && elapsed > 0 ==> bitrate is Apply,
        wait is TimedOut && lock is Held && (received == 0 || elapsed == 0) ==> bitrate is Skip,
        wait is TimedOut && lock is Busy ==> volume is Skip && bitrate is Skip,
{
}

/// Where every action goes well, every element is added and then started, in
/// order, with the links made in between; a blocked pad is opened last.
pub proof fn branch_is_built_in_order(count: usize, blocked: bool, outcomes: Seq<bool>)
    requires
        count > 0,
        2 * count + 3 <= usize::MAX,
        outcomes.len() <= 2 * count + 3,
        forall|i: int| 0 <= i < outcomes.len() ==> #[trigger] outcomes[i],
    ensures
        ({
            let state = attach::attach_run(count, blocked, outcomes);
            let next = attach::action_of(state);
            let n = outcomes.len();
            &&& n < count ==> next == Some(AttachAction::Add(n as usize))
            &&& n == count ==> next == Some(AttachAction::LinkElements)
            &&& n == count + 1 ==> next == Some(AttachAction::LinkPad)
            &&& count + 2 <= n < 2 * count + 2 ==> next == Some(
                AttachAction::Sync((n - count - 2) as usize),
            )
            &&& n == 2 * count + 2 && blocked ==> next == Some(AttachAction::Unblock)
            &&& n == 2 * count + 2 && !blocked ==> next is None
            &&& n == 2 * count + 3 ==> next is None
            &&& next is None ==> state.phase is Done && !state.failed
        }),
    decreases outcomes.len(),
{
    lemma_smooth(count, blocked, outcomes);
}

proof fn lemma_smooth(count: usize, blocked: bool, outcomes: Seq<bool>)
    requires
        count > 0,
        2 * count + 3 <= usize::MAX,
        outcomes.len() <= 2 * count + 3,
        forall|i: int| 0 <= i < outcomes.len() ==> #[trigger] outcomes[i],
    ensures
        ({
            let state = attach::attach_run(count, blocked, outcomes);
            let n = outcomes.len();
            &&& state.count == count && state.blocked == blocked && !state.failed && state.removed
                == 0
            &&& n < count ==> state.phase is Adding && state.added == n && state.synced == 0
            &&& n >= count ==> state.added == count
            &&& n == count ==> state.phase is LinkingElements && state.synced == 0
            &&& n == count + 1 ==> state.phase is LinkingPad && state.synced == 0
            &&& count + 2 <= n < 2 * count + 2 ==> state.phase is Syncing && state.synced == n
                - count - 2
            &&& n == 2 * count + 2 && blocked ==> state.phase is Unblocking
            &&& n == 2 * count + 2 && !blocked ==> state.phase is Done
            &&& n == 2 * count + 3 ==> state.phase is Done
        }),
    decreases outcomes.len(),
{
    if outcomes.len() > 0 {
        let rest = outcomes.drop_last();
        assert forall|i: int| 0 <= i < rest.len() implies #[trigger] rest[i] by {
            assert(rest[i] == outcomes[i]);
        }
        lemma_smooth(count, blocked, rest);
        assert(outcomes[outcomes.len() - 1]);
    }
}

/// A transaction from some state on.
pub open spec fn attach_from(state: Attach, outcomes: Seq<bool>) -> Attach
    decreases outcomes.len(),
{
    if outcomes.len() == 0 {
        state
    } else {
        attach::attach_after(attach_from(state, outcomes.drop_last()), outcomes.last())
    }
}

/// Where any step fails, the pad is unlinked and every element that was added
/// is taken out again, the last one first, whether that goes well or not; a
/// blocked pad is opened last.
pub proof fn failure_takes_everything_out(state: Attach, outcomes: Seq<bool>)
    requires
        attach::sound(state),
        !state.failed,
        state.phase !is Unblocking,
        state.phase !is Done,
        outcomes.len() <= state.added + 2,
    ensures
        ({
            let failed = attach::attach_after(state, false);
            let left = attach_from(failed, outcomes);
            let next = attach::action_of(left);
            let n = outcomes.len();
            &&& n == 0 ==> next == Some(AttachAction::UnlinkPad)
            &&& 1 <= n <= state.added ==> next == Some(
                AttachAction::Remove((state.added - n) as usize),
            )
            &&& n == state.added + 1 && state.blocked ==> next == Some(AttachAction::Unblock)
            &&& n == state.added + 1 && !state.blocked ==> next is None
            &&& n == state.added + 2 ==> next is None
            &&& left.failed
        }),
    decreases outcomes.len(),
{
    lemma_undone(state, outcomes);
}

proof fn lemma_undone(state: Attach, outcomes: Seq<bool>)
    requires
        attach::sound(state),
        !state.failed,
        state.phase !is Unblocking,
        state.phase !is Done,
        outcomes.len() <= state.added + 2,
    ensures
        ({
            let left = attach_from(attach::attach_after(state, false), outcomes);
            let n = outcomes.len();
            &&& left.failed && left.added == state.added && left.blocked == state.blocked
            &&& n == 0 ==> left.phase is Unlinking && left.removed == 0
            &&& 1 <= n <= state.added ==> left.phase is Removing && left.removed == n - 1
            &&& n == state.added + 1 && state.blocked ==> left.phase is Unblocking
            &&& n == state.added + 1 && !state.blocked ==> left.phase is Done
            &&& n == state.added + 2 ==> left.phase is Done
        }),
    decreases outcomes.len(),
{
    if outcomes.len() > 0 {
        lemma_undone(state, outcomes.drop_last());
    }
}

/// A branch counts as standing exactly where nothing is left to do and nothing
/// failed.
pub proof fn standing_means_done(state: Attach, yes: bool)
    requires
        attach::sound(state),
        call_ensures(Attach::succeeded, (&state,), yes),
    ensures
        yes <==> attach::action_of(state) is None && !state.failed,
{
}

/// What is done to a branch is recorded under a name that tells the medium;
/// what is undone is not recorded.
pub proof fn records_tell_the_medium(action: AttachAction)
    ensures
        action is UnlinkPad || action is Remove <==> attach::operation_text(
            action,
            ReceiveKind::Video,
        ) is None,
        action is UnlinkPad || action is Remove <==> attach::operation_text(
            action,
            ReceiveKind::Audio,
        ) is None,
        action is LinkElements || action is LinkPad || action is Unblock ==> text_ops::mentions(
            attach::operation_text(action, ReceiveKind::Video)->0,
            "video"@,
        ) && text_ops::mentions(attach::operation_text(action, ReceiveKind::Audio)->0, "audio"@),
        action is LinkElements || action is LinkPad ==> text_ops::begins_with(
            attach::operation_text(action, ReceiveKind::Video)->0,
            "link-"@,
        ),
{
    reveal_strlit("video");
    reveal_strlit("audio");
    reveal_strlit("link-");
    let video = attach::operation_text(action, ReceiveKind::Video);
    let audio = attach::operation_text(action, ReceiveKind::Audio);
    match action {
        AttachAction::LinkElements => {
            reveal_strlit("link-video-receive-elements");
            reveal_strlit("link-audio-receive-elements");
            assert(video->0.subrange(5, 5int + 5) =~= "video"@);
            assert(audio->0.subrange(5, 5int + 5) =~= "audio"@);
            assert(video->0.take(5) =~= "link-"@);
        },
        AttachAction::LinkPad => {
            reveal_strlit("link-incoming-video-rtp-pad");
            reveal_strlit("link-incoming-audio-rtp-pad");
            assert(video->0.subrange(14, 14int + 5) =~= "video"@);
            assert(audio->0.subrange(14, 14int + 5) =~= "audio"@);
            assert(video->0.take(5) =~= "link-"@);
        },
        AttachAction::Unblock => {
            reveal_strlit("remove-incoming-video-block-probe");
            reveal_strlit("remove-incoming-audio-block-probe");
            assert(video->0.subrange(16, 16int + 5) =~= "video"@);
            assert(audio->0.subrange(16, 16int + 5) =~= "audio"@);
        },
        _ => {},
    }
}

/// Every candidate of one peer is added to the other, at any time, and changes
/// nothing else.
pub proof fn candidates_cross_over(state: Negotiation)
    ensures
        loopback::negotiation_after(state, NegotiationEvent::Candidate(Peer::Sender)) == (
            state,
            seq![NegotiationAction::AddCandidate(Peer::Receiver)],
        ),
        loopback::negotiation_after(state, NegotiationEvent::Candidate(Peer::Receiver)) == (
            state,
            seq![NegotiationAction::AddCandidate(Peer::Sender)],
        ),
{
}

/// Where both promises are kept, the sender offers, the receiver takes the
/// offer and answers, and the sender takes the answer: then the exchange is
/// complete. A broken promise is told, and nothing is set.
pub proof fn sender_offers_and_receiver_answers()
    ensures
        ({
            let needed = loopback::negotiation_after(Negotiation::Idle, NegotiationEvent::Needed);
            let offered = loopback::negotiation_after(needed.0, NegotiationEvent::Offer(true));
            let answered = loopback::negotiation_after(offered.0, NegotiationEvent::Answer(true));
            &&& needed.1 == seq![NegotiationAction::CreateOffer(Peer::Sender)]
            &&& offered.1.len() == 3
            &&& offered.1[0] == NegotiationAction::SetLocal(Peer::Sender)
            &&& offered.1[1] == NegotiationAction::SetRemote(Peer::Receiver)
            &&& offered.1[2] == NegotiationAction::CreateAnswer(Peer::Receiver)
            &&& answered.0 is Complete
            &&& answered.1.len() == 3
            &&& answered.1[0] == NegotiationAction::SetLocal(Peer::Receiver)
            &&& answered.1[1] == NegotiationAction::SetRemote(Peer::Sender)
            &&& answered.1[2] == NegotiationAction::SayComplete
            &&& loopback::negotiation_after(needed.0, NegotiationEvent::Offer(false)) == (
                Negotiation::Failed,
                seq![NegotiationAction::SayOfferFailed],
            )
            &&& loopback::negotiation_after(offered.0, NegotiationEvent::Answer(false)) == (
                Negotiation::Failed,
                seq![NegotiationAction::SayAnswerFailed],
            )
        }),
{
}

/// A stream that is accepted gets a branch; only for a second video stream is
/// there no output left, and its medium is given back.
pub proof fn accepted_streams_get_a_branch(
    accepted: Option<ReceiveKind>,
    output_left: bool,
    action: PadAction,
)
    requires
        call_ensures(loopback::loopback_pad, (accepted, output_left), action),
    ensures
        accepted == Some(ReceiveKind::Audio) <==> action is BuildAudio,
        accepted == Some(ReceiveKind::Video) && output_left <==> action is BuildVideo,
        accepted == Some(ReceiveKind::Video) && !output_left <==> action is GiveBack,
        accepted is None <==> action is Ignore,
{
}

/// A loopback sends what it captures, announced in its own codec and rate; it
/// is planned exactly where no element of its chain is missing.
pub proof fn loopback_sends_what_it_captures(
    settings: CaptureSettings,
    installed: Vec<String>,
    output: Output,
    plan: Result<LoopbackPlan, String>,
)
    requires
        call_ensures(loopback::run_loopback, (&settings, &installed, &output), plan),
    ensures
        (forall|i: int|
            0 <= i < pipeline::capture_elements(settings).len() ==> text_ops::texts(
                installed@,
            ).contains(#[trigger] pipeline::capture_elements(settings)[i])) ==> plan is Ok,
        plan matches Ok(made) ==> {
            &&& made.capture@ == pipeline::capture_chain(settings)
            &&& pipeline::codec_of_encoding(made.caps.encoding_name@) == Some(settings.codec)
            &&& 1 <= settings.fps <= 480 ==> webrtc::advertised_rate(made.caps.frame_rate@) == Some(
                settings.fps,
            )
            &&& made.payloader.factory@ == pipeline::payloader_text(settings.codec)
            &&& made.live_output <==> output is Window
            &&& made.sender@ != made.receiver@
        },
{
    let required = pipeline::capture_elements(settings);
    let there = text_ops::texts(installed@);
    if forall|i: int| 0 <= i < required.len() ==> there.contains(#[trigger] required[i]) {
        lemma_nothing_absent(required, there);
    }
    lemma_encoding(settings.codec);
    text_ops::decimal_is_read_back(settings.fps as nat);
    reveal_strlit("sender");
    reveal_strlit("receiver");
    assert("sender"@.len() == 6 && "receiver"@.len() == 8);
    if let Ok(made) = plan {
        assert(made.payloader@.factory == made.payloader.factory@);
    }
}

proof fn lemma_nothing_absent(required: Seq<Seq<char>>, there: Seq<Seq<char>>)
    requires
        forall|i: int| 0 <= i < required.len() ==> there.contains(#[trigger] required[i]),
    ensures
        text_ops::absent(required, there).len() == 0,
    decreases required.len(),
{
    if required.len() > 0 {
        let rest = required.drop_last();
        assert forall|i: int| 0 <= i < rest.len() implies there.contains(#[trigger] rest[i]) by {
            assert(rest[i] == required[i]);
        }
        assert(there.contains(required[required.len() - 1]));
        lemma_nothing_absent(rest, there);
    }
}

/// What goes wrong with a stream is told word for word, and the three kinds
/// are told apart.
pub proof fn stream_problems_are_quoted(problem: StreamProblem, error: Seq<char>)
    ensures
        text_ops::closes_with(loopback::stream_problem_text(problem, error), error),
        problem is AudioBranch ==> text_ops::mentions(
            loopback::stream_problem_text(problem, error),
            "audio branch"@,
        ),
        problem is VideoBranch ==> text_ops::mentions(
            loopback::stream_problem_text(problem, error),
            "receive branch"@,
        ),
        problem is Bitrate ==> text_ops::mentions(
            loopback::stream_problem_text(problem, error),
            "bitrate telemetry disabled"@,
        ),
{
    let text = loopback::stream_problem_text(problem, error);
    assert(text.skip(text.len() - error.len()) =~= error);
    match problem {
        StreamProblem::AudioBranch => {
            reveal_strlit("[webrtc] could not build audio branch: ");
            reveal_strlit("audio branch");
            assert(text.subrange(25, 25int + 12) =~= "audio branch"@);
        },
        StreamProblem::VideoBranch => {
            reveal_strlit("[webrtc] could not build receive branch: ");
            reveal_strlit("receive branch");
            assert(text.subrange(25, 25int + 14) =~= "receive branch"@);
        },
        StreamProblem::Bitrate => {
            reveal_strlit("[webrtc] incoming bitrate telemetry disabled: ");
            reveal_strlit("bitrate telemetry disabled");
            assert(text.subrange(18, 18int + 26) =~= "bitrate telemetry disabled"@);
        },
    }
}

/// A received stream is written to a file by an encoder and a parser of its own
/// codec.
pub proof fn file_keeps_the_codec(codec: Codec, factories: (&'static str, &'static str))
    requires
        call_ensures(webrtc::file_output_factories, (codec,), factories),
    ensures
        codec is Av1 ==> factories.0@ == "nvd3d11av1enc"@ && factories.1@ == "av1parse"@,
        codec is H265 ==> factories.0@ == "mfh265enc"@ && factories.1@ == "h265parse"@,
        codec is H264 ==> factories.0@ == "mfh264enc"@ && factories.1@ == "h264parse"@,
{
}

/// A new registry takes a stream of either medium and waits for nothing.
pub proof fn new_registry_takes_both_media<A, V>(registry: ReceiveWorkerRegistry<A, V>)
    requires
        call_ensures(ReceiveWorkerRegistry::<A, V>::new, (), registry),
    ensures
        registry.may_claim(ReceiveKind::Audio),
        registry.may_claim(ReceiveKind::Video),
        registry.active_callbacks == 0,
        registry.audio is None && registry.bitrate is None,
{
}

/// A stream for a file is encoded with twenty-five megabits a second.
pub proof fn file_has_a_steady_bitrate(codec: Codec, path: String)
    ensures
        ({
            let plans = webrtc::output_plans(codec, Output::File(path));
            &&& plans[0].properties.len() == 1
            &&& plans[0].properties[0].name@ == "bitrate"@
            &&& plans[0].properties[0].value == PropertyValue::Uint(25_000)
        }),
{
}

/// Both ends of a loopback bundle their media, and a missing payloader is told
/// by its name.
pub proof fn loopback_bundles_its_media(
    settings: CaptureSettings,
    installed: Vec<String>,
    output: Output,
    plan: LoopbackPlan,
    payloader: ElementPlan,
)
    requires
        call_ensures(
            loopback::run_loopback,
            (&settings, &installed, &output),
            Ok::<LoopbackPlan, String>(plan),
        ),
        call_ensures(webrtc::build_video_payloader, (settings.codec,), payloader),
    ensures
        plan.bundle_policy@ == "max-bundle"@,
        plan.encoder_name@ == "stream-encoder"@,
        plan.payloader@ == payloader@,
        payloader@.missing matches Some(text) && text == payloader@.factory + " missing"@,
        plan.encoder_properties@ == pipeline::encoder_properties(
            settings.encoder@,
            settings.codec,
            settings.fps,
        ),
{
}

} // verus!
