//! What peers tell each other, and what they make of their pipelines.

use vstd::prelude::*;
use vstd::string::*;

use super::host::{self, HostPlan};
use super::watch::{self, StopAction, StreamAction};
use super::{
    BinPlan, BusReaction, ConnectionReaction, PeerBusMessage, PeerConnectionState, SdpType, Signal,
    TransceiverKind,
};
use crate::json;
use crate::network_diagnostics::probe::{OfferValue, PromiseReply};
use crate::peer;
use crate::pipeline::{self, CaptureSettings, PropertyValue};
use crate::text_ops;
use crate::webrtc::ReceiveKind;

verus! {

/// A connection goes by its own name, in one bundle, and finds its address with
/// the public server.
pub proof fn connection_is_made_by_name(name: &str, plan: BinPlan)
    requires
        call_ensures(peer::make_webrtcbin, (name,), plan),
    ensures
        plan.factory@ == "webrtcbin"@,
        plan.name@ == name@,
        plan.bundle_policy@ == "max-bundle"@,
        plan.stun_server@ == "stun://stun.l.google.com:19302"@,
{
}

/// An error of the pipeline ends the session unless the window was closed, by
/// what is known of it or by the error's own words; it is told with its source
/// and its details.
pub proof fn pipeline_errors_are_told(
    label: &str,
    source: String,
    error: String,
    debug: String,
    alive: Option<bool>,
    reaction: BusReaction,
)
    requires
        call_ensures(
            peer::watch_bus,
            (label, &PeerBusMessage::Error { source, error, debug }, alive),
            reaction,
        ),
    ensures
        alive == Some(false) ==> reaction is Nothing,
        text_ops::mentions(error@, "Output window was closed"@) ==> reaction is Nothing,
        alive != Some(false) && !text_ops::mentions(error@, "Output window was closed"@) ==> {
            &&& reaction is Report
            &&& reaction->Report_error.source@ == source@
            &&& reaction->Report_error.message@ == "GStreamer error from "@ + source@ + ": "@
                + error@ + " ("@ + debug@ + ")"@
            &&& reaction->Report_line@ == "["@ + label@ + "] ERROR: "@
                + reaction->Report_error.message@
        },
{
    if reaction is Report {
        assert(reaction->Report_error.message@ =~= "GStreamer error from "@ + source@ + ": "@
            + error@ + " ("@ + debug@ + ")"@);
    }
}

/// Other messages end nothing: a warning is printed, an end of stream is told,
/// a change of latency is worked out anew, and all others are passed over.
pub proof fn other_messages_end_nothing(
    label: &str,
    error: String,
    debug: String,
    alive: Option<bool>,
    warned: BusReaction,
    ended: BusReaction,
    late: BusReaction,
    rest: BusReaction,
)
    requires
        call_ensures(
            peer::watch_bus,
            (label, &PeerBusMessage::Warning { error, debug }, alive),
            warned,
        ),
        call_ensures(peer::watch_bus, (label, &PeerBusMessage::EndOfStream, alive), ended),
        call_ensures(peer::watch_bus, (label, &PeerBusMessage::Latency, alive), late),
        call_ensures(peer::watch_bus, (label, &PeerBusMessage::Other, alive), rest),
    ensures
        warned is Warn,
        warned->Warn_line@ == "["@ + label@ + "] warning: "@ + error@ + " ("@ + debug@ + ")"@,
        ended is EndOfStream,
        ended->EndOfStream_line@ == "["@ + label@ + "] end of stream"@,
        late is RecalculateLatency,
        rest is Nothing,
{
    assert(warned->Warn_line@ =~= "["@ + label@ + "] warning: "@ + error@ + " ("@ + debug@ + ")"@);
}

/// A connection is over once it failed or was closed, and not while it is
/// interrupted; each state is told by its name.
pub proof fn connection_ends_for_two_reasons(
    label: &str,
    state: PeerConnectionState,
    reaction: ConnectionReaction,
)
    requires
        call_ensures(peer::watch_connection, (label, state), reaction),
    ensures
        reaction.failure is Some <==> state is Failed || state is Closed,
        reaction.connected <==> state is Connected,
        state is Failed ==> reaction.failure->0@ == "peer connection entered "@ + "Failed"@,
        state is Closed ==> reaction.failure->0@ == "peer connection entered "@ + "Closed"@,
        state is Connected ==> text_ops::closes_with(reaction.line@, "Connected"@),
        state is Disconnected ==> text_ops::closes_with(reaction.line@, "Disconnected"@),
        state is Connecting ==> text_ops::closes_with(reaction.line@, "Connecting"@),
        state is New ==> text_ops::closes_with(reaction.line@, "New"@),
        text_ops::begins_with(reaction.line@, "["@ + label@ + "] peer connection: "@),
{
    let line = reaction.line@;
    let word = peer::connection_state_text(state);
    let start = "["@ + label@ + "] peer connection: "@;
    assert(line.skip(line.len() - word.len()) =~= word);
    assert(line.take(start.len() as int) =~= start);
}

/// A description is an offer or an answer by its word; all else is refused, and
/// so is a text that cannot be read.
pub proof fn descriptions_are_told_apart(kind: &str, well: bool, result: Result<SdpType, String>)
    requires
        call_ensures(peer::parse_sdp, (kind, well), result),
    ensures
        well && kind@ == "offer"@ ==> result == Ok::<SdpType, String>(SdpType::Offer),
        well && kind@ == "answer"@ ==> result == Ok::<SdpType, String>(SdpType::Answer),
        !well ==> result is Err,
        kind@ != "offer"@ && kind@ != "answer"@ ==> result is Err,
        well && result is Err ==> text_ops::mentions(result->Err_0@, kind@),
{
    reveal_strlit("offer");
    reveal_strlit("answer");
    assert("offer"@.len() == 5 && "answer"@.len() == 6);
    if well && result is Err {
        let at = "unknown SDP type '"@.len() as int;
        assert(result->Err_0@.subrange(at, at + kind@.len()) =~= kind@);
    }
}

/// A description is used exactly where its promise was kept with a proper one;
/// a reason that was given is quoted, and the kind is told.
pub proof fn description_needs_a_kept_promise(
    reply: PromiseReply,
    value: OfferValue,
    kind: SdpType,
    result: Result<(), String>,
)
    requires
        call_ensures(peer::created_description, (&reply, value, kind), result),
    ensures
        result is Ok <==> reply is Answered && value is Present,
        result is Err ==> (kind is Offer ==> text_ops::begins_with(
            result->Err_0@,
            "creating offer"@,
        )) && (kind is Answer ==> text_ops::begins_with(result->Err_0@, "creating answer"@)),
        reply matches PromiseReply::Failed(reason) ==> text_ops::closes_with(
            result->Err_0@,
            reason@,
        ),
        reply matches PromiseReply::Error(reason) ==> text_ops::closes_with(
            result->Err_0@,
            reason@,
        ),
{
    if result is Err {
        reveal_strlit("creating ");
        reveal_strlit("offer");
        reveal_strlit("answer");
        reveal_strlit("creating offer");
        reveal_strlit("creating answer");
        let text = result->Err_0@;
        let start = "creating "@ + peer::sdp_word(kind);
        assert("creating "@ + "offer"@ =~= "creating offer"@);
        assert("creating "@ + "answer"@ =~= "creating answer"@);
        assert(text.take(start.len() as int) =~= start);
        if let PromiseReply::Failed(reason) = reply {
            assert(text.skip(text.len() - reason@.len()) =~= reason@);
        }
        if let PromiseReply::Error(reason) = reply {
            assert(text.skip(text.len() - reason@.len()) =~= reason@);
        }
    }
}

/// An installed description is sent to that peer, as it is; nothing is sent
/// where installing failed.
pub proof fn installed_description_is_sent(
    reply: PromiseReply,
    kind: SdpType,
    to: &str,
    sdp: &str,
    result: Result<Signal, String>,
)
    requires
        call_ensures(peer::installed_description, (&reply, kind, to, sdp), result),
    ensures
        result is Ok <==> reply is Answered || reply is Empty,
        result matches Ok(signal) ==> signal is Sdp && signal->Sdp_peer@ == to@ && signal->Sdp_sdp@
            == sdp@ && (kind is Offer ==> signal->kind@ == "offer"@) && (kind is Answer
            ==> signal->kind@ == "answer"@),
{
}

/// Every local candidate is sent to that peer with its media line.
pub proof fn local_candidates_are_sent(
    to: &str,
    mline: u32,
    candidate: String,
    sent: Option<Signal>,
    without_line: Option<Signal>,
    without_text: Option<Signal>,
)
    requires
        call_ensures(peer::forward_ice, (to, Some(mline), &Some(candidate)), sent),
        call_ensures(peer::forward_ice, (to, None::<u32>, &Some(candidate)), without_line),
        call_ensures(peer::forward_ice, (to, Some(mline), &None::<String>), without_text),
    ensures
        sent is Some && sent->0 is Ice,
        sent->0->Ice_peer@ == to@,
        sent->0->mline == mline,
        sent->0->candidate@ == candidate@,
        without_line is None,
        without_text is None,
{
}

/// Video is retransmitted, and nothing else.
pub proof fn video_is_retransmitted(kind: TransceiverKind, yes: bool)
    requires
        call_ensures(peer::enable_nack, (kind,), yes),
    ensures
        kind is Video ==> yes,
        kind is Audio || kind is Unknown ==> !yes,
{
}

/// A host signs in first, where it can, and then opens a room for those that
/// may see it; a viewer signs in first and then joins by its code.
pub proof fn sessions_open_with_a_request(
    token: String,
    visible_to: Vec<String>,
    code: &str,
    hosting: Vec<Signal>,
    open: Vec<Signal>,
    watching: Vec<Signal>,
    plain: Vec<Signal>,
)
    requires
        call_ensures(host::host_opening, (&Some(token), visible_to), hosting),
        call_ensures(host::host_opening, (&None::<String>, visible_to), open),
        call_ensures(watch::watch_opening, (&Some(token), code), watching),
        call_ensures(watch::watch_opening, (&None::<String>, code), plain),
    ensures
        hosting@.len() == 2 && open@.len() == 1 && watching@.len() == 2 && plain@.len() == 1,
        hosting@[0] is Authenticate && hosting@[0]->session@ == token@,
        hosting@[1] is Host && hosting@[1]->visible_to == visible_to,
        open@[0] == hosting@[1],
        watching@[0] is Authenticate && watching@[0]->session@ == token@,
        watching@[1] is Join && watching@[1]->Join_code@ == code@,
        plain@[0] is Join && plain@[0]->Join_code@ == code@,
{
}

/// A host plans its capture exactly where nothing of it is missing, with a
/// keyframe every two seconds and at most every 120 frames.
pub proof fn host_plans_what_it_captures(
    settings: CaptureSettings,
    installed: Vec<String>,
    plan: Result<HostPlan, String>,
)
    requires
        call_ensures(host::host_plan, (&settings, &installed), plan),
    ensures
        plan matches Ok(made) ==> {
            &&& made.capture@ == pipeline::capture_chain(settings)
            &&& made.gop.name@ == "gop-size"@
            &&& 1 <= settings.fps <= 60 ==> made.gop.value == PropertyValue::Int(
                (2 * settings.fps) as i32,
            )
            &&& settings.fps > 60 ==> made.gop.value == PropertyValue::Int(120)
        },
        plan is Err <==> text_ops::absent(
            pipeline::capture_elements(settings),
            text_ops::texts(installed@),
        ).len() > 0,
{
}

/// The keyframe distance follows a measurement that is clearly another one, to
/// exactly that, and no other.
pub proof fn distance_follows_clear_measurements(
    current: u32,
    measured: u32,
    update: Option<u32>,
)
    requires
        call_ensures(host::gop_update, (current, measured), update),
    ensures
        update matches Some(new) ==> new == measured,
        -4 <= measured - current <= 4 ==> update is None,
        current <= 49 && (measured - current > 4 || current - measured > 4) ==> update == Some(
            measured,
        ),
        current >= 50 && (10 * (measured - current) >= current + 10 || 10 * (current - measured)
            >= current + 10) ==> update == Some(measured),
        current >= 50 && -current <= 10 * (measured - current) - 9 && 10 * (measured - current)
            <= current - 9 ==> update is None,
{
}

/// The line for the surroundings tells the event and who it is about.
pub proof fn status_tells_who_watches(
    event: Seq<char>,
    of: Seq<char>,
    label: Seq<char>,
    id: Option<Seq<char>>,
    avatar: Option<Seq<char>>,
)
    ensures
        ({
            let line = host::status_line(event, of, label, id, avatar);
            &&& text_ops::begins_with(line, "[host-status] {"@)
            &&& text_ops::mentions(line, json::named("event"@, json::json_string(event)))
            &&& text_ops::mentions(line, json::named("peer"@, json::json_string(of)))
            &&& text_ops::mentions(line, json::named("label"@, json::json_string(label)))
            &&& id matches Some(text) ==> text_ops::mentions(
                line,
                json::named("id"@, json::json_string(text)),
            )
            &&& avatar matches Some(text) ==> text_ops::mentions(
                line,
                json::named("avatar_url"@, json::json_string(text)),
            )
        }),
{
    reveal_strlit("avatar_url");
    reveal_strlit("event");
    reveal_strlit("id");
    reveal_strlit("label");
    reveal_strlit("peer");
    reveal_strlit("[host-status] ");
    reveal_strlit("[host-status] {");
    let members = seq![
        ("avatar_url"@, json::json_optional(avatar)),
        ("event"@, json::json_string(event)),
        ("id"@, json::json_optional(id)),
        ("label"@, json::json_string(label)),
        ("peer"@, json::json_string(of)),
    ];
    let body = json::json_object(members);
    let line = host::status_line(event, of, label, id, avatar);
    assert(body[0] == '{');
    assert(line.take(15) =~= "[host-status] {"@);
    let none = Seq::<char>::empty();
    assert("[host-status] "@ + body + none =~= line);
    json::object_tells_its_members(members, 0);
    json::object_tells_its_members(members, 1);
    json::object_tells_its_members(members, 2);
    json::object_tells_its_members(members, 3);
    json::object_tells_its_members(members, 4);
    assert forall|i: int| 0 <= i < 5 implies text_ops::mentions(
        line,
        json::named((#[trigger] members[i]).0, members[i].1),
    ) by {
        text_ops::part_is_mentioned(
            "[host-status] "@,
            body,
            none,
            json::named(members[i].0, members[i].1),
        );
    }
    assert(members[0].0 == "avatar_url"@ && members[1].0 == "event"@ && members[2].0 == "id"@);
    assert(members[3].0 == "label"@ && members[4].0 == "peer"@);
}

/// The identifier of a session is recorded as the relay told it, of a room by
/// its host and of a stream by its viewer.
pub proof fn session_is_recorded(
    code: String,
    id: String,
    name: Option<String>,
)
    ensures
        host::host_session(Signal::Hosting { code, diagnostic_session: Some(id) }) is Some,
        watch::watch_session(
            Signal::StreamInfo { host_name: name, diagnostic_session: Some(id) },
        ) is Some,
        text_ops::mentions(
            host::host_session(Signal::Hosting { code, diagnostic_session: Some(id) })->0,
            json::named("id"@, json::json_string(id@)),
        ),
        text_ops::mentions(
            watch::watch_session(
                Signal::StreamInfo { host_name: name, diagnostic_session: Some(id) },
            )->0,
            json::named("id"@, json::json_string(id@)),
        ),
{
    reveal_strlit("id");
    json::object_tells_its_members(seq![("id"@, json::json_string(id@))], 0);
}

/// The program that started the host is known by the number that it gave.
pub proof fn program_is_known_by_its_number(n: u32, text: String, pid: Option<u32>, none: Option<u32>)
    requires
        text@ == text_ops::decimal(n as nat),
        call_ensures(host::ui_process_id, (&Some(text),), pid),
        call_ensures(host::ui_process_id, (&None::<String>,), none),
    ensures
        pid == Some(n),
        none is None,
{
    text_ops::decimal_is_read_back(n as nat);
}

/// Sound is captured of the process that was asked for, where no element is
/// missing.
pub proof fn sound_is_captured_where_it_can_be(
    pid: u32,
    ui: Option<u32>,
    installed: Vec<String>,
    description: Result<String, String>,
)
    requires
        call_ensures(host::audio_tee_description, (pid, ui, &installed), description),
    ensures
        description matches Ok(text) ==> text@ == pipeline::audio_chain(pid, ui),
        description is Err <==> text_ops::absent(
            pipeline::audio_elements(),
            text_ops::texts(installed@),
        ).len() > 0,
        description matches Err(text) ==> text_ops::begins_with(
            text@,
            "missing audio elements: "@,
        ),
{
    if let Err(text) = description {
        let start = "missing audio elements: "@;
        assert(text@.take(start.len() as int) =~= start);
    }
}

/// A host's session succeeds exactly where all of it did: the session itself,
/// every viewer's teardown, the worker and the pipeline.
pub proof fn host_succeeds_where_all_did(
    session: Result<(), String>,
    drained: Vec<Option<String>>,
    teardown: Result<(), String>,
    stopped: Result<(), String>,
    result: Result<(), String>,
)
    requires
        call_ensures(host::host_result, (session, &drained, teardown, stopped), result),
    ensures
        result is Ok <==> session is Ok && teardown is Ok && stopped is Ok && (forall|i: int|
            0 <= i < drained@.len() ==> #[trigger] drained@[i] is None),
        session is Err ==> text_ops::begins_with(result->Err_0@, session->Err_0@),
        stopped is Err ==> text_ops::closes_with(result->Err_0@, stopped->Err_0@),
{
    lemma_first_failure(drained@);
    if session is Err {
        let text = result->Err_0@;
        let part = session->Err_0@;
        assert(text.take(part.len() as int) =~= part);
    }
    if stopped is Err {
        let text = result->Err_0@;
        let part = stopped->Err_0@;
        assert(text.skip(text.len() - part.len()) =~= part);
    }
}

proof fn lemma_first_failure(results: Seq<Option<String>>)
    ensures
        host::first_failure(results) is Ok <==> forall|i: int|
            0 <= i < results.len() ==> #[trigger] results[i] is None,
    decreases results.len(),
{
    if results.len() > 0 {
        let rest = results.drop_last();
        lemma_first_failure(rest);
        if host::first_failure(results) is Ok {
            assert forall|i: int| 0 <= i < results.len() implies #[trigger] results[i] is None by {
                if i < rest.len() {
                    assert(rest[i] is None);
                }
            }
        }
        if forall|i: int| 0 <= i < results.len() ==> #[trigger] results[i] is None {
            assert forall|i: int| 0 <= i < rest.len() implies #[trigger] rest[i] is None by {
                assert(results[i] is None);
            }
            assert(results[results.len() - 1] is None);
        }
    }
}

/// A viewer's session succeeds exactly where all of it did, and one that could
/// not be started never does.
pub proof fn viewer_succeeds_where_all_did(
    session: Result<(), String>,
    workers: Result<(), String>,
    stopped: Result<(), String>,
    result: Result<(), String>,
    start: String,
    failed: Result<(), String>,
)
    requires
        call_ensures(watch::watch_result, (session, workers, stopped), result),
        call_ensures(watch::cleanup_watch_start_failure, (start, stopped), failed),
    ensures
        result is Ok <==> session is Ok && workers is Ok && stopped is Ok,
        session is Err ==> text_ops::begins_with(result->Err_0@, session->Err_0@),
        stopped is Err ==> text_ops::closes_with(result->Err_0@, stopped->Err_0@),
        failed is Err && text_ops::begins_with(failed->Err_0@, start@),
        stopped is Err ==> text_ops::closes_with(failed->Err_0@, stopped->Err_0@),
{
    if session is Err {
        let text = result->Err_0@;
        let part = session->Err_0@;
        assert(text.take(part.len() as int) =~= part);
    }
    if stopped is Err {
        let text = result->Err_0@;
        let part = stopped->Err_0@;
        assert(text.skip(text.len() - part.len()) =~= part);
        let other = failed->Err_0@;
        assert(other.skip(other.len() - part.len()) =~= part);
    }
    let text = failed->Err_0@;
    assert(text.take(start@.len() as int) =~= start@);
}

/// A viewer builds a branch for each stream that is accepted; a second picture
/// has no output and keeps its medium.
pub proof fn viewer_builds_what_is_accepted(
    accepted: Option<ReceiveKind>,
    output_left: bool,
    action: StreamAction,
)
    requires
        call_ensures(watch::watch_pad, (accepted, output_left), action),
    ensures
        accepted == Some(ReceiveKind::Audio) <==> action is BuildAudio,
        accepted == Some(ReceiveKind::Video) && output_left <==> action is BuildVideo,
        accepted == Some(ReceiveKind::Video) && !output_left <==> action is KeepClaim,
        accepted is None <==> action is Ignore,
{
}

/// A viewer stops receiving from the outside in: no new streams, then the
/// workers, then the diagnostics, and the pipeline last.
pub proof fn receiving_stops_in_order(actions: Vec<StopAction>)
    requires
        call_ensures(watch::stop_watch_receive_pipeline, (), actions),
    ensures
        actions@.len() == 4,
        actions@[0] is Disconnect,
        actions@[1] is ShutdownWorkers,
        actions@[2] is DropDiagnostics,
        actions@[3] is StopPipeline,
{
}

/// What goes wrong with a stream or a description is told word for word.
pub proof fn problems_are_quoted(
    encoding: &str,
    error: &str,
    branch: String,
    ignored: String,
    offer: String,
    malformed: String,
    answer: String,
    payload: String,
)
    requires
        call_ensures(watch::branch_problem, (encoding, error), branch),
        call_ensures(watch::ignored_stream, (encoding,), ignored),
        call_ensures(watch::offer_not_installed, (error,), offer),
        call_ensures(host::malformed_answer, (error,), malformed),
        call_ensures(host::answer_not_installed, (error,), answer),
        call_ensures(watch::encoding_payload, (encoding,), payload),
    ensures
        branch@ == "could not build "@ + encoding@ + " receive branch: "@ + error@,
        ignored@ == "[watch] ignoring duplicate or unexpected stream '"@ + encoding@ + "'"@,
        offer@ == "could not install host offer: "@ + error@,
        malformed@ == "malformed answer: "@ + error@,
        answer@ == "could not install answer: "@ + error@,
        text_ops::mentions(
            payload@,
            json::named("encoding"@, json::json_string(encoding@)),
        ),
{
    reveal_strlit("encoding");
    json::object_tells_its_members(seq![("encoding"@, json::json_string(encoding@))], 0);
}

/// A closed window silences the errors that follow; nothing else does.
pub proof fn closed_window_silences_errors(alive: Option<bool>, yes: bool)
    requires
        call_ensures(peer::should_report_pipeline_error, (alive,), yes),
    ensures
        alive is None ==> yes,
        alive == Some(true) ==> yes,
        alive == Some(false) ==> !yes,
{
}

/// A connection is over where it failed or was closed; one that was only
/// interrupted is not.
pub proof fn interrupted_connection_may_come_back(state: PeerConnectionState, yes: bool)
    requires
        call_ensures(peer::is_terminal_connection_state, (state,), yes),
    ensures
        state is Failed || state is Closed ==> yes,
        state is New || state is Connecting || state is Connected || state is Disconnected ==> !yes,
{
}

} // verus!
