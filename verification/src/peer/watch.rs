//! Viewer: join a stream by code and play it.

use vstd::prelude::*;
use vstd::string::*;

use super::{combine_session_and_cleanup, session_event, session_payload, Signal};
use crate::json::{self, object, text_member, Member};
use crate::pipeline_run;
use crate::text_ops::same_text;
use crate::webrtc::ReceiveKind;

verus! {

/// Printed when a stream that was watched finishes normally; the surroundings
/// tell it by this line from a viewer who closed the window.
pub const WATCH_ENDED: &'static str = "[watch-status] ended";

/// What a viewer records about its session: the identifier that comes with the
/// stream it joined, and no other.
pub open spec fn watch_session(signal: Signal) -> Option<Seq<char>> {
    match signal {
        Signal::StreamInfo { diagnostic_session, .. } => match diagnostic_session {
            Some(id) => Some(session_payload(id@)),
            None => None,
        },
        _ => None,
    }
}

pub fn handle_watch_diagnostic_signal(signal: &Signal) -> (payload: Option<String>)
    ensures
        json::optional_text(payload) == watch_session(*signal),
{
    match signal {
        Signal::StreamInfo { diagnostic_session, .. } => match diagnostic_session {
            Some(id) => Some(session_event(id.as_str())),
            None => None,
        },
        _ => None,
    }
}

/// What comes with any other message than the stream's own is not taken for
/// the viewer's session.
pub proof fn watch_session_comes_with_stream_info_only(signal: Signal)
    ensures
        watch_session(signal) is Some ==> signal is StreamInfo,
{
}

/// What a viewer meets.
#[derive(Debug)]
pub enum WatchEvent {
    /// An error of the session; the window, where there is one, is open or
    /// not.
    SessionError { message: String, playback_alive: Option<bool> },
    /// Nothing came for a while.
    Waited { playback_alive: Option<bool> },
    Signal(Signal),
    /// The relay is gone.
    SignallingClosed,
}

/// What a viewer does, one after the other. Where one of them fails, the
/// session ends with that error.
#[derive(Debug)]
pub enum WatchAction {
    End,
    Fail { message: String },
    EmitSession { payload: String },
    InstallOffer { sdp: String },
    AddCandidate { mline: u32, candidate: String },
    ShowHost { name: Option<String> },
    Print { line: String },
}

pub enum WatchActionModel {
    End,
    Fail(Seq<char>),
    EmitSession(Seq<char>),
    InstallOffer(Seq<char>),
    AddCandidate(u32, Seq<char>),
    ShowHost(Option<Seq<char>>),
    Print(Seq<char>),
}

pub open spec fn watch_action_model(action: WatchAction) -> WatchActionModel {
    match action {
        WatchAction::End => WatchActionModel::End,
        WatchAction::Fail { message } => WatchActionModel::Fail(message@),
        WatchAction::EmitSession { payload } => WatchActionModel::EmitSession(payload@),
        WatchAction::InstallOffer { sdp } => WatchActionModel::InstallOffer(sdp@),
        WatchAction::AddCandidate { mline, candidate } => WatchActionModel::AddCandidate(
            mline,
            candidate@,
        ),
        WatchAction::ShowHost { name } => WatchActionModel::ShowHost(json::optional_text(name)),
        WatchAction::Print { line } => WatchActionModel::Print(line@),
    }
}

pub open spec fn watch_action_models(actions: Seq<WatchAction>) -> Seq<WatchActionModel> {
    actions.map_values(|action: WatchAction| watch_action_model(action))
}

/// What follows from a message of the relay, after what is recorded of it.
/// The relay reports a room that closes like a code that is wrong; the two are
/// told apart by whether the viewer was in the room.
pub open spec fn watch_signalled(joined: bool, signal: Signal) -> (bool, Seq<WatchActionModel>) {
    match signal {
        Signal::Sdp { kind, sdp, .. } => (
            joined,
            if kind@ == "offer"@ {
                seq![WatchActionModel::InstallOffer(sdp@)]
            } else {
                Seq::empty()
            },
        ),
        Signal::Ice { mline, candidate, .. } => (
            joined,
            seq![WatchActionModel::AddCandidate(mline, candidate@)],
        ),
        Signal::StreamInfo { host_name, .. } => (
            true,
            match host_name {
                Some(name) => seq![
                    WatchActionModel::ShowHost(Some(name@)),
                    WatchActionModel::Print("[watch] "@ + name@ + "'s stream"@),
                ],
                None => seq![WatchActionModel::ShowHost(None)],
            },
        ),
        Signal::Authenticated { name } => (
            joined,
            seq![WatchActionModel::Print("[watch] signed in as "@ + name@)],
        ),
        Signal::Error { message } => (
            joined,
            if joined {
                seq![WatchActionModel::Print(WATCH_ENDED@), WatchActionModel::End]
            } else {
                seq![WatchActionModel::Fail(message@)]
            },
        ),
        _ => (joined, Seq::empty()),
    }
}

pub open spec fn recorded_watch(signal: Signal) -> Seq<WatchActionModel> {
    match watch_session(signal) {
        Some(payload) => seq![WatchActionModel::EmitSession(payload)],
        None => Seq::empty(),
    }
}

/// What a viewer does about an event, and whether it is in the room after
/// that.
pub open spec fn watch_after(joined: bool, event: WatchEvent) -> (bool, Seq<WatchActionModel>) {
    match event {
        WatchEvent::SessionError { message, playback_alive } => (
            joined,
            if playback_alive == Some(false) {
                seq![WatchActionModel::End]
            } else {
                seq![WatchActionModel::Fail(message@)]
            },
        ),
        WatchEvent::Waited { playback_alive } => (
            joined,
            if playback_alive == Some(false) {
                seq![WatchActionModel::End]
            } else {
                Seq::empty()
            },
        ),
        WatchEvent::Signal(signal) => {
            let (next, actions) = watch_signalled(joined, signal);
            (next, recorded_watch(signal) + actions)
        },
        WatchEvent::SignallingClosed => (joined, seq![WatchActionModel::End]),
    }
}

fn signalled(joined: &mut bool, signal: &Signal) -> (actions: Vec<WatchAction>)
    ensures
        (*final(joined), watch_action_models(actions@)) == watch_signalled(*old(joined), *signal),
{
    let ghost before = *joined;
    let mut actions: Vec<WatchAction> = Vec::new();
    match signal {
        Signal::Sdp { kind, sdp, .. } => {
            if same_text(kind.as_str(), "offer") {
                actions.push(WatchAction::InstallOffer { sdp: sdp.as_str().to_owned() });
            }
        },
        Signal::Ice { mline, candidate, .. } => {
            actions.push(
                WatchAction::AddCandidate {
                    mline: *mline,
                    candidate: candidate.as_str().to_owned(),
                },
            );
        },
        Signal::StreamInfo { host_name, .. } => {
            *joined = true;
            match host_name {
                Some(name) => {
                    actions.push(WatchAction::ShowHost { name: Some(name.as_str().to_owned()) });
                    let mut line = "[watch] ".to_owned();
                    line.append(name.as_str());
                    line.append("'s stream");
                    actions.push(WatchAction::Print { line });
                },
                None => {
                    actions.push(WatchAction::ShowHost { name: None });
                },
            }
        },
        Signal::Authenticated { name } => {
            let mut line = "[watch] signed in as ".to_owned();
            line.append(name.as_str());
            actions.push(WatchAction::Print { line });
        },
        Signal::Error { message } => {
            if *joined {
                actions.push(WatchAction::Print { line: WATCH_ENDED.to_owned() });
                actions.push(WatchAction::End);
            } else {
                actions.push(WatchAction::Fail { message: message.as_str().to_owned() });
            }
        },
        _ => {},
    }
    proof {
        assert(watch_action_models(actions@) =~= watch_signalled(before, *signal).1);
    }
    actions
}

/// One step of a viewer's session; `joined` says whether the relay has put it
/// into a room.
pub fn run_watch(joined: &mut bool, event: &WatchEvent) -> (actions: Vec<WatchAction>)
    ensures
        (*final(joined), watch_action_models(actions@)) == watch_after(*old(joined), *event),
{
    let ghost before = *joined;
    let mut actions: Vec<WatchAction> = Vec::new();
    match event {
        WatchEvent::SessionError { message, playback_alive } => {
            match *playback_alive {
                Some(false) => {
                    actions.push(WatchAction::End);
                },
                _ => {
                    actions.push(WatchAction::Fail { message: message.as_str().to_owned() });
                },
            }
        },
        WatchEvent::Waited { playback_alive } => {
            if let Some(false) = *playback_alive {
                actions.push(WatchAction::End);
            }
        },
        WatchEvent::Signal(signal) => {
            let recorded = handle_watch_diagnostic_signal(signal);
            let mut rest = signalled(joined, signal);
            if let Some(payload) = recorded {
                actions.push(WatchAction::EmitSession { payload });
            }
            let ghost first = actions@;
            let ghost second = rest@;
            actions.append(&mut rest);
            proof {
                assert(watch_action_models(first) =~= recorded_watch(*signal));
                assert(actions@ == first + second);
                assert(watch_action_models(actions@) =~= watch_action_models(first)
                    + watch_action_models(second));
            }
        },
        WatchEvent::SignallingClosed => {
            actions.push(WatchAction::End);
        },
    }
    proof {
        assert(watch_action_models(actions@) =~= watch_after(before, *event).1);
    }
    actions
}

/// Whether a viewer is in the room after these events.
pub open spec fn joined_after(events: Seq<WatchEvent>) -> bool
    decreases events.len(),
{
    if events.len() == 0 {
        false
    } else {
        watch_after(joined_after(events.drop_last()), events.last()).0
    }
}

/// The relay described the stream at some point.
pub open spec fn was_in_room(events: Seq<WatchEvent>) -> bool {
    exists|i: int|
        0 <= i < events.len() && #[trigger] events[i] matches WatchEvent::Signal(
            Signal::StreamInfo { .. },
        )
}

/// An error of the relay fails the session exactly where the stream was never
/// described; after that it is the ordinary end of it.
pub proof fn room_that_closes_is_no_failure(events: Seq<WatchEvent>, message: String)
    ensures
        joined_after(events) == was_in_room(events),
        was_in_room(events) ==> watch_after(
            joined_after(events),
            WatchEvent::Signal(Signal::Error { message }),
        ).1 == seq![WatchActionModel::Print(WATCH_ENDED@), WatchActionModel::End],
        !was_in_room(events) ==> watch_after(
            joined_after(events),
            WatchEvent::Signal(Signal::Error { message }),
        ).1 == seq![WatchActionModel::Fail(message@)],
    decreases events.len(),
{
    if events.len() > 0 {
        let earlier = events.drop_last();
        room_that_closes_is_no_failure(earlier, message);
        if was_in_room(earlier) {
            let i = choose|i: int|
                0 <= i < earlier.len() && #[trigger] earlier[i] matches WatchEvent::Signal(
                    Signal::StreamInfo { .. },
                );
            assert(events[i] == earlier[i]);
        }
        if events.last() matches WatchEvent::Signal(Signal::StreamInfo { .. }) {
            assert(events[events.len() - 1] == events.last());
        }
        if was_in_room(events) && !was_in_room(earlier) {
            let i = choose|i: int|
                0 <= i < events.len() && #[trigger] events[i] matches WatchEvent::Signal(
                    Signal::StreamInfo { .. },
                );
            if i < earlier.len() {
                assert(earlier[i] == events[i]);
            }
        }
    }
    let error = Signal::Error { message };
    assert(recorded_watch(error) =~= Seq::empty());
    assert(watch_after(joined_after(events), WatchEvent::Signal(error)).1 =~= watch_signalled(
        joined_after(events),
        error,
    ).1);
}

/// A viewer who closed the window ends the session, and no error of the
/// teardown turns that into a failure.
pub proof fn closed_window_ends_the_session(joined: bool, message: String)
    ensures
        watch_after(
            joined,
            WatchEvent::SessionError { message, playback_alive: Some(false) },
        ).1 == seq![WatchActionModel::End],
        watch_after(joined, WatchEvent::Waited { playback_alive: Some(false) }).1 == seq![
            WatchActionModel::End,
        ],
{
}

/// What a viewer says to the relay first: who it is, where that is known, and
/// which stream it wants.
pub fn watch_opening(token: &Option<String>, code: &str) -> (signals: Vec<Signal>)
    ensures
        match *token {
            Some(token) => {
                &&& signals@.len() == 2
                &&& signals@[0] matches Signal::Authenticate { session } && session@ == token@
                &&& signals@[1] matches Signal::Join { code: wanted } && wanted@ == code@
            },
            None => {
                &&& signals@.len() == 1
                &&& signals@[0] matches Signal::Join { code: wanted } && wanted@ == code@
            },
        },
{
    let mut signals: Vec<Signal> = Vec::new();
    if let Some(token) = token {
        signals.push(Signal::Authenticate { session: token.as_str().to_owned() });
    }
    signals.push(Signal::Join { code: code.to_owned() });
    signals
}

/// What is done about a new stream.
#[derive(Debug, Clone, Copy, PartialEq, Eq, Structural)]
pub enum StreamAction {
    BuildAudio,
    BuildVideo,
    /// The output is in use: the medium stays claimed, and nothing is built.
    KeepClaim,
    Ignore,
}

pub fn watch_pad(accepted: Option<ReceiveKind>, output_left: bool) -> (action: StreamAction)
    ensures
        action == match accepted {
            Some(ReceiveKind::Audio) => StreamAction::BuildAudio,
            Some(ReceiveKind::Video) => if output_left {
                StreamAction::BuildVideo
            } else {
                StreamAction::KeepClaim
            },
            None => StreamAction::Ignore,
        },
{
    match accepted {
        Some(ReceiveKind::Audio) => StreamAction::BuildAudio,
        Some(ReceiveKind::Video) => if output_left {
            StreamAction::BuildVideo
        } else {
            StreamAction::KeepClaim
        },
        None => StreamAction::Ignore,
    }
}

/// The payload of the events about a stream.
pub fn encoding_payload(encoding: &str) -> (payload: String)
    ensures
        payload@ == json::json_object(seq![("encoding"@, json::json_string(encoding@))]),
{
    let mut members: Vec<Member> = Vec::new();
    members.push(text_member("encoding", encoding));
    proof {
        assert(json::member_texts(members@) =~= seq![
            ("encoding"@, json::json_string(encoding@)),
        ]);
    }
    object(&members)
}

/// Why a stream's branch could not be built.
pub fn branch_problem(encoding: &str, error: &str) -> (text: String)
    ensures
        text@ == "could not build "@ + encoding@ + " receive branch: "@ + error@,
{
    let mut text = "could not build ".to_owned();
    text.append(encoding);
    text.append(" receive branch: ");
    text.append(error);
    text
}

/// What is printed about a stream that is not accepted.
pub fn ignored_stream(encoding: &str) -> (line: String)
    ensures
        line@ == "[watch] ignoring duplicate or unexpected stream '"@ + encoding@ + "'"@,
{
    let mut line = "[watch] ignoring duplicate or unexpected stream '".to_owned();
    line.append(encoding);
    line.append("'");
    line
}

/// Why the host's offer could not be installed.
pub fn offer_not_installed(error: &str) -> (text: String)
    ensures
        text@ == "could not install host offer: "@ + error@,
{
    let mut text = "could not install host offer: ".to_owned();
    text.append(error);
    text
}

/// What is done to stop receiving, in order.
#[derive(Debug, Clone, Copy, PartialEq, Eq, Structural)]
pub enum StopAction {
    /// No new streams.
    Disconnect,
    /// Wait for callbacks and end the workers.
    ShutdownWorkers,
    DropDiagnostics,
    /// Bring the pipeline to its null state.
    StopPipeline,
}

pub fn stop_watch_receive_pipeline() -> (actions: Vec<StopAction>)
    ensures
        actions@ == seq![
            StopAction::Disconnect,
            StopAction::ShutdownWorkers,
            StopAction::DropDiagnostics,
            StopAction::StopPipeline,
        ],
{
    let mut actions: Vec<StopAction> = Vec::new();
    actions.push(StopAction::Disconnect);
    actions.push(StopAction::ShutdownWorkers);
    actions.push(StopAction::DropDiagnostics);
    actions.push(StopAction::StopPipeline);
    proof {
        assert(actions@ =~= seq![
            StopAction::Disconnect,
            StopAction::ShutdownWorkers,
            StopAction::DropDiagnostics,
            StopAction::StopPipeline,
        ]);
    }
    actions
}

/// What a viewer's session came to: its own result, then that of the workers
/// and of the pipeline.
pub fn watch_result(
    session: Result<(), String>,
    workers: Result<(), String>,
    stopped: Result<(), String>,
) -> (result: Result<(), String>)
    ensures
        pipeline_run::told(result) == pipeline_run::combined(
            pipeline_run::told(session),
            pipeline_run::combined(pipeline_run::told(workers), pipeline_run::told(stopped)),
        ),
{
    combine_session_and_cleanup(session, combine_session_and_cleanup(workers, stopped))
}

/// A pipeline that could not be started is cleaned up, and both failures are
/// told.
pub fn cleanup_watch_start_failure(start_error: String, cleanup: Result<(), String>) -> (result:
    Result<(), String>)
    ensures
        pipeline_run::told(result) == pipeline_run::combined(
            Err(start_error@),
            pipeline_run::told(cleanup),
        ),
        result is Err,
{
    combine_session_and_cleanup(Err(start_error), cleanup)
}

} // verus!
