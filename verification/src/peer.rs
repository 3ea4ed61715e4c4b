//! Host and viewer peers talking through the signalling relay.
//!
//! Only the host creates offers, and it waits for a viewer to join before it
//! negotiates.

pub mod branch_laws;
pub mod host;
pub mod host_branch;
pub mod host_laws;
pub mod laws;
pub mod watch;
pub mod watch_laws;

use vstd::prelude::*;
use vstd::string::*;

use crate::json::{self, object, text_member, Member};
use crate::network_diagnostics::probe::{self, OfferValue, PromiseReply};
use crate::pipeline_run::{self, bus_error, combine_pipeline_results};
use crate::text_ops::{self, same_text, text_contains};

verus! {

/// Public STUN lets peers discover their external address.
pub const STUN: &'static str = "stun://stun.l.google.com:19302";

/// A message of the signalling relay.
#[allow(inconsistent_fields)]
#[derive(Debug)]
pub enum Signal {
    Authenticate { session: String },
    Authenticated { name: String },
    Host { visible_to: Vec<String> },
    Hosting { code: String, diagnostic_session: Option<String> },
    Join { code: String },
    StreamInfo { host_name: Option<String>, diagnostic_session: Option<String> },
    ViewerJoined {
        peer: String,
        name: Option<String>,
        id: Option<String>,
        avatar_url: Option<String>,
    },
    ViewerLeft { peer: String },
    Sdp { peer: String, kind: String, sdp: String },
    Ice { peer: String, mline: u32, candidate: String },
    Error { message: String },
    Other,
}

/// The peer connection of a session.
#[derive(Debug)]
pub struct BinPlan {
    pub factory: &'static str,
    pub name: String,
    pub bundle_policy: &'static str,
    pub stun_server: &'static str,
    /// What is said where it cannot be made.
    pub missing: &'static str,
}

pub fn make_webrtcbin(name: &str) -> (plan: BinPlan)
    ensures
        plan.factory@ == "webrtcbin"@,
        plan.name@ == name@,
        plan.bundle_policy@ == "max-bundle"@,
        plan.stun_server@ == STUN@,
        plan.missing@ == "webrtcbin missing"@,
{
    BinPlan {
        factory: "webrtcbin",
        name: name.to_owned(),
        bundle_policy: "max-bundle",
        stun_server: STUN,
        missing: "webrtcbin missing",
    }
}

/// Errors that come after the viewer's window was closed are not reported.
pub fn should_report_pipeline_error(playback_alive: Option<bool>) -> (yes: bool)
    ensures
        yes == (playback_alive != Some(false)),
{
    match playback_alive {
        Some(false) => false,
        _ => true,
    }
}

/// An error of a session and the element that it comes from.
#[derive(Debug)]
pub struct PipelineError {
    pub source: String,
    pub message: String,
}

/// A message of the pipeline's bus.
#[derive(Debug)]
pub enum PeerBusMessage {
    Error { source: String, error: String, debug: String },
    Warning { error: String, debug: String },
    EndOfStream,
    Latency,
    Other,
}

/// What is done about a message of the bus.
#[derive(Debug)]
pub enum BusReaction {
    Nothing,
    /// Print the line to the error stream and end the session with the error.
    Report { line: String, error: PipelineError },
    /// Print the line to the error stream.
    Warn { line: String },
    /// Print the line and record the end of the stream.
    EndOfStream { line: String },
    RecalculateLatency,
}

/// The text of an error on the bus.
pub open spec fn bus_problem(source: Seq<char>, error: Seq<char>, debug: Seq<char>) -> Seq<char> {
    "GStreamer error from "@ + source + ": "@ + pipeline_run::bus_error_text(error, debug)
}

/// An error is passed on unless the viewer closed the window.
pub open spec fn error_is_reported(error: Seq<char>, playback_alive: Option<bool>) -> bool {
    playback_alive != Some(false) && !text_ops::mentions(error, "Output window was closed"@)
}

/// Decides about a message of the bus.
pub fn watch_bus(label: &str, message: &PeerBusMessage, playback_alive: Option<bool>) -> (reaction:
    BusReaction)
    ensures
        match *message {
            PeerBusMessage::Error { source, error, debug } => if error_is_reported(
                error@,
                playback_alive,
            ) {
                &&& reaction matches BusReaction::Report { line, error: reported }
                &&& line@ == "["@ + label@ + "] ERROR: "@ + bus_problem(source@, error@, debug@)
                &&& reported.source@ == source@
                &&& reported.message@ == bus_problem(source@, error@, debug@)
            } else {
                reaction is Nothing
            },
            PeerBusMessage::Warning { error, debug } => {
                &&& reaction matches BusReaction::Warn { line }
                &&& line@ == "["@ + label@ + "] warning: "@ + pipeline_run::bus_error_text(
                    error@,
                    debug@,
                )
            },
            PeerBusMessage::EndOfStream => {
                &&& reaction matches BusReaction::EndOfStream { line }
                &&& line@ == "["@ + label@ + "] end of stream"@
            },
            PeerBusMessage::Latency => reaction is RecalculateLatency,
            PeerBusMessage::Other => reaction is Nothing,
        },
{
    match message {
        PeerBusMessage::Error { source, error, debug } => {
            if !should_report_pipeline_error(playback_alive) || text_contains(
                error.as_str(),
                "Output window was closed",
            ) {
                return BusReaction::Nothing;
            }
            let mut text = "GStreamer error from ".to_owned();
            text.append(source.as_str());
            text.append(": ");
            text.append(bus_error(error.as_str(), debug.as_str()).as_str());
            let mut line = "[".to_owned();
            line.append(label);
            line.append("] ERROR: ");
            line.append(text.as_str());
            BusReaction::Report {
                line,
                error: PipelineError { source: source.as_str().to_owned(), message: text },
            }
        },
        PeerBusMessage::Warning { error, debug } => {
            let mut line = "[".to_owned();
            line.append(label);
            line.append("] warning: ");
            line.append(bus_error(error.as_str(), debug.as_str()).as_str());
            BusReaction::Warn { line }
        },
        PeerBusMessage::EndOfStream => {
            let mut line = "[".to_owned();
            line.append(label);
            line.append("] end of stream");
            BusReaction::EndOfStream { line }
        },
        PeerBusMessage::Latency => BusReaction::RecalculateLatency,
        PeerBusMessage::Other => BusReaction::Nothing,
    }
}

/// Closing the window never turns into a failure of the session, whatever the
/// pipeline says while it is torn down.
pub proof fn closed_window_reports_nothing(error: Seq<char>)
    ensures
        !error_is_reported(error, Some(false)),
{
}

#[derive(Debug, Clone, Copy, PartialEq, Eq, Structural)]
pub enum PeerConnectionState {
    New,
    Connecting,
    Connected,
    Disconnected,
    Failed,
    Closed,
}

pub open spec fn connection_state_text(state: PeerConnectionState) -> Seq<char> {
    match state {
        PeerConnectionState::New => "New"@,
        PeerConnectionState::Connecting => "Connecting"@,
        PeerConnectionState::Connected => "Connected"@,
        PeerConnectionState::Disconnected => "Disconnected"@,
        PeerConnectionState::Failed => "Failed"@,
        PeerConnectionState::Closed => "Closed"@,
    }
}

impl PeerConnectionState {
    pub fn name(self) -> (name: &'static str)
        ensures
            name@ == connection_state_text(self),
    {
        match self {
            PeerConnectionState::New => "New",
            PeerConnectionState::Connecting => "Connecting",
            PeerConnectionState::Connected => "Connected",
            PeerConnectionState::Disconnected => "Disconnected",
            PeerConnectionState::Failed => "Failed",
            PeerConnectionState::Closed => "Closed",
        }
    }
}

/// A failed or closed connection ends its session; one that was interrupted
/// may come back.
pub fn is_terminal_connection_state(state: PeerConnectionState) -> (yes: bool)
    ensures
        yes == (state is Failed || state is Closed),
{
    match state {
        PeerConnectionState::Failed => true,
        PeerConnectionState::Closed => true,
        _ => false,
    }
}

/// What is done about a new state of a connection.
#[derive(Debug)]
pub struct ConnectionReaction {
    /// The line to print.
    pub line: String,
    /// The connection carries media now.
    pub connected: bool,
    /// Why the connection is over.
    pub failure: Option<String>,
}

pub fn watch_connection(label: &str, state: PeerConnectionState) -> (reaction: ConnectionReaction)
    ensures
        reaction.line@ == "["@ + label@ + "] peer connection: "@ + connection_state_text(state),
        reaction.connected == (state is Connected),
        json::optional_text(reaction.failure) == if state is Failed || state is Closed {
            Some("peer connection entered "@ + connection_state_text(state))
        } else {
            None
        },
{
    let mut line = "[".to_owned();
    line.append(label);
    line.append("] peer connection: ");
    line.append(state.name());
    let connected = match state {
        PeerConnectionState::Connected => true,
        _ => false,
    };
    let failure: Option<String> = if is_terminal_connection_state(state) {
        let mut text = "peer connection entered ".to_owned();
        text.append(state.name());
        Some(text)
    } else {
        None
    };
    ConnectionReaction { line, connected, failure }
}

/// What is wrong with the answer to a promise.
pub open spec fn promise_problem(reply: PromiseReply, operation: Seq<char>) -> Option<Seq<char>> {
    match reply {
        PromiseReply::Failed(reason) => Some(operation + " promise failed: "@ + reason@),
        PromiseReply::Error(reason) => Some(operation + " failed: "@ + reason@),
        PromiseReply::Empty => None,
        PromiseReply::Answered => None,
    }
}

/// Checks the answer to a promise. Returns whether it has a payload.
pub fn check_promise_reply(reply: &PromiseReply, operation: &str) -> (result: Result<bool, String>)
    ensures
        match promise_problem(*reply, operation@) {
            Some(problem) => result matches Err(text) && text@ == problem,
            None => result matches Ok(has_payload) && has_payload == (*reply is Answered),
        },
{
    match reply {
        PromiseReply::Failed(reason) => {
            let mut text = operation.to_owned();
            text.append(" promise failed: ");
            text.append(reason.as_str());
            Err(text)
        },
        PromiseReply::Error(reason) => {
            let mut text = operation.to_owned();
            text.append(" failed: ");
            text.append(reason.as_str());
            Err(text)
        },
        PromiseReply::Empty => Ok(false),
        PromiseReply::Answered => Ok(true),
    }
}

#[derive(Debug, Clone, Copy, PartialEq, Eq, Structural)]
pub enum SdpType {
    Offer,
    Answer,
}

pub open spec fn sdp_word(kind: SdpType) -> Seq<char> {
    match kind {
        SdpType::Offer => "offer"@,
        SdpType::Answer => "answer"@,
    }
}

impl SdpType {
    pub fn word(self) -> (word: &'static str)
        ensures
            word@ == sdp_word(self),
    {
        match self {
            SdpType::Offer => "offer",
            SdpType::Answer => "answer",
        }
    }
}

/// The type of a session description; `well_formed` says whether its text
/// could be read.
pub fn parse_sdp(kind: &str, well_formed: bool) -> (result: Result<SdpType, String>)
    ensures
        match result {
            Ok(sdp_type) => well_formed && kind@ == sdp_word(sdp_type),
            Err(text) => if !well_formed {
                text@ == "malformed SDP"@
            } else {
                &&& kind@ != "offer"@
                &&& kind@ != "answer"@
                &&& text@ == "unknown SDP type '"@ + kind@ + "'"@
            },
        },
{
    if !well_formed {
        return Err("malformed SDP".to_owned());
    }
    if same_text(kind, "offer") {
        return Ok(SdpType::Offer);
    }
    if same_text(kind, "answer") {
        return Ok(SdpType::Answer);
    }
    let mut text = "unknown SDP type '".to_owned();
    text.append(kind);
    text.append("'");
    Err(text)
}

/// What is wrong with the answer to a request for a description.
pub open spec fn description_problem(
    reply: PromiseReply,
    value: OfferValue,
    kind: SdpType,
) -> Option<Seq<char>> {
    let operation = "creating "@ + sdp_word(kind);
    match promise_problem(reply, operation) {
        Some(problem) => Some(problem),
        None => if reply is Empty || value is Missing {
            Some(operation + " returned no description"@)
        } else if value is Invalid {
            Some(operation + " returned an invalid description"@)
        } else {
            None
        },
    }
}

/// Judges the answer to a request for an offer or an answer: it can be
/// installed, or this is what is wrong with it.
pub fn created_description(reply: &PromiseReply, value: OfferValue, kind: SdpType) -> (result:
    Result<(), String>)
    ensures
        probe::problem(result) == description_problem(*reply, value, kind),
{
    let mut operation = "creating ".to_owned();
    operation.append(kind.word());
    let has_payload = match check_promise_reply(reply, operation.as_str()) {
        Ok(has_payload) => has_payload,
        Err(error) => return Err(error),
    };
    let missing = match value {
        OfferValue::Missing => true,
        _ => false,
    };
    if !has_payload || missing {
        operation.append(" returned no description");
        return Err(operation);
    }
    match value {
        OfferValue::Present => Ok(()),
        _ => {
            operation.append(" returned an invalid description");
            Err(operation)
        },
    }
}

/// What is sent once a description is installed locally.
pub fn installed_description(reply: &PromiseReply, kind: SdpType, peer: &str, sdp: &str) -> (result:
    Result<Signal, String>)
    ensures
        match promise_problem(*reply, "installing local "@ + sdp_word(kind)) {
            Some(problem) => result matches Err(text) && text@ == problem,
            None => result matches Ok(Signal::Sdp { peer: to, kind: word, sdp: body }) && to@
                == peer@ && word@ == sdp_word(kind) && body@ == sdp@,
        },
{
    let mut operation = "installing local ".to_owned();
    operation.append(kind.word());
    match check_promise_reply(reply, operation.as_str()) {
        Ok(_) => Ok(
            Signal::Sdp {
                peer: peer.to_owned(),
                kind: kind.word().to_owned(),
                sdp: sdp.to_owned(),
            },
        ),
        Err(error) => Err(error),
    }
}

/// A description is sent only after it was installed locally.
pub proof fn nothing_is_sent_before_it_is_installed(reply: PromiseReply, kind: SdpType)
    ensures
        reply is Failed || reply is Error ==> promise_problem(
            reply,
            "installing local "@ + sdp_word(kind),
        ) is Some,
{
}

/// Passes a local candidate on to the other peer. A callback without its two
/// values is dropped.
pub fn forward_ice(peer: &str, mline: Option<u32>, candidate: &Option<String>) -> (signal: Option<
    Signal,
>)
    ensures
        match (mline, *candidate) {
            (Some(line), Some(text)) => signal matches Some(
                Signal::Ice { peer: to, mline: at, candidate: body },
            ) && to@ == peer@ && at == line && body@ == text@,
            _ => signal is None,
        },
{
    match (mline, candidate) {
        (Some(mline), Some(candidate)) => Some(
            Signal::Ice {
                peer: peer.to_owned(),
                mline,
                candidate: candidate.as_str().to_owned(),
            },
        ),
        _ => None,
    }
}

pub open spec fn session_payload(id: Seq<char>) -> Seq<char> {
    json::json_object(seq![("id"@, json::json_string(id))])
}

pub(crate) fn session_event(id: &str) -> (payload: String)
    ensures
        payload@ == session_payload(id@),
{
    let mut members: Vec<Member> = Vec::new();
    members.push(text_member("id", id));
    proof {
        assert(json::member_texts(members@) =~= seq![("id"@, json::json_string(id@))]);
    }
    object(&members)
}

/// What a session and its cleanup came to.
pub fn combine_session_and_cleanup(session: Result<(), String>, cleanup: Result<(), String>) -> (
result: Result<(), String>)
    ensures
        pipeline_run::told(result) == pipeline_run::combined(
            pipeline_run::told(session),
            pipeline_run::told(cleanup),
        ),
{
    combine_pipeline_results(session, cleanup)
}

/// Retransmission is asked for video.
#[derive(Debug, Clone, Copy, PartialEq, Eq, Structural)]
pub enum TransceiverKind {
    Unknown,
    Audio,
    Video,
}

pub fn enable_nack(kind: TransceiverKind) -> (yes: bool)
    ensures
        yes == (kind is Video),
{
    match kind {
        TransceiverKind::Video => true,
        _ => false,
    }
}

} // verus!
