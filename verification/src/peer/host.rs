//! Host: a window is captured and encoded once, and served to any number of
//! viewers.

use vstd::prelude::*;
use vstd::string::*;

use super::{combine_session_and_cleanup, session_event, session_payload, Signal};
use crate::json::{self, number_member, object, raw_member, text_member, Member};
use crate::pipeline::{
    self, build_audio_chain, build_capture_chain, check_audio_elements, check_elements,
    configure_encoder, set_encoder_gop, CaptureSettings, Property,
};
use crate::pipeline_run;
use crate::text_ops::{
    self, chars_of, decimal_string, parse_unsigned, same_text, text_contains,
};

verus! {

pub const IDLE_REDRAW_INTERVAL_MS: u64 = 50;

pub const IDLE_REDRAW_AFTER_MS: u64 = 100;

pub const RECOVERY_KEYFRAME_INTERVAL_MS: u64 = 2000;

/// A window that draws nothing is asked to redraw, as long as somebody
/// watches.
pub open spec fn redraw_is_due(viewer_count: int, silence_ms: u64) -> bool {
    viewer_count > 0 && silence_ms >= IDLE_REDRAW_AFTER_MS
}

pub fn should_request_idle_redraw(viewer_count: usize, silence_ms: u64) -> (yes: bool)
    ensures
        yes == redraw_is_due(viewer_count as int, silence_ms),
{
    viewer_count > 0 && silence_ms >= IDLE_REDRAW_AFTER_MS
}

/// Two seconds of the measured frames, which are at least one a second and at
/// most the configured rate. Nothing was measured where there were no frames
/// or no time.
pub open spec fn recovery_gop(
    frames: u64,
    elapsed_ns: u128,
    measured_fps: u32,
    configured_fps: u32,
) -> Option<u32> {
    if frames == 0 || elapsed_ns == 0 {
        None
    } else {
        let most = if configured_fps >= 1 {
            configured_fps as int
        } else {
            1
        };
        let fps = if measured_fps < 1 {
            1
        } else if measured_fps > most {
            most
        } else {
            measured_fps as int
        };
        Some(
            if fps * 2 <= i32::MAX {
                (fps * 2) as u32
            } else {
                i32::MAX as u32
            },
        )
    }
}

/// The keyframe distance that the measured rate asks for; `measured_fps` is
/// frames by time, rounded.
pub fn recovery_gop_size(
    frames: u64,
    elapsed_ns: u128,
    measured_fps: u32,
    configured_fps: u32,
) -> (size: Option<u32>)
    ensures
        size == recovery_gop(frames, elapsed_ns, measured_fps, configured_fps),
{
    if frames == 0 || elapsed_ns == 0 {
        return None;
    }
    let most: u32 = if configured_fps >= 1 {
        configured_fps
    } else {
        1
    };
    let fps: u32 = if measured_fps < 1 {
        1
    } else if measured_fps > most {
        most
    } else {
        measured_fps
    };
    if fps <= 1_073_741_823 {
        Some(fps * 2)
    } else {
        Some(2_147_483_647)
    }
}

pub open spec fn initial_gop(configured_fps: u32) -> u32 {
    if configured_fps == 0 {
        2
    } else if configured_fps * 2 <= 120 {
        (configured_fps * 2) as u32
    } else {
        120
    }
}

/// The keyframe distance that a host starts with: two seconds, at most 120
/// frames.
pub fn initial_host_gop_size(configured_fps: u32) -> (size: u32)
    ensures
        size == initial_gop(configured_fps),
        2 <= size <= 120,
{
    if configured_fps == 0 {
        2
    } else if configured_fps <= 60 {
        configured_fps * 2
    } else {
        120
    }
}

/// The keyframe distance follows a measurement that differs by more than a
/// tenth, and by more than four frames.
pub fn gop_update(current: u32, measured: u32) -> (update: Option<u32>)
    ensures
        ({
            let apart = if current >= measured {
                current - measured
            } else {
                measured - current
            };
            let threshold = if current / 10 >= 4 {
                (current / 10) as int
            } else {
                4
            };
            update == if apart > threshold {
                Some(measured)
            } else {
                None
            }
        }),
{
    let tenth: u32 = current / 10;
    let threshold: u32 = if tenth >= 4 {
        tenth
    } else {
        4
    };
    let apart: u32 = if current >= measured {
        current - measured
    } else {
        measured - current
    };
    if apart > threshold {
        Some(measured)
    } else {
        None
    }
}

/// What a host records about its session: the identifier that comes with its
/// own room, and no other.
pub open spec fn host_session(signal: Signal) -> Option<Seq<char>> {
    match signal {
        Signal::Hosting { diagnostic_session, .. } => match diagnostic_session {
            Some(id) => Some(session_payload(id@)),
            None => None,
        },
        _ => None,
    }
}

pub fn handle_host_diagnostic_signal(signal: &Signal) -> (payload: Option<String>)
    ensures
        json::optional_text(payload) == host_session(*signal),
{
    match signal {
        Signal::Hosting { diagnostic_session, .. } => match diagnostic_session {
            Some(id) => Some(session_event(id.as_str())),
            None => None,
        },
        _ => None,
    }
}

/// Only the relay's word that this process hosts a room is taken for its
/// session: what comes with any other message is not recorded.
pub proof fn host_session_comes_with_hosting_only(signal: Signal)
    ensures
        host_session(signal) is Some ==> signal is Hosting,
{
}

/// The line that tells the surroundings who watches.
pub open spec fn status_line(
    event: Seq<char>,
    peer: Seq<char>,
    label: Seq<char>,
    id: Option<Seq<char>>,
    avatar_url: Option<Seq<char>>,
) -> Seq<char> {
    "[host-status] "@ + json::json_object(
        seq![
            ("avatar_url"@, json::json_optional(avatar_url)),
            ("event"@, json::json_string(event)),
            ("id"@, json::json_optional(id)),
            ("label"@, json::json_string(label)),
            ("peer"@, json::json_string(peer)),
        ],
    )
}

pub fn print_viewer_status(
    event: &str,
    peer: &str,
    label: &str,
    id: &Option<String>,
    avatar_url: &Option<String>,
) -> (line: String)
    ensures
        line@ == status_line(
            event@,
            peer@,
            label@,
            json::optional_text(*id),
            json::optional_text(*avatar_url),
        ),
{
    let avatar = json::quoted_optional(avatar_url);
    let identity = json::quoted_optional(id);
    let mut members: Vec<Member> = Vec::new();
    members.push(raw_member("avatar_url", avatar.as_str()));
    members.push(text_member("event", event));
    members.push(raw_member("id", identity.as_str()));
    members.push(text_member("label", label));
    members.push(text_member("peer", peer));
    proof {
        assert(json::member_texts(members@) =~= seq![
            ("avatar_url"@, json::json_optional(json::optional_text(*avatar_url))),
            ("event"@, json::json_string(event@)),
            ("id"@, json::json_optional(json::optional_text(*id))),
            ("label"@, json::json_string(label@)),
            ("peer"@, json::json_string(peer@)),
        ]);
    }
    let mut line = "[host-status] ".to_owned();
    line.append(object(&members).as_str());
    line
}

/// A status line stays one line, whatever a viewer calls itself.
pub proof fn status_line_is_one_line(
    event: Seq<char>,
    peer: Seq<char>,
    label: Seq<char>,
    id: Option<Seq<char>>,
    avatar_url: Option<Seq<char>>,
)
    ensures
        json::one_line(status_line(event, peer, label, id, avatar_url)),
{
    reveal_strlit("[host-status] ");
    reveal_strlit("null");
    json::json_string_is_one_line(event);
    json::json_string_is_one_line(peer);
    json::json_string_is_one_line(label);
    if let Some(text) = id {
        json::json_string_is_one_line(text);
    }
    if let Some(text) = avatar_url {
        json::json_string_is_one_line(text);
    }
    json::json_object_is_one_line(
        seq![
            ("avatar_url"@, json::json_optional(avatar_url)),
            ("event"@, json::json_string(event)),
            ("id"@, json::json_optional(id)),
            ("label"@, json::json_string(label)),
            ("peer"@, json::json_string(peer)),
        ],
    );
}

/// A viewer by the relay's id and by the name that people see.
#[derive(Debug)]
pub struct Viewer {
    pub peer: String,
    pub label: String,
}

pub struct ViewerModel {
    pub peer: Seq<char>,
    pub label: Seq<char>,
}

pub open spec fn viewer_models(viewers: Seq<Viewer>) -> Seq<ViewerModel> {
    viewers.map_values(|viewer: Viewer| ViewerModel { peer: viewer.peer@, label: viewer.label@ })
}

/// The host's side of a session.
#[derive(Debug)]
pub struct HostSession {
    /// The configured frame rate.
    pub fps: u32,
    pub viewers: Vec<Viewer>,
    /// Capture has started.
    pub started: bool,
}

pub struct HostModel {
    pub fps: u32,
    pub viewers: Seq<ViewerModel>,
    pub started: bool,
}

impl View for HostSession {
    type V = HostModel;

    open spec fn view(&self) -> HostModel {
        HostModel {
            fps: self.fps,
            viewers: viewer_models(self.viewers@),
            started: self.started,
        }
    }
}

/// No peer has two branches.
pub open spec fn distinct(viewers: Seq<ViewerModel>) -> bool {
    forall|i: int, j: int|
        0 <= i < j < viewers.len() ==> (#[trigger] viewers[i]).peer != (#[trigger] viewers[j]).peer
}

/// The place of a peer among the viewers.
pub open spec fn place_of(viewers: Seq<ViewerModel>, peer: Seq<char>) -> Option<int>
    decreases viewers.len(),
{
    if viewers.len() == 0 {
        None
    } else if viewers.last().peer == peer {
        Some(viewers.len() - 1)
    } else {
        place_of(viewers.drop_last(), peer)
    }
}

pub open spec fn watches(viewers: Seq<ViewerModel>, peer: Seq<char>) -> bool {
    place_of(viewers, peer) is Some
}

proof fn lemma_place(viewers: Seq<ViewerModel>, peer: Seq<char>)
    ensures
        match place_of(viewers, peer) {
            Some(i) => 0 <= i < viewers.len() && viewers[i].peer == peer,
            None => forall|i: int| 0 <= i < viewers.len() ==> (#[trigger] viewers[i]).peer != peer,
        },
    decreases viewers.len(),
{
    if viewers.len() > 0 {
        lemma_place(viewers.drop_last(), peer);
        if place_of(viewers, peer) is None {
            assert forall|i: int| 0 <= i < viewers.len() implies (#[trigger] viewers[i]).peer
                != peer by {
                if i < viewers.len() - 1 {
                    assert(viewers.drop_last()[i] == viewers[i]);
                }
            }
        }
    }
}

/// A peer that is among the viewers has one place.
pub proof fn one_branch_per_peer(viewers: Seq<ViewerModel>, peer: Seq<char>, i: int)
    requires
        distinct(viewers),
        0 <= i < viewers.len(),
        viewers[i].peer == peer,
    ensures
        place_of(viewers, peer) == Some(i),
{
    lemma_place(viewers, peer);
}

/// The name of a viewer's peer connection, by which errors are attributed.
pub open spec fn branch_name(peer: Seq<char>) -> Seq<char> {
    "viewer-"@ + peer
}

/// The viewer whose branch the source of an error names; where it names more
/// than one, the one that joined last.
pub open spec fn blamed(viewers: Seq<ViewerModel>, source: Seq<char>) -> Option<int>
    decreases viewers.len(),
{
    if viewers.len() == 0 {
        None
    } else if text_ops::mentions(source, branch_name(viewers.last().peer)) {
        Some(viewers.len() - 1)
    } else {
        blamed(viewers.drop_last(), source)
    }
}

/// The name that people see: the viewer's own, or one made of the relay's id.
pub open spec fn label_of(name: Option<String>, peer: Seq<char>) -> Seq<char> {
    match name {
        Some(name) => name@,
        None => "viewer "@ + peer,
    }
}

/// What a host meets.
#[derive(Debug)]
pub enum HostEvent {
    BusError { source: String, message: String },
    /// The interval of the redraws passed; so long was there no frame.
    IdleRedraw { silence_ms: u64 },
    /// The interval of the keyframes passed.
    RecoveryKeyframe { frames: u64, elapsed_ns: u128, measured_fps: u32 },
    ViewerFailed { peer: String, error: String },
    Signal(Signal),
    /// The relay is gone.
    SignallingClosed,
    /// A viewer's branch was built, or this is why not.
    ViewerAdded {
        peer: String,
        label: String,
        id: Option<String>,
        avatar_url: Option<String>,
        problem: Option<String>,
    },
}

/// What a host does, one after the other. Where one of them fails, the session
/// ends with that error and the rest is left out.
#[derive(Debug)]
pub enum HostAction {
    End,
    Fail { message: String },
    /// Hand the failure of a viewer to the session.
    FailViewer { peer: String, message: String },
    RequestRedraw,
    /// Count frames and time for the next keyframe distance anew.
    ResetSampling,
    EmitGop { payload: String },
    EmitSession { payload: String },
    ForceKeyframe,
    AddViewer { peer: String, label: String, id: Option<String>, avatar_url: Option<String> },
    RemoveViewer { peer: String },
    StartPipeline,
    InstallAnswer { peer: String, sdp: String },
    AddCandidate { peer: String, mline: u32, candidate: String },
    Print { line: String },
    PrintError { line: String },
}

pub enum HostActionModel {
    End,
    Fail(Seq<char>),
    FailViewer(Seq<char>, Seq<char>),
    RequestRedraw,
    ResetSampling,
    EmitGop(Seq<char>),
    EmitSession(Seq<char>),
    ForceKeyframe,
    AddViewer(Seq<char>, Seq<char>, Option<Seq<char>>, Option<Seq<char>>),
    RemoveViewer(Seq<char>),
    StartPipeline,
    InstallAnswer(Seq<char>, Seq<char>),
    AddCandidate(Seq<char>, u32, Seq<char>),
    Print(Seq<char>),
    PrintError(Seq<char>),
}

pub open spec fn action_model(action: HostAction) -> HostActionModel {
    match action {
        HostAction::End => HostActionModel::End,
        HostAction::Fail { message } => HostActionModel::Fail(message@),
        HostAction::FailViewer { peer, message } => HostActionModel::FailViewer(peer@, message@),
        HostAction::RequestRedraw => HostActionModel::RequestRedraw,
        HostAction::ResetSampling => HostActionModel::ResetSampling,
        HostAction::EmitGop { payload } => HostActionModel::EmitGop(payload@),
        HostAction::EmitSession { payload } => HostActionModel::EmitSession(payload@),
        HostAction::ForceKeyframe => HostActionModel::ForceKeyframe,
        HostAction::AddViewer { peer, label, id, avatar_url } => HostActionModel::AddViewer(
            peer@,
            label@,
            json::optional_text(id),
            json::optional_text(avatar_url),
        ),
        HostAction::RemoveViewer { peer } => HostActionModel::RemoveViewer(peer@),
        HostAction::StartPipeline => HostActionModel::StartPipeline,
        HostAction::InstallAnswer { peer, sdp } => HostActionModel::InstallAnswer(peer@, sdp@),
        HostAction::AddCandidate { peer, mline, candidate } => HostActionModel::AddCandidate(
            peer@,
            mline,
            candidate@,
        ),
        HostAction::Print { line } => HostActionModel::Print(line@),
        HostAction::PrintError { line } => HostActionModel::PrintError(line@),
    }
}

pub open spec fn action_models(actions: Seq<HostAction>) -> Seq<HostActionModel> {
    actions.map_values(|action: HostAction| action_model(action))
}

pub open spec fn joined_line(label: Seq<char>, count: int) -> Seq<char> {
    "[host] "@ + label + " joined ("@ + text_ops::decimal(count as nat) + " watching)"@
}

pub open spec fn left_line(label: Seq<char>, count: int) -> Seq<char> {
    "[host] "@ + label + " left ("@ + text_ops::decimal(count as nat) + " remaining)"@
}

pub open spec fn left_status(peer: Seq<char>, label: Seq<char>) -> Seq<char> {
    status_line("left"@, peer, label, None, None)
}

pub open spec fn failed_line(peer: Seq<char>, error: Seq<char>) -> Seq<char> {
    "[host] viewer "@ + peer + " negotiation failed: "@ + error
}

pub open spec fn gop_payload(frames: u64, elapsed_ns: u128, measured: u32, active: u32) -> Seq<
    char,
> {
    json::json_object(
        seq![
            ("active_gop_size"@, text_ops::decimal(active as nat)),
            ("measured_gop_size"@, text_ops::decimal(measured as nat)),
            ("sampled_frames"@, text_ops::decimal(frames as nat)),
            ("sampled_ms"@, text_ops::decimal((elapsed_ns / 1_000_000) as nat)),
        ],
    )
}

pub open spec fn without(host: HostModel, i: int) -> HostModel {
    HostModel { viewers: host.viewers.remove(i), ..host }
}

pub open spec fn with_viewer(host: HostModel, peer: Seq<char>, label: Seq<char>) -> HostModel {
    HostModel { viewers: host.viewers.push(ViewerModel { peer, label }), started: true, ..host }
}

/// What follows when a viewer's branch was built, or was not.
pub open spec fn after_added(
    host: HostModel,
    peer: Seq<char>,
    label: Seq<char>,
    id: Option<Seq<char>>,
    avatar_url: Option<Seq<char>>,
    problem: Option<Seq<char>>,
) -> (HostModel, Seq<HostActionModel>) {
    match problem {
        Some(problem) => (
            host,
            seq![
                HostActionModel::PrintError(
                    "[host] could not add viewer "@ + peer + ": "@ + problem,
                ),
            ],
        ),
        None => {
            let rest = seq![
                HostActionModel::RequestRedraw,
                HostActionModel::Print(joined_line(label, (host.viewers.len() + 1) as int)),
                HostActionModel::Print(status_line("joined"@, peer, label, id, avatar_url)),
            ];
            (
                with_viewer(host, peer, label),
                if host.started {
                    rest
                } else {
                    seq![HostActionModel::StartPipeline] + rest
                },
            )
        },
    }
}

/// What follows from a message of the relay, after what is recorded of it.
pub open spec fn after_signal(host: HostModel, signal: Signal) -> (
    HostModel,
    Seq<HostActionModel>,
) {
    match signal {
        Signal::Hosting { code, .. } => (
            host,
            seq![
                HostActionModel::Print("\n  Share this code:  "@ + code@ + "\n"@),
                HostActionModel::Print(
                    "  Viewers run:  orange watch --code "@ + code@ + "\n"@,
                ),
            ],
        ),
        Signal::ViewerJoined { peer, name, id, avatar_url } => if watches(host.viewers, peer@) {
            (
                host,
                seq![
                    HostActionModel::PrintError(
                        "[host] ignoring duplicate join from viewer "@ + peer@,
                    ),
                ],
            )
        } else {
            let add = HostActionModel::AddViewer(
                peer@,
                label_of(name, peer@),
                json::optional_text(id),
                json::optional_text(avatar_url),
            );
            (
                host,
                if host.viewers.len() == 0 {
                    seq![HostActionModel::ResetSampling, add]
                } else {
                    seq![add]
                },
            )
        },
        Signal::ViewerLeft { peer } => match place_of(host.viewers, peer@) {
            Some(i) => {
                let label = host.viewers[i].label;
                (
                    without(host, i),
                    seq![
                        HostActionModel::RemoveViewer(peer@),
                        HostActionModel::Print(left_line(label, host.viewers.len() - 1)),
                        HostActionModel::Print(left_status(peer@, label)),
                    ],
                )
            },
            None => (host, Seq::empty()),
        },
        Signal::Sdp { peer, kind, sdp } => if kind@ == "answer"@ && watches(host.viewers, peer@) {
            (host, seq![HostActionModel::InstallAnswer(peer@, sdp@)])
        } else {
            (host, Seq::empty())
        },
        Signal::Ice { peer, mline, candidate } => if watches(host.viewers, peer@) {
            (host, seq![HostActionModel::AddCandidate(peer@, mline, candidate@)])
        } else {
            (host, Seq::empty())
        },
        Signal::Authenticated { name } => (
            host,
            seq![HostActionModel::Print("[host] signed in as "@ + name@)],
        ),
        Signal::Error { message } => (
            host,
            seq![HostActionModel::PrintError("[host] server: "@ + message@)],
        ),
        _ => (host, Seq::empty()),
    }
}

pub open spec fn recorded_session(signal: Signal) -> Seq<HostActionModel> {
    match host_session(signal) {
        Some(payload) => seq![HostActionModel::EmitSession(payload)],
        None => Seq::empty(),
    }
}

/// What a host does about an event, and what it is after that.
pub open spec fn host_after(host: HostModel, event: HostEvent) -> (
    HostModel,
    Seq<HostActionModel>,
) {
    match event {
        HostEvent::BusError { source, message } => match blamed(host.viewers, source@) {
            Some(i) => (
                host,
                seq![HostActionModel::FailViewer(host.viewers[i].peer, message@)],
            ),
            None => (host, seq![HostActionModel::Fail(message@)]),
        },
        HostEvent::IdleRedraw { silence_ms } => (
            host,
            if redraw_is_due(host.viewers.len() as int, silence_ms) {
                seq![HostActionModel::RequestRedraw]
            } else {
                Seq::empty()
            },
        ),
        HostEvent::RecoveryKeyframe { frames, elapsed_ns, measured_fps } => (
            host,
            if host.viewers.len() == 0 {
                Seq::empty()
            } else {
                match recovery_gop(frames, elapsed_ns, measured_fps, host.fps) {
                    Some(measured) => seq![
                        HostActionModel::EmitGop(
                            gop_payload(frames, elapsed_ns, measured, initial_gop(host.fps)),
                        ),
                        HostActionModel::ForceKeyframe,
                    ],
                    None => seq![HostActionModel::ForceKeyframe],
                }
            },
        ),
        HostEvent::ViewerFailed { peer, error } => match place_of(host.viewers, peer@) {
            Some(i) => {
                let label = host.viewers[i].label;
                (
                    without(host, i),
                    seq![
                        HostActionModel::RemoveViewer(peer@),
                        HostActionModel::Print(left_status(peer@, label)),
                        HostActionModel::Print(left_line(label, host.viewers.len() - 1)),
                        HostActionModel::PrintError(failed_line(peer@, error@)),
                    ],
                )
            },
            None => (host, seq![HostActionModel::PrintError(failed_line(peer@, error@))]),
        },
        HostEvent::Signal(signal) => {
            let (next, actions) = after_signal(host, signal);
            (next, recorded_session(signal) + actions)
        },
        HostEvent::SignallingClosed => (host, seq![HostActionModel::End]),
        HostEvent::ViewerAdded { peer, label, id, avatar_url, problem } => after_added(
            host,
            peer@,
            label@,
            json::optional_text(id),
            json::optional_text(avatar_url),
            json::optional_text(problem),
        ),
    }
}

/// A viewer can be added: nobody with its id is there.
pub open spec fn admissible(host: HostModel, event: HostEvent) -> bool {
    event matches HostEvent::ViewerAdded { peer, .. } ==> !watches(host.viewers, peer@)
}

fn copied(text: &Option<String>) -> (out: Option<String>)
    ensures
        json::optional_text(out) == json::optional_text(*text),
{
    match text {
        Some(text) => Some(text.as_str().to_owned()),
        None => None,
    }
}

fn joined_text(label: &str, count: usize) -> (line: String)
    ensures
        line@ == joined_line(label@, count as int),
{
    let mut line = "[host] ".to_owned();
    line.append(label);
    line.append(" joined (");
    line.append(decimal_string(count as u128).as_str());
    line.append(" watching)");
    line
}

fn left_text(label: &str, count: usize) -> (line: String)
    ensures
        line@ == left_line(label@, count as int),
{
    let mut line = "[host] ".to_owned();
    line.append(label);
    line.append(" left (");
    line.append(decimal_string(count as u128).as_str());
    line.append(" remaining)");
    line
}

fn gop_event(frames: u64, elapsed_ns: u128, measured: u32, active: u32) -> (payload: String)
    ensures
        payload@ == gop_payload(frames, elapsed_ns, measured, active),
{
    let mut members: Vec<Member> = Vec::new();
    members.push(number_member("active_gop_size", active as u128));
    members.push(number_member("measured_gop_size", measured as u128));
    members.push(number_member("sampled_frames", frames as u128));
    members.push(number_member("sampled_ms", elapsed_ns / 1_000_000));
    proof {
        assert(json::member_texts(members@) =~= seq![
            ("active_gop_size"@, text_ops::decimal(active as nat)),
            ("measured_gop_size"@, text_ops::decimal(measured as nat)),
            ("sampled_frames"@, text_ops::decimal(frames as nat)),
            ("sampled_ms"@, text_ops::decimal((elapsed_ns / 1_000_000) as nat)),
        ]);
    }
    object(&members)
}

impl HostSession {
    pub open spec fn wf(&self) -> bool {
        distinct(self@.viewers)
    }

    pub fn new(fps: u32) -> (session: HostSession)
        ensures
            session@ == (HostModel { fps, viewers: Seq::empty(), started: false }),
            session.wf(),
    {
        let session = HostSession { fps, viewers: Vec::new(), started: false };
        proof {
            assert(session@.viewers =~= Seq::empty());
        }
        session
    }

    fn find(&self, peer: &str) -> (place: Option<usize>)
        ensures
            match place_of(self@.viewers, peer@) {
                Some(i) => 0 <= i < self.viewers@.len() && (place matches Some(k) && k == i)
                    && self@.viewers[i].peer == peer@,
                None => place is None,
            },
    {
        let ghost all = self@.viewers;
        let mut i: usize = self.viewers.len();
        proof {
            lemma_place(all, peer@);
            assert(all.take(all.len() as int) =~= all);
        }
        while i > 0
            invariant
                i <= self.viewers@.len(),
                all == self@.viewers,
                all.len() == self.viewers@.len(),
                place_of(all, peer@) == place_of(all.take(i as int), peer@),
                match place_of(all, peer@) {
                    Some(k) => 0 <= k < all.len() && all[k].peer == peer@,
                    None => true,
                },
            decreases i,
        {
            proof {
                assert(all.take(i as int).drop_last() =~= all.take(i - 1));
                assert(all.take(i as int).last() == all[i - 1]);
            }
            if same_text(self.viewers[i - 1].peer.as_str(), peer) {
                return Some(i - 1);
            }
            i -= 1;
        }
        proof {
            assert(all.take(0).len() == 0);
        }
        None
    }

    /// A peer has a branch.
    pub fn has_viewer(&self, peer: &str) -> (yes: bool)
        ensures
            yes == watches(self@.viewers, peer@),
    {
        match self.find(peer) {
            Some(_) => true,
            None => false,
        }
    }

    /// The viewer whose branch an error comes from.
    fn find_blamed(&self, source: &str) -> (place: Option<usize>)
        ensures
            match blamed(self@.viewers, source@) {
                Some(i) => 0 <= i < self.viewers@.len() && (place matches Some(k) && k == i),
                None => place is None,
            },
    {
        let ghost all = self@.viewers;
        let mut i: usize = self.viewers.len();
        proof {
            assert(all.take(all.len() as int) =~= all);
        }
        while i > 0
            invariant
                i <= self.viewers@.len(),
                all == self@.viewers,
                all.len() == self.viewers@.len(),
                blamed(all, source@) == blamed(all.take(i as int), source@),
            decreases i,
        {
            proof {
                assert(all.take(i as int).drop_last() =~= all.take(i - 1));
                assert(all.take(i as int).last() == all[i - 1]);
            }
            let mut name = "viewer-".to_owned();
            name.append(self.viewers[i - 1].peer.as_str());
            if text_contains(source, name.as_str()) {
                return Some(i - 1);
            }
            i -= 1;
        }
        proof {
            assert(all.take(0).len() == 0);
        }
        None
    }

    fn remove_at(&mut self, i: usize) -> (label: String)
        requires
            i < old(self).viewers@.len(),
            old(self).wf(),
        ensures
            final(self)@ == without(old(self)@, i as int),
            final(self).wf(),
            label@ == old(self)@.viewers[i as int].label,
    {
        let ghost before = self@;
        let viewer = self.viewers.remove(i);
        proof {
            assert(self@.viewers =~= before.viewers.remove(i as int));
        }
        viewer.label
    }

    fn added(
        &mut self,
        peer: &str,
        label: &str,
        id: &Option<String>,
        avatar_url: &Option<String>,
        problem: &Option<String>,
    ) -> (actions: Vec<HostAction>)
        requires
            old(self).wf(),
            !watches(old(self)@.viewers, peer@),
        ensures
            final(self).wf(),
            (final(self)@, action_models(actions@)) == after_added(
                old(self)@,
                peer@,
                label@,
                json::optional_text(*id),
                json::optional_text(*avatar_url),
                json::optional_text(*problem),
            ),
    {
        let mut actions: Vec<HostAction> = Vec::new();
        let ghost before = self@;
        if let Some(problem) = problem {
            let mut line = "[host] could not add viewer ".to_owned();
            line.append(peer);
            line.append(": ");
            line.append(problem.as_str());
            actions.push(HostAction::PrintError { line });
            proof {
                assert(action_models(actions@) =~= seq![
                    HostActionModel::PrintError(
                        "[host] could not add viewer "@ + peer@ + ": "@ + problem@,
                    ),
                ]);
            }
            return actions;
        }
        proof {
            lemma_place(before.viewers, peer@);
        }
        self.viewers.push(Viewer { peer: peer.to_owned(), label: label.to_owned() });
        proof {
            assert(self@.viewers =~= before.viewers.push(
                ViewerModel { peer: peer@, label: label@ },
            ));
        }
        let started = self.started;
        if !started {
            actions.push(HostAction::StartPipeline);
            self.started = true;
        }
        let count: usize = self.viewers.len();
        actions.push(HostAction::RequestRedraw);
        let line = joined_text(label, count);
        actions.push(HostAction::Print { line });
        let line = print_viewer_status("joined", peer, label, id, avatar_url);
        actions.push(HostAction::Print { line });
        proof {
            let rest = seq![
                HostActionModel::RequestRedraw,
                HostActionModel::Print(joined_line(label@, (before.viewers.len() + 1) as int)),
                HostActionModel::Print(
                    status_line(
                        "joined"@,
                        peer@,
                        label@,
                        json::optional_text(*id),
                        json::optional_text(*avatar_url),
                    ),
                ),
            ];
            if started {
                assert(action_models(actions@) =~= rest);
            } else {
                assert(action_models(actions@) =~= seq![HostActionModel::StartPipeline] + rest);
            }
        }
        actions
    }

    fn signalled(&mut self, signal: &Signal) -> (actions: Vec<HostAction>)
        requires
            old(self).wf(),
        ensures
            final(self).wf(),
            (final(self)@, action_models(actions@)) == after_signal(old(self)@, *signal),
    {
        let ghost before = self@;
        let mut actions: Vec<HostAction> = Vec::new();
        match signal {
            Signal::Hosting { code, .. } => {
                let mut line = "\n  Share this code:  ".to_owned();
                line.append(code.as_str());
                line.append("\n");
                actions.push(HostAction::Print { line });
                let mut line = "  Viewers run:  orange watch --code ".to_owned();
                line.append(code.as_str());
                line.append("\n");
                actions.push(HostAction::Print { line });
            },
            Signal::ViewerJoined { peer, name, id, avatar_url } => {
                if self.has_viewer(peer.as_str()) {
                    let mut line = "[host] ignoring duplicate join from viewer ".to_owned();
                    line.append(peer.as_str());
                    actions.push(HostAction::PrintError { line });
                } else {
                    if self.viewers.len() == 0 {
                        actions.push(HostAction::ResetSampling);
                    }
                    let label = match name {
                        Some(name) => name.as_str().to_owned(),
                        None => {
                            let mut label = "viewer ".to_owned();
                            label.append(peer.as_str());
                            label
                        },
                    };
                    actions.push(
                        HostAction::AddViewer {
                            peer: peer.as_str().to_owned(),
                            label,
                            id: copied(id),
                            avatar_url: copied(avatar_url),
                        },
                    );
                }
            },
            Signal::ViewerLeft { peer } => {
                if let Some(i) = self.find(peer.as_str()) {
                    let label = self.remove_at(i);
                    proof {
                        assert(self@.viewers.len() == before.viewers.len() - 1);
                        assert(self.viewers@.len() == self@.viewers.len());
                    }
                    actions.push(HostAction::RemoveViewer { peer: peer.as_str().to_owned() });
                    let line = left_text(label.as_str(), self.viewers.len());
                    actions.push(HostAction::Print { line });
                    let line = print_viewer_status(
                        "left",
                        peer.as_str(),
                        label.as_str(),
                        &None,
                        &None,
                    );
                    actions.push(HostAction::Print { line });
                    proof {
                        assert(action_models(actions@) =~= after_signal(before, *signal).1);
                    }
                }
            },
            Signal::Sdp { peer, kind, sdp } => {
                if same_text(kind.as_str(), "answer") && self.has_viewer(peer.as_str()) {
                    actions.push(
                        HostAction::InstallAnswer {
                            peer: peer.as_str().to_owned(),
                            sdp: sdp.as_str().to_owned(),
                        },
                    );
                }
            },
            Signal::Ice { peer, mline, candidate } => {
                if self.has_viewer(peer.as_str()) {
                    actions.push(
                        HostAction::AddCandidate {
                            peer: peer.as_str().to_owned(),
                            mline: *mline,
                            candidate: candidate.as_str().to_owned(),
                        },
                    );
                }
            },
            Signal::Authenticated { name } => {
                let mut line = "[host] signed in as ".to_owned();
                line.append(name.as_str());
                actions.push(HostAction::Print { line });
            },
            Signal::Error { message } => {
                let mut line = "[host] server: ".to_owned();
                line.append(message.as_str());
                actions.push(HostAction::PrintError { line });
            },
            _ => {},
        }
        proof {
            assert(action_models(actions@) =~= after_signal(before, *signal).1);
        }
        actions
    }
}

/// One step of a host's session.
pub fn run_host(session: &mut HostSession, event: &HostEvent) -> (actions: Vec<HostAction>)
    requires
        old(session).wf(),
        admissible(old(session)@, *event),
    ensures
        final(session).wf(),
        (final(session)@, action_models(actions@)) == host_after(old(session)@, *event),
{
    let ghost before = session@;
    let mut actions: Vec<HostAction> = Vec::new();
    match event {
        HostEvent::BusError { source, message } => {
            match session.find_blamed(source.as_str()) {
                Some(i) => {
                    actions.push(
                        HostAction::FailViewer {
                            peer: session.viewers[i].peer.as_str().to_owned(),
                            message: message.as_str().to_owned(),
                        },
                    );
                },
                None => {
                    actions.push(HostAction::Fail { message: message.as_str().to_owned() });
                },
            }
        },
        HostEvent::IdleRedraw { silence_ms } => {
            if should_request_idle_redraw(session.viewers.len(), *silence_ms) {
                actions.push(HostAction::RequestRedraw);
            }
        },
        HostEvent::RecoveryKeyframe { frames, elapsed_ns, measured_fps } => {
            if session.viewers.len() > 0 {
                if let Some(measured) = recovery_gop_size(
                    *frames,
                    *elapsed_ns,
                    *measured_fps,
                    session.fps,
                ) {
                    let active: u32 = initial_host_gop_size(session.fps);
                    let payload = gop_event(*frames, *elapsed_ns, measured, active);
                    actions.push(HostAction::EmitGop { payload });
                }
                actions.push(HostAction::ForceKeyframe);
            }
        },
        HostEvent::ViewerFailed { peer, error } => {
            if let Some(i) = session.find(peer.as_str()) {
                let label = session.remove_at(i);
                proof {
                    assert(session@.viewers.len() == before.viewers.len() - 1);
                    assert(session.viewers@.len() == session@.viewers.len());
                }
                actions.push(HostAction::RemoveViewer { peer: peer.as_str().to_owned() });
                let line = print_viewer_status(
                    "left",
                    peer.as_str(),
                    label.as_str(),
                    &None,
                    &None,
                );
                actions.push(HostAction::Print { line });
                let line = left_text(label.as_str(), session.viewers.len());
                actions.push(HostAction::Print { line });
            }
            let mut line = "[host] viewer ".to_owned();
            line.append(peer.as_str());
            line.append(" negotiation failed: ");
            line.append(error.as_str());
            actions.push(HostAction::PrintError { line });
            proof {
                assert(action_models(actions@) =~= host_after(before, *event).1);
            }
        },
        HostEvent::Signal(signal) => {
            let recorded = handle_host_diagnostic_signal(signal);
            let mut rest = session.signalled(signal);
            if let Some(payload) = recorded {
                actions.push(HostAction::EmitSession { payload });
            }
            let ghost first = actions@;
            let ghost second = rest@;
            actions.append(&mut rest);
            proof {
                assert(action_models(first) =~= recorded_session(*signal));
                assert(actions@ == first + second);
                assert(action_models(actions@) =~= action_models(first) + action_models(second));
            }
        },
        HostEvent::SignallingClosed => {
            actions.push(HostAction::End);
        },
        HostEvent::ViewerAdded { peer, label, id, avatar_url, problem } => {
            return session.added(peer.as_str(), label.as_str(), id, avatar_url, problem);
        },
    }
    proof {
        assert(action_models(actions@) =~= host_after(before, *event).1);
    }
    actions
}

/// Nothing is done for people who do not watch: without viewers there are no
/// redraws and no keyframes, and descriptions and candidates of an unknown
/// peer are dropped.
pub proof fn nobody_watching_means_no_work(host: HostModel, event: HostEvent)
    requires
        host.viewers.len() == 0,
    ensures
        event is IdleRedraw || event is RecoveryKeyframe ==> host_after(host, event).1.len() == 0,
        event matches HostEvent::Signal(Signal::Sdp { .. }) ==> host_after(host, event).1.len()
            == 0,
        event matches HostEvent::Signal(Signal::Ice { .. }) ==> host_after(host, event).1.len()
            == 0,
{
}

/// A peer that left is forgotten: it is not among the viewers any more, and
/// may join again.
pub proof fn viewer_that_left_is_forgotten(host: HostModel, peer: String, error: String)
    requires
        distinct(host.viewers),
    ensures
        !watches(host_after(host, HostEvent::Signal(Signal::ViewerLeft { peer })).0.viewers, peer@),
        !watches(host_after(host, HostEvent::ViewerFailed { peer, error }).0.viewers, peer@),
{
    lemma_place(host.viewers, peer@);
    match place_of(host.viewers, peer@) {
        Some(i) => {
            let rest = host.viewers.remove(i);
            lemma_place(rest, peer@);
            if let Some(k) = place_of(rest, peer@) {
                let before = if k < i {
                    k
                } else {
                    k + 1
                };
                assert(rest[k] == host.viewers[before]);
            }
        },
        None => {},
    }
}

/// Capture is started with the first viewer, and never again.
pub proof fn capture_starts_once(host: HostModel, event: HostEvent)
    ensures
        host.started ==> host_after(host, event).0.started && !host_after(host, event).1.contains(
            HostActionModel::StartPipeline,
        ),
        host_after(host, event).1.contains(HostActionModel::StartPipeline) ==> host_after(
            host,
            event,
        ).0.started && host_after(host, event).0.viewers.len() == host.viewers.len() + 1,
        host_after(host, event).0.started && !host.started ==> host_after(host, event).1.contains(
            HostActionModel::StartPipeline,
        ),
{
    let actions = host_after(host, event).1;
    if host_after(host, event).0.started && !host.started {
        assert(actions[0] == HostActionModel::StartPipeline);
    }
}

/// An error that names no viewer's branch ends the session; one that does
/// costs that viewer only.
pub proof fn viewer_error_spares_the_others(host: HostModel, source: String, message: String)
    ensures
        ({
            let (next, actions) = host_after(host, HostEvent::BusError { source, message });
            &&& next == host
            &&& actions.len() == 1
            &&& actions[0] is FailViewer || actions[0] == HostActionModel::Fail(message@)
            &&& actions[0] is Fail <==> forall|i: int|
                0 <= i < host.viewers.len() ==> !text_ops::mentions(
                    source@,
                    branch_name((#[trigger] host.viewers[i]).peer),
                )
        }),
{
    lemma_blamed(host.viewers, source@);
}

proof fn lemma_blamed(viewers: Seq<ViewerModel>, source: Seq<char>)
    ensures
        match blamed(viewers, source) {
            Some(i) => 0 <= i < viewers.len() && text_ops::mentions(
                source,
                branch_name(viewers[i].peer),
            ),
            None => forall|i: int|
                0 <= i < viewers.len() ==> !text_ops::mentions(
                    source,
                    branch_name((#[trigger] viewers[i]).peer),
                ),
        },
    decreases viewers.len(),
{
    if viewers.len() > 0 {
        lemma_blamed(viewers.drop_last(), source);
        if blamed(viewers, source) is None {
            assert forall|i: int| 0 <= i < viewers.len() implies !text_ops::mentions(
                source,
                branch_name((#[trigger] viewers[i]).peer),
            ) by {
                if i < viewers.len() - 1 {
                    assert(viewers.drop_last()[i] == viewers[i]);
                }
            }
        }
    }
}

/// What a host says to the relay first: who it is, where that is known, and
/// who may see the room.
pub fn host_opening(token: &Option<String>, visible_to: Vec<String>) -> (signals: Vec<Signal>)
    ensures
        match *token {
            Some(token) => {
                &&& signals@.len() == 2
                &&& signals@[0] matches Signal::Authenticate { session } && session@ == token@
                &&& signals@[1] == (Signal::Host { visible_to })
            },
            None => signals@ == seq![Signal::Host { visible_to }],
        },
{
    let mut signals: Vec<Signal> = Vec::new();
    if let Some(token) = token {
        signals.push(Signal::Authenticate { session: token.as_str().to_owned() });
    }
    signals.push(Signal::Host { visible_to });
    proof {
        assert(*token is None ==> signals@ =~= seq![Signal::Host { visible_to }]);
    }
    signals
}

/// What a host builds before anybody joins.
#[derive(Debug)]
pub struct HostPlan {
    pub capture: String,
    pub encoder_name: &'static str,
    pub encoder_properties: Vec<Property>,
    pub gop: Property,
}

pub fn host_plan(settings: &CaptureSettings, installed: &Vec<String>) -> (plan: Result<
    HostPlan,
    String,
>)
    ensures
        ({
            let missing = text_ops::absent(
                pipeline::capture_elements(*settings),
                text_ops::texts(installed@),
            );
            &&& plan is Ok <==> missing.len() == 0
            &&& plan matches Err(text) ==> text@ == pipeline::missing_elements_text(missing)
            &&& plan matches Ok(plan) ==> {
                &&& plan.capture@ == pipeline::capture_chain(*settings)
                &&& plan.encoder_name@ == "stream-encoder"@
                &&& plan.encoder_properties@ == pipeline::encoder_properties(
                    settings.encoder@,
                    settings.codec,
                    settings.fps,
                )
                &&& plan.gop == pipeline::gop_property(initial_gop(settings.fps))
            }
        }),
{
    if let Err(error) = check_elements(settings, installed) {
        return Err(error);
    }
    Ok(
        HostPlan {
            capture: build_capture_chain(settings),
            encoder_name: "stream-encoder",
            encoder_properties: configure_encoder(settings.encoder, settings.codec, settings.fps),
            gop: set_encoder_gop(initial_host_gop_size(settings.fps)),
        },
    )
}

/// The process of the program that started the host, where it says so.
pub fn ui_process_id(value: &Option<String>) -> (pid: Option<u32>)
    ensures
        match *value {
            Some(text) => match text_ops::unsigned(text@, u32::MAX as nat) {
                Some(n) => pid == Some(n as u32),
                None => pid is None,
            },
            None => pid is None,
        },
{
    let text = match value {
        Some(text) => text,
        None => return None,
    };
    let chars = chars_of(text.as_str());
    proof {
        assert(chars@.subrange(0, chars@.len() as int) =~= text@);
    }
    match parse_unsigned(&chars, 0, chars.len(), 0xffff_ffff) {
        Some(n) => Some(n as u32),
        None => None,
    }
}

/// The description of the sound that a host captures.
pub fn audio_tee_description(pid: u32, ui_pid: Option<u32>, installed: &Vec<String>) -> (
description: Result<String, String>)
    ensures
        ({
            let missing = text_ops::absent(
                pipeline::audio_elements(),
                text_ops::texts(installed@),
            );
            &&& description is Ok <==> missing.len() == 0
            &&& description matches Ok(text) ==> text@ == pipeline::audio_chain(pid, ui_pid)
            &&& description matches Err(text) ==> text@ == "missing audio elements: "@
                + text_ops::joined(missing, ", "@)
        }),
{
    if let Err(error) = check_audio_elements(installed) {
        return Err(error);
    }
    Ok(build_audio_chain(pid, ui_pid))
}

/// How far the sound capture has been put together: its three elements are
/// added and linked, or taken out again.
#[derive(Debug, Clone, Copy, PartialEq, Eq, Structural)]
pub enum AudioTee {
    Adding { added: u8 },
    Linking,
    /// So many elements are left to be stopped and removed.
    Removing { left: u8 },
    Ready,
    Failed,
}

pub open spec fn audio_tee_after(tee: AudioTee, ok: bool) -> AudioTee {
    match tee {
        AudioTee::Adding { added } => if ok {
            if added < 2 {
                AudioTee::Adding { added: (added + 1) as u8 }
            } else {
                AudioTee::Linking
            }
        } else if added > 0 {
            AudioTee::Removing { left: added }
        } else {
            AudioTee::Failed
        },
        AudioTee::Linking => if ok {
            AudioTee::Ready
        } else {
            AudioTee::Removing { left: 3 }
        },
        AudioTee::Removing { left } => if left > 1 {
            AudioTee::Removing { left: (left - 1) as u8 }
        } else {
            AudioTee::Failed
        },
        AudioTee::Ready => tee,
        AudioTee::Failed => tee,
    }
}

/// One step of putting the sound capture together. `Adding` adds the element
/// of that number; `Removing` removes the last of those that are left, and
/// goes on whether that works or not.
pub fn build_audio_tee(tee: AudioTee, ok: bool) -> (next: AudioTee)
    ensures
        next == audio_tee_after(tee, ok),
{
    match tee {
        AudioTee::Adding { added } => if ok {
            if added < 2 {
                AudioTee::Adding { added: added + 1 }
            } else {
                AudioTee::Linking
            }
        } else if added > 0 {
            AudioTee::Removing { left: added }
        } else {
            AudioTee::Failed
        },
        AudioTee::Linking => if ok {
            AudioTee::Ready
        } else {
            AudioTee::Removing { left: 3 }
        },
        AudioTee::Removing { left } => if left > 1 {
            AudioTee::Removing { left: left - 1 }
        } else {
            AudioTee::Failed
        },
        AudioTee::Ready => tee,
        AudioTee::Failed => tee,
    }
}

/// How many elements are in the pipeline.
pub open spec fn audio_elements_in(tee: AudioTee) -> int {
    match tee {
        AudioTee::Adding { added } => added as int,
        AudioTee::Linking => 3,
        AudioTee::Removing { left } => left as int,
        AudioTee::Ready => 3,
        AudioTee::Failed => 0,
    }
}

/// A step adds one element, or removes one, or leaves them as they are; a
/// failure that is done leaves none behind.
pub proof fn failed_audio_leaves_nothing(tee: AudioTee, ok: bool)
    requires
        tee matches AudioTee::Adding { added } ==> added <= 2,
        tee matches AudioTee::Removing { left } ==> 1 <= left <= 3,
    ensures
        ({
            let next = audio_tee_after(tee, ok);
            let change = audio_elements_in(next) - audio_elements_in(tee);
            &&& tee is Adding ==> change == if ok {
                1int
            } else {
                0
            }
            &&& tee is Removing ==> change == -1
            &&& !(tee is Adding || tee is Removing) ==> change == 0
            &&& next is Failed ==> audio_elements_in(next) == 0
        }),
{
}

/// The first failure of a list.
pub open spec fn first_failure(results: Seq<Option<String>>) -> Result<(), Seq<char>>
    decreases results.len(),
{
    if results.len() == 0 {
        Ok(())
    } else {
        match first_failure(results.drop_last()) {
            Err(error) => Err(error),
            Ok(()) => match results.last() {
                Some(error) => Err(error@),
                None => Ok(()),
            },
        }
    }
}

fn first_of(results: &Vec<Option<String>>) -> (result: Result<(), String>)
    ensures
        pipeline_run::told(result) == first_failure(results@),
{
    let mut i: usize = 0;
    proof {
        assert(results@.take(0) =~= Seq::empty());
        assert(first_failure(results@.take(0)) == Ok::<(), Seq<char>>(()));
    }
    while i < results.len()
        invariant
            i <= results@.len(),
            first_failure(results@.take(i as int)) == Ok::<(), Seq<char>>(()),
        decreases results@.len() - i,
    {
        proof {
            assert(results@.take(i + 1).drop_last() =~= results@.take(i as int));
            assert(results@.take(i + 1).last() == results@[i as int]);
        }
        if let Some(error) = &results[i] {
            proof {
                lemma_failure_stands(results@, i + 1);
            }
            return Err(error.as_str().to_owned());
        }
        i += 1;
    }
    proof {
        assert(results@.take(results@.len() as int) =~= results@);
    }
    Ok(())
}

proof fn lemma_failure_stands(results: Seq<Option<String>>, n: int)
    requires
        0 <= n <= results.len(),
        first_failure(results.take(n)) is Err,
    ensures
        first_failure(results) == first_failure(results.take(n)),
    decreases results.len() - n,
{
    if n < results.len() {
        assert(results.take(n + 1).drop_last() =~= results.take(n));
        lemma_failure_stands(results, n + 1);
    } else {
        assert(results.take(n) =~= results);
    }
}

/// What a host's session came to: its own result, then the first failure of
/// taking the viewers' branches down, of ending that worker, and of stopping
/// the pipeline.
pub fn host_result(
    session: Result<(), String>,
    drained: &Vec<Option<String>>,
    teardown: Result<(), String>,
    stopped: Result<(), String>,
) -> (result: Result<(), String>)
    ensures
        pipeline_run::told(result) == pipeline_run::combined(
            pipeline_run::told(session),
            pipeline_run::combined(
                pipeline_run::combined(first_failure(drained@), pipeline_run::told(teardown)),
                pipeline_run::told(stopped),
            ),
        ),
{
    let cleanup = combine_session_and_cleanup(first_of(drained), teardown);
    let cleanup = combine_session_and_cleanup(cleanup, stopped);
    combine_session_and_cleanup(session, cleanup)
}

/// Why a viewer's answer could not be used.
pub fn malformed_answer(error: &str) -> (text: String)
    ensures
        text@ == "malformed answer: "@ + error@,
{
    let mut text = "malformed answer: ".to_owned();
    text.append(error);
    text
}

/// Why a viewer's answer could not be installed.
pub fn answer_not_installed(error: &str) -> (text: String)
    ensures
        text@ == "could not install answer: "@ + error@,
{
    let mut text = "could not install answer: ".to_owned();
    text.append(error);
    text
}

} // verus!
