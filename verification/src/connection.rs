//! Privacy-safe connection progress shared by signaling, WebRTC and playback.
//!
//! A viewer's connection moves through six visible stages. Callbacks arrive
//! from several threads and may be late, so a stage is only ever replaced by a
//! later one, and a terminal stage is never replaced at all.

pub mod laws;

use crate::text_ops;
use vstd::prelude::*;

verus! {

#[derive(Debug, Clone, Copy, PartialEq, Eq, Structural)]
pub enum ConnectionFailure {
    Signaling,
    Room,
    Negotiation,
    Network,
    Playback,
}

#[derive(Debug, Clone, Copy, PartialEq, Eq, Structural)]
pub enum ConnectionEvent {
    WatchStarted,
    StreamInfo,
    SdpOfferReceived,
    SdpOfferInstalled,
    SdpAnswerInstalled,
    IceGathering,
    IceChecking,
    IceConnected,
    PeerConnected,
    PadAdded,
    ReceiveBranchReady,
    FirstVideoFrame,
    Failed(ConnectionFailure),
}

#[derive(Debug, Clone, Copy, PartialEq, Eq, Structural)]
pub enum ConnectionStage {
    JoiningRoom,
    ExchangingStreamDetails,
    FindingDirectRoute,
    SecuringConnection,
    StartingMedia,
    Connected,
    Failed(ConnectionFailure),
}

/// The words shown to the viewer for one stage.
#[derive(Debug, Clone, Copy, PartialEq, Eq)]
pub struct ConnectionCopy {
    pub primary: &'static str,
    pub title: &'static str,
    pub detail: &'static str,
}

/// The name under which an event is written to the diagnostic log.
pub open spec fn event_name(event: ConnectionEvent) -> Seq<char> {
    match event {
        ConnectionEvent::WatchStarted => "watch-started"@,
        ConnectionEvent::StreamInfo => "stream-info"@,
        ConnectionEvent::SdpOfferReceived => "sdp-offer-received"@,
        ConnectionEvent::SdpOfferInstalled => "sdp-offer-installed"@,
        ConnectionEvent::SdpAnswerInstalled => "sdp-answer-installed"@,
        ConnectionEvent::IceGathering => "ice-gathering"@,
        ConnectionEvent::IceChecking => "ice-checking"@,
        ConnectionEvent::IceConnected => "ice-connected"@,
        ConnectionEvent::PeerConnected => "peer-connected"@,
        ConnectionEvent::PadAdded => "pad-added"@,
        ConnectionEvent::ReceiveBranchReady => "receive-branch-ready"@,
        ConnectionEvent::FirstVideoFrame => "first-video-frame"@,
        ConnectionEvent::Failed(ConnectionFailure::Signaling) => "signaling-failed"@,
        ConnectionEvent::Failed(ConnectionFailure::Room) => "room-failed"@,
        ConnectionEvent::Failed(ConnectionFailure::Negotiation) => "negotiation-failed"@,
        ConnectionEvent::Failed(ConnectionFailure::Network) => "network-failed"@,
        ConnectionEvent::Failed(ConnectionFailure::Playback) => "playback-failed"@,
    }
}

/// The name under which a stage is written to the diagnostic log.
pub open spec fn stage_name(stage: ConnectionStage) -> Seq<char> {
    match stage {
        ConnectionStage::JoiningRoom => "joining-room"@,
        ConnectionStage::ExchangingStreamDetails => "exchanging-stream-details"@,
        ConnectionStage::FindingDirectRoute => "finding-direct-route"@,
        ConnectionStage::SecuringConnection => "securing-connection"@,
        ConnectionStage::StartingMedia => "starting-video-and-audio"@,
        ConnectionStage::Connected => "connected"@,
        ConnectionStage::Failed(ConnectionFailure::Signaling) => "failed-signaling"@,
        ConnectionStage::Failed(ConnectionFailure::Room) => "failed-room"@,
        ConnectionStage::Failed(ConnectionFailure::Negotiation) => "failed-negotiation"@,
        ConnectionStage::Failed(ConnectionFailure::Network) => "failed-network"@,
        ConnectionStage::Failed(ConnectionFailure::Playback) => "failed-playback"@,
    }
}

/// The headline of a stage.
pub open spec fn primary_text(stage: ConnectionStage) -> Seq<char> {
    match stage {
        ConnectionStage::Connected => "Connected"@,
        ConnectionStage::Failed(ConnectionFailure::Playback) => "Couldn't start playback"@,
        ConnectionStage::Failed(_) => "Couldn't connect"@,
        _ => "Connecting..."@,
    }
}

/// The title below the headline.
pub open spec fn title_text(stage: ConnectionStage) -> Seq<char> {
    match stage {
        ConnectionStage::JoiningRoom => "Joining room"@,
        ConnectionStage::ExchangingStreamDetails => "Exchanging stream details"@,
        ConnectionStage::FindingDirectRoute => "Finding a direct route"@,
        ConnectionStage::SecuringConnection => "Securing connection"@,
        ConnectionStage::StartingMedia => "Starting video and audio"@,
        ConnectionStage::Connected => "Video is ready"@,
        ConnectionStage::Failed(ConnectionFailure::Signaling) => {
            "Orange couldn't reach the service"@
        },
        ConnectionStage::Failed(ConnectionFailure::Room) => "The room isn't available"@,
        ConnectionStage::Failed(ConnectionFailure::Negotiation) => {
            "Stream details couldn't be exchanged"@
        },
        ConnectionStage::Failed(ConnectionFailure::Network) => "No direct route was found"@,
        ConnectionStage::Failed(ConnectionFailure::Playback) => {
            "Video or audio couldn't be started"@
        },
    }
}

/// The line that explains what happens, or what to do.
pub open spec fn detail_text(stage: ConnectionStage) -> Seq<char> {
    match stage {
        ConnectionStage::JoiningRoom => "Contacting the room and waiting for the host"@,
        ConnectionStage::ExchangingStreamDetails => "Orange is agreeing how to receive the stream"@,
        ConnectionStage::FindingDirectRoute => "ICE is checking available network paths"@,
        ConnectionStage::SecuringConnection => {
            "The direct route is ready; encryption is finishing"@
        },
        ConnectionStage::StartingMedia => "The secure connection is ready; media is starting"@,
        ConnectionStage::Connected => "Playback is starting"@,
        ConnectionStage::Failed(ConnectionFailure::Signaling) => {
            "Check your internet connection and try again"@
        },
        ConnectionStage::Failed(ConnectionFailure::Room) => {
            "Check the code you entered or ask the host to start sharing"@
        },
        ConnectionStage::Failed(ConnectionFailure::Negotiation) => {
            "Ask the host to stop sharing, then try again"@
        },
        ConnectionStage::Failed(ConnectionFailure::Network) => "Check both networks and try again"@,
        ConnectionStage::Failed(ConnectionFailure::Playback) => {
            "Try joining again; if it persists, restart Orange"@
        },
    }
}

/// How far along a stage is; a failure has no place in the order.
pub open spec fn stage_rank(stage: ConnectionStage) -> Option<u8> {
    match stage {
        ConnectionStage::JoiningRoom => Some(0),
        ConnectionStage::ExchangingStreamDetails => Some(1),
        ConnectionStage::FindingDirectRoute => Some(2),
        ConnectionStage::SecuringConnection => Some(3),
        ConnectionStage::StartingMedia => Some(4),
        ConnectionStage::Connected => Some(5),
        ConnectionStage::Failed(_) => None,
    }
}

/// A stage that no event leaves.
pub open spec fn stage_terminal(stage: ConnectionStage) -> bool {
    stage == ConnectionStage::Connected || stage is Failed
}

/// The stage that an event, taken by itself, speaks for.
pub open spec fn stage_claimed(event: ConnectionEvent) -> ConnectionStage {
    match event {
        ConnectionEvent::WatchStarted => ConnectionStage::JoiningRoom,
        ConnectionEvent::StreamInfo
        | ConnectionEvent::SdpOfferReceived
        | ConnectionEvent::SdpOfferInstalled
        | ConnectionEvent::SdpAnswerInstalled
        | ConnectionEvent::PadAdded
        | ConnectionEvent::ReceiveBranchReady => ConnectionStage::ExchangingStreamDetails,
        ConnectionEvent::IceGathering | ConnectionEvent::IceChecking => {
            ConnectionStage::FindingDirectRoute
        },
        ConnectionEvent::IceConnected => ConnectionStage::SecuringConnection,
        ConnectionEvent::PeerConnected => ConnectionStage::StartingMedia,
        ConnectionEvent::FirstVideoFrame => ConnectionStage::Connected,
        ConnectionEvent::Failed(failure) => ConnectionStage::Failed(failure),
    }
}

/// An event is accepted when the stage may still change and the event either
/// reports a failure or speaks for a strictly later stage.
pub open spec fn accepts(stage: ConnectionStage, event: ConnectionEvent) -> bool {
    &&& !stage_terminal(stage)
    &&& (event is Failed || stage_rank(stage_claimed(event)).unwrap() > stage_rank(stage).unwrap())
}

/// The stage after an event.
pub open spec fn next_stage(stage: ConnectionStage, event: ConnectionEvent) -> ConnectionStage {
    if accepts(stage, event) {
        stage_claimed(event)
    } else {
        stage
    }
}

/// The stage after a whole run of events, in order.
pub open spec fn stage_after(
    stage: ConnectionStage,
    events: Seq<ConnectionEvent>,
) -> ConnectionStage
    decreases events.len(),
{
    if events.len() == 0 {
        stage
    } else {
        stage_after(next_stage(stage, events[0]), events.drop_first())
    }
}

impl ConnectionEvent {
    pub fn diagnostic_name(self) -> (name: &'static str)
        ensures
            name@ == event_name(self),
    {
        match self {
            Self::WatchStarted => "watch-started",
            Self::StreamInfo => "stream-info",
            Self::SdpOfferReceived => "sdp-offer-received",
            Self::SdpOfferInstalled => "sdp-offer-installed",
            Self::SdpAnswerInstalled => "sdp-answer-installed",
            Self::IceGathering => "ice-gathering",
            Self::IceChecking => "ice-checking",
            Self::IceConnected => "ice-connected",
            Self::PeerConnected => "peer-connected",
            Self::PadAdded => "pad-added",
            Self::ReceiveBranchReady => "receive-branch-ready",
            Self::FirstVideoFrame => "first-video-frame",
            Self::Failed(ConnectionFailure::Signaling) => "signaling-failed",
            Self::Failed(ConnectionFailure::Room) => "room-failed",
            Self::Failed(ConnectionFailure::Negotiation) => "negotiation-failed",
            Self::Failed(ConnectionFailure::Network) => "network-failed",
            Self::Failed(ConnectionFailure::Playback) => "playback-failed",
        }
    }
}

impl ConnectionStage {
    pub fn rank(self) -> (rank: Option<u8>)
        ensures
            rank == stage_rank(self),
    {
        match self {
            Self::JoiningRoom => Some(0),
            Self::ExchangingStreamDetails => Some(1),
            Self::FindingDirectRoute => Some(2),
            Self::SecuringConnection => Some(3),
            Self::StartingMedia => Some(4),
            Self::Connected => Some(5),
            Self::Failed(_) => None,
        }
    }

    pub fn is_terminal(self) -> (terminal: bool)
        ensures
            terminal == stage_terminal(self),
    {
        matches!(self, Self::Connected | Self::Failed(_))
    }

    pub fn is_connected(self) -> (connected: bool)
        ensures
            connected == (self == ConnectionStage::Connected),
    {
        matches!(self, Self::Connected)
    }

    pub fn diagnostic_name(self) -> (name: &'static str)
        ensures
            name@ == stage_name(self),
    {
        match self {
            Self::JoiningRoom => "joining-room",
            Self::ExchangingStreamDetails => "exchanging-stream-details",
            Self::FindingDirectRoute => "finding-direct-route",
            Self::SecuringConnection => "securing-connection",
            Self::StartingMedia => "starting-video-and-audio",
            Self::Connected => "connected",
            Self::Failed(ConnectionFailure::Signaling) => "failed-signaling",
            Self::Failed(ConnectionFailure::Room) => "failed-room",
            Self::Failed(ConnectionFailure::Negotiation) => "failed-negotiation",
            Self::Failed(ConnectionFailure::Network) => "failed-network",
            Self::Failed(ConnectionFailure::Playback) => "failed-playback",
        }
    }

    pub fn copy(self) -> (copy: ConnectionCopy)
        ensures
            copy.primary@ == primary_text(self),
            copy.title@ == title_text(self),
            copy.detail@ == detail_text(self),
    {
        match self {
            Self::JoiningRoom => ConnectionCopy {
                primary: "Connecting...",
                title: "Joining room",
                detail: "Contacting the room and waiting for the host",
            },
            Self::ExchangingStreamDetails => ConnectionCopy {
                primary: "Connecting...",
                title: "Exchanging stream details",
                detail: "Orange is agreeing how to receive the stream",
            },
            Self::FindingDirectRoute => ConnectionCopy {
                primary: "Connecting...",
                title: "Finding a direct route",
                detail: "ICE is checking available network paths",
            },
            Self::SecuringConnection => ConnectionCopy {
                primary: "Connecting...",
                title: "Securing connection",
                detail: "The direct route is ready; encryption is finishing",
            },
            Self::StartingMedia => ConnectionCopy {
                primary: "Connecting...",
                title: "Starting video and audio",
                detail: "The secure connection is ready; media is starting",
            },
            Self::Connected => ConnectionCopy {
                primary: "Connected",
                title: "Video is ready",
                detail: "Playback is starting",
            },
            Self::Failed(ConnectionFailure::Signaling) => ConnectionCopy {
                primary: "Couldn't connect",
                title: "Orange couldn't reach the service",
                detail: "Check your internet connection and try again",
            },
            Self::Failed(ConnectionFailure::Room) => ConnectionCopy {
                primary: "Couldn't connect",
                title: "The room isn't available",
                detail: "Check the code you entered or ask the host to start sharing",
            },
            Self::Failed(ConnectionFailure::Negotiation) => ConnectionCopy {
                primary: "Couldn't connect",
                title: "Stream details couldn't be exchanged",
                detail: "Ask the host to stop sharing, then try again",
            },
            Self::Failed(ConnectionFailure::Network) => ConnectionCopy {
                primary: "Couldn't connect",
                title: "No direct route was found",
                detail: "Check both networks and try again",
            },
            Self::Failed(ConnectionFailure::Playback) => ConnectionCopy {
                primary: "Couldn't start playback",
                title: "Video or audio couldn't be started",
                detail: "Try joining again; if it persists, restart Orange",
            },
        }
    }
}

/// The stage of one connection.
#[derive(Debug)]
pub struct ConnectionModel {
    pub stage: ConnectionStage,
}

impl Default for ConnectionModel {
    fn default() -> (model: Self)
        ensures
            model.stage == ConnectionStage::JoiningRoom,
    {
        ConnectionModel { stage: ConnectionStage::JoiningRoom }
    }
}

impl ConnectionModel {
    pub fn stage(&self) -> (stage: ConnectionStage)
        ensures
            stage == self.stage,
    {
        self.stage
    }

    /// Takes an event and says whether it changed the stage.
    pub fn advance(&mut self, event: ConnectionEvent) -> (changed: bool)
        ensures
            changed == accepts(old(self).stage, event),
            final(self).stage == next_stage(old(self).stage, event),
    {
        if self.stage.is_terminal() {
            return false;
        }
        let next = match event {
            ConnectionEvent::WatchStarted => ConnectionStage::JoiningRoom,
            ConnectionEvent::StreamInfo
            | ConnectionEvent::SdpOfferReceived
            | ConnectionEvent::SdpOfferInstalled
            | ConnectionEvent::SdpAnswerInstalled
            | ConnectionEvent::PadAdded
            | ConnectionEvent::ReceiveBranchReady => ConnectionStage::ExchangingStreamDetails,
            ConnectionEvent::IceGathering | ConnectionEvent::IceChecking => {
                ConnectionStage::FindingDirectRoute
            },
            ConnectionEvent::IceConnected => ConnectionStage::SecuringConnection,
            ConnectionEvent::PeerConnected => ConnectionStage::StartingMedia,
            ConnectionEvent::FirstVideoFrame => ConnectionStage::Connected,
            ConnectionEvent::Failed(failure) => ConnectionStage::Failed(failure),
        };
        if !matches!(next, ConnectionStage::Failed(_)) && next.rank().unwrap_or(0)
            <= self.stage.rank().unwrap_or(0) {
            return false;
        }
        self.stage = next;
        true
    }
}

/// One visible change of stage; the times are in milliseconds.
#[derive(Debug, Clone, Copy, PartialEq, Eq, Structural)]
pub struct ConnectionTransition {
    pub stage: ConnectionStage,
    pub event: ConnectionEvent,
    /// Since the connection began.
    pub elapsed: u64,
    /// Spent in the stage that was left.
    pub previous_stage: u64,
}

/// Progress of one viewer's connection, silent until it begins. The caller
/// reads a monotonic clock and hands the time in, in milliseconds.
#[derive(Debug)]
pub struct ConnectionTracker {
    pub active: bool,
    pub model: ConnectionModel,
    pub started: u64,
    pub changed: u64,
}

impl Default for ConnectionTracker {
    fn default() -> (tracker: Self)
        ensures
            !tracker.active,
            tracker.model.stage == ConnectionStage::JoiningRoom,
            tracker.ordered(),
    {
        ConnectionTracker { active: false, model: ConnectionModel::default(), started: 0, changed: 0 }
    }
}

impl ConnectionTracker {
    /// The stage in view was entered no earlier than the connection began.
    pub open spec fn ordered(self) -> bool {
        self.active ==> self.started <= self.changed
    }

    /// The stage in view, if any.
    pub open spec fn visible(self) -> Option<ConnectionStage> {
        if self.active {
            Some(self.model.stage)
        } else {
            None
        }
    }

    /// The transition that an event brings about, if any.
    pub open spec fn transition_for(self, event: ConnectionEvent, now: u64) -> Option<
        ConnectionTransition,
    > {
        if self.active && accepts(self.model.stage, event) {
            Some(
                ConnectionTransition {
                    stage: stage_claimed(event),
                    event,
                    elapsed: now.saturating_sub(self.started),
                    previous_stage: now.saturating_sub(self.changed),
                },
            )
        } else {
            None
        }
    }

    /// The tracker after an event.
    pub open spec fn advanced(self, event: ConnectionEvent, now: u64) -> ConnectionTracker {
        if self.active && accepts(self.model.stage, event) {
            ConnectionTracker {
                model: ConnectionModel { stage: stage_claimed(event) },
                changed: now,
                ..self
            }
        } else {
            self
        }
    }

    /// The tracker once the feedback has begun.
    pub open spec fn begun(self, now: u64) -> ConnectionTracker {
        if self.active {
            self
        } else {
            ConnectionTracker {
                active: true,
                model: ConnectionModel { stage: ConnectionStage::JoiningRoom },
                started: now,
                changed: now,
            }
        }
    }

    /// The transition that a beginning reports.
    pub open spec fn opening(self) -> Option<ConnectionTransition> {
        if self.active {
            None
        } else {
            Some(
                ConnectionTransition {
                    stage: ConnectionStage::JoiningRoom,
                    event: ConnectionEvent::WatchStarted,
                    elapsed: 0,
                    previous_stage: 0,
                },
            )
        }
    }

    /// Starts the feedback; only the first call is visible.
    pub fn begin(&mut self, now: u64) -> (transition: Option<ConnectionTransition>)
        ensures
            transition is Some <==> !old(self).active,
            *final(self) == old(self).begun(now),
            transition == old(self).opening(),
            final(self).active,
            old(self).ordered() ==> final(self).ordered(),
            old(self).active ==> *final(self) == *old(self),
            !old(self).active ==> {
                &&& final(self).model.stage == ConnectionStage::JoiningRoom
                &&& final(self).started == now
                &&& final(self).changed == now
                &&& transition == Some(
                    ConnectionTransition {
                        stage: ConnectionStage::JoiningRoom,
                        event: ConnectionEvent::WatchStarted,
                        elapsed: 0,
                        previous_stage: 0,
                    },
                )
            },
    {
        if self.active {
            return None;
        }
        self.active = true;
        self.model = ConnectionModel::default();
        self.started = now;
        self.changed = now;
        Some(
            ConnectionTransition {
                stage: self.model.stage(),
                event: ConnectionEvent::WatchStarted,
                elapsed: 0,
                previous_stage: 0,
            },
        )
    }

    /// Takes an event; reports a transition exactly when the visible stage
    /// changed.
    pub fn advance(&mut self, event: ConnectionEvent, now: u64) -> (transition: Option<
        ConnectionTransition,
    >)
        ensures
            transition == old(self).transition_for(event, now),
            *final(self) == old(self).advanced(event, now),
            old(self).ordered() && old(self).started <= now ==> final(self).ordered(),
            old(self).ordered() && transition is Some ==> transition->Some_0.previous_stage
                <= transition->Some_0.elapsed,
    {
        if !self.active || !self.model.advance(event) {
            return None;
        }
        let elapsed: u64 = now.saturating_sub(self.started);
        let previous_stage: u64 = now.saturating_sub(self.changed);
        self.changed = now;
        Some(ConnectionTransition { stage: self.model.stage(), event, elapsed, previous_stage })
    }

    /// The visible stage, once the feedback has begun.
    pub fn snapshot(&self) -> (stage: Option<ConnectionStage>)
        ensures
            stage == self.visible(),
    {
        if self.active {
            Some(self.model.stage())
        } else {
            None
        }
    }
}

/// A transition is reported exactly when the stage in view changes; it names
/// that stage and the event, and the time in the stage that was left is at most
/// the time since the connection began.
pub proof fn transitions_are_what_is_seen(
    tracker: ConnectionTracker,
    event: ConnectionEvent,
    now: u64,
)
    requires
        tracker.ordered(),
    ensures
        ({
            let before = tracker.visible();
            let after = tracker.advanced(event, now).visible();
            let transition = tracker.transition_for(event, now);
            &&& before is None ==> transition is None && after is None
            &&& before is Some ==> (transition is Some <==> after != before)
            &&& transition matches Some(seen) ==> {
                &&& after == Some(seen.stage)
                &&& seen.event == event
                &&& seen.previous_stage <= seen.elapsed
            }
        }),
{
}

/// The tracker after a run of events, each with its time.
pub open spec fn followed(
    tracker: ConnectionTracker,
    steps: Seq<(ConnectionEvent, u64)>,
) -> ConnectionTracker
    decreases steps.len(),
{
    if steps.len() == 0 {
        tracker
    } else {
        let last = steps.last();
        followed(tracker, steps.drop_last()).advanced(last.0, last.1)
    }
}

/// The order of a tracker's times outlives every run of events on a clock that
/// never shows a time before the start, so that no transition of the run
/// reports more time in the stage that was left than since the start.
pub proof fn stage_time_stays_within_the_total(
    tracker: ConnectionTracker,
    steps: Seq<(ConnectionEvent, u64)>,
)
    requires
        tracker.ordered(),
        forall|i: int| 0 <= i < steps.len() ==> tracker.started <= (#[trigger] steps[i]).1,
    ensures
        followed(tracker, steps).ordered(),
        followed(tracker, steps).started == tracker.started,
        forall|i: int|
            0 <= i < steps.len() ==> (match followed(tracker, steps.take(i)).transition_for(
                (#[trigger] steps[i]).0,
                steps[i].1,
            ) {
                Some(seen) => seen.previous_stage <= seen.elapsed,
                None => true,
            }),
    decreases steps.len(),
{
    if steps.len() > 0 {
        let n = steps.len() - 1;
        let rest = steps.drop_last();
        assert forall|i: int| 0 <= i < rest.len() implies tracker.started <= (
        #[trigger] rest[i]).1 by {
            assert(rest[i] == steps[i]);
        }
        stage_time_stays_within_the_total(tracker, rest);
        assert forall|i: int| 0 <= i < steps.len() implies (match followed(
            tracker,
            steps.take(i),
        ).transition_for((#[trigger] steps[i]).0, steps[i].1) {
            Some(seen) => seen.previous_stage <= seen.elapsed,
            None => true,
        }) by {
            if i < n {
                assert(rest.take(i) =~= steps.take(i));
                assert(rest[i] == steps[i]);
            } else {
                assert(steps.take(i) =~= rest);
            }
        }
    }
}

/// No run of events moves progress backward: a stage reached without failing
/// ranks at least as high as the stage before.
pub proof fn progress_never_moves_backward(stage: ConnectionStage, events: Seq<ConnectionEvent>)
    ensures
        stage_after(stage, events) is Failed || (stage !is Failed && stage_rank(
            stage_after(stage, events),
        ).unwrap() >= stage_rank(stage).unwrap()),
    decreases events.len(),
{
    if events.len() > 0 {
        progress_never_moves_backward(next_stage(stage, events[0]), events.drop_first());
    }
}

/// A terminal stage outlives every later event.
pub proof fn terminal_stage_is_kept(stage: ConnectionStage, events: Seq<ConnectionEvent>)
    requires
        stage_terminal(stage),
    ensures
        stage_after(stage, events) == stage,
    decreases events.len(),
{
    if events.len() > 0 {
        terminal_stage_is_kept(next_stage(stage, events[0]), events.drop_first());
    }
}

/// The first reported failure decides the outcome, whatever follows it.
pub proof fn first_failure_is_kept(
    stage: ConnectionStage,
    failure: ConnectionFailure,
    later: Seq<ConnectionEvent>,
)
    requires
        !stage_terminal(stage),
    ensures
        stage_after(next_stage(stage, ConnectionEvent::Failed(failure)), later)
            == ConnectionStage::Failed(failure),
{
    terminal_stage_is_kept(ConnectionStage::Failed(failure), later);
}

/// Only the first video frame makes a connection count as connected.
pub proof fn only_a_frame_connects(stage: ConnectionStage, events: Seq<ConnectionEvent>)
    requires
        stage != ConnectionStage::Connected,
        forall|i: int| 0 <= i < events.len() ==> events[i] != ConnectionEvent::FirstVideoFrame,
    ensures
        stage_after(stage, events) != ConnectionStage::Connected,
    decreases events.len(),
{
    if events.len() > 0 {
        let rest = events.drop_first();
        assert forall|i: int| 0 <= i < rest.len() implies rest[i]
            != ConnectionEvent::FirstVideoFrame by {
            assert(rest[i] == events[i + 1]);
        }
        only_a_frame_connects(next_stage(stage, events[0]), rest);
    }
}

/// All the words of a stage, as one line.
pub open spec fn visible_text(stage: ConnectionStage) -> Seq<char> {
    primary_text(stage) + " "@ + title_text(stage) + " "@ + detail_text(stage)
}

/// Every stage has a headline, a title and an explanation, and they mention no
/// candidate, no session description, no room code and no private address.
#[verifier::rlimit(50)]
pub proof fn copy_is_present_and_private(stage: ConnectionStage)
    ensures
        primary_text(stage).len() > 0,
        title_text(stage).len() > 0,
        detail_text(stage).len() > 0,
        !text_ops::mentions(visible_text(stage), "candidate:"@),
        !text_ops::mentions(visible_text(stage), "a="@),
        !text_ops::mentions(visible_text(stage), "room code"@),
        !text_ops::mentions(visible_text(stage), "192.168."@),
{
    reveal_strlit(" ");
    reveal_strlit("Connecting...");
    reveal_strlit("Connected");
    reveal_strlit("Couldn't start playback");
    reveal_strlit("Couldn't connect");
    match stage {
        ConnectionStage::JoiningRoom => {
            reveal_strlit("Joining room");
            reveal_strlit("Contacting the room and waiting for the host");
        },
        ConnectionStage::ExchangingStreamDetails => {
            reveal_strlit("Exchanging stream details");
            reveal_strlit("Orange is agreeing how to receive the stream");
        },
        ConnectionStage::FindingDirectRoute => {
            reveal_strlit("Finding a direct route");
            reveal_strlit("ICE is checking available network paths");
        },
        ConnectionStage::SecuringConnection => {
            reveal_strlit("Securing connection");
            reveal_strlit("The direct route is ready; encryption is finishing");
        },
        ConnectionStage::StartingMedia => {
            reveal_strlit("Starting video and audio");
            reveal_strlit("The secure connection is ready; media is starting");
        },
        ConnectionStage::Connected => {
            reveal_strlit("Video is ready");
            reveal_strlit("Playback is starting");
        },
        ConnectionStage::Failed(ConnectionFailure::Signaling) => {
            reveal_strlit("Orange couldn't reach the service");
            reveal_strlit("Check your internet connection and try again");
        },
        ConnectionStage::Failed(ConnectionFailure::Room) => {
            reveal_strlit("The room isn't available");
            reveal_strlit("Check the code you entered or ask the host to start sharing");
        },
        ConnectionStage::Failed(ConnectionFailure::Negotiation) => {
            reveal_strlit("Stream details couldn't be exchanged");
            reveal_strlit("Ask the host to stop sharing, then try again");
        },
        ConnectionStage::Failed(ConnectionFailure::Network) => {
            reveal_strlit("No direct route was found");
            reveal_strlit("Check both networks and try again");
        },
        ConnectionStage::Failed(ConnectionFailure::Playback) => {
            reveal_strlit("Video or audio couldn't be started");
            reveal_strlit("Try joining again; if it persists, restart Orange");
        },
    }
    let text = visible_text(stage);
    assert(forall|i: int|
        0 <= i < text.len() ==> #[trigger] text[i] != ':' && text[i] != '=' && text[i] != '1');
    assert(forall|i: int|
        0 <= i < text.len() - 2 && #[trigger] text[i] == 'm' && text[i + 1] == ' ' ==> text[i + 2]
            != 'c');
    reveal_strlit("candidate:");
    reveal_strlit("a=");
    reveal_strlit("room code");
    reveal_strlit("192.168.");
    assert forall|i: int| 0 <= i <= text.len() - 10 implies #[trigger] text.subrange(i, i + 10)
        != "candidate:"@ by {
        assert(text.subrange(i, i + 10)[9] == text[i + 9]);
    }
    assert forall|i: int| 0 <= i <= text.len() - 2 implies #[trigger] text.subrange(i, i + 2)
        != "a="@ by {
        assert(text.subrange(i, i + 2)[1] == text[i + 1]);
    }
    assert forall|i: int| 0 <= i <= text.len() - 8 implies #[trigger] text.subrange(i, i + 8)
        != "192.168."@ by {
        assert(text.subrange(i, i + 8)[0] == text[i]);
    }
    assert forall|i: int| 0 <= i <= text.len() - 9 implies #[trigger] text.subrange(i, i + 9)
        != "room code"@ by {
        assert(text.subrange(i, i + 9)[3] == text[i + 3]);
        assert(text.subrange(i, i + 9)[4] == text[i + 3 + 1]);
        assert(text.subrange(i, i + 9)[5] == text[i + 3 + 2]);
    }
}

} // verus!
