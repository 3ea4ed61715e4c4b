//! What a viewer sees of a connection.

use vstd::prelude::*;
use vstd::string::*;

use super::{ConnectionEvent, ConnectionFailure, ConnectionStage, ConnectionTracker};
use crate::connection;
use crate::text_ops;

verus! {

/// A connection that still waits for its first picture.
pub open spec fn waiting(stage: ConnectionStage) -> bool {
    stage !is Connected && stage !is Failed
}

/// Whatever a waiting connection has come to, its first picture connects it and
/// a failure fails it, for that reason.
pub proof fn picture_and_failure_end_the_wait(stage: ConnectionStage, failure: ConnectionFailure)
    requires
        waiting(stage),
    ensures
        connection::next_stage(stage, ConnectionEvent::FirstVideoFrame)
            == ConnectionStage::Connected,
        connection::next_stage(stage, ConnectionEvent::Failed(failure)) == ConnectionStage::Failed(
            failure,
        ),
{
}

/// The steps of a connection in their usual order lead through every stage, one
/// after the other.
pub proof fn usual_steps_lead_through_every_stage()
    ensures
        ({
            let joining = ConnectionStage::JoiningRoom;
            let details = connection::next_stage(joining, ConnectionEvent::StreamInfo);
            let route = connection::next_stage(details, ConnectionEvent::IceGathering);
            let securing = connection::next_stage(route, ConnectionEvent::IceConnected);
            let starting = connection::next_stage(securing, ConnectionEvent::PeerConnected);
            let connected = connection::next_stage(starting, ConnectionEvent::FirstVideoFrame);
            &&& details == ConnectionStage::ExchangingStreamDetails
            &&& route == ConnectionStage::FindingDirectRoute
            &&& securing == ConnectionStage::SecuringConnection
            &&& starting == ConnectionStage::StartingMedia
            &&& connected == ConnectionStage::Connected
        }),
{
}

/// A step that was skipped is made up for: each event leads to its stage from
/// every stage before that one.
pub proof fn skipped_stages_are_made_up_for(stage: ConnectionStage, event: ConnectionEvent)
    ensures
        stage is JoiningRoom && (event is StreamInfo || event is SdpOfferReceived
            || event is SdpOfferInstalled || event is SdpAnswerInstalled || event is PadAdded
            || event is ReceiveBranchReady) ==> connection::next_stage(stage, event)
            == ConnectionStage::ExchangingStreamDetails,
        (stage is JoiningRoom || stage is ExchangingStreamDetails) && (event is IceGathering
            || event is IceChecking) ==> connection::next_stage(stage, event)
            == ConnectionStage::FindingDirectRoute,
        (stage is JoiningRoom || stage is ExchangingStreamDetails || stage is FindingDirectRoute)
            && event is IceConnected ==> connection::next_stage(stage, event)
            == ConnectionStage::SecuringConnection,
        waiting(stage) && stage !is StartingMedia && event is PeerConnected
            ==> connection::next_stage(stage, event) == ConnectionStage::StartingMedia,
{
}

/// An event that comes late, or a second time, leaves the stage as it is.
pub proof fn late_events_change_nothing(stage: ConnectionStage, event: ConnectionEvent)
    ensures
        connection::next_stage(connection::next_stage(stage, event), event)
            == connection::next_stage(stage, event),
        event is WatchStarted ==> connection::next_stage(stage, event) == stage,
        stage !is JoiningRoom && (event is StreamInfo || event is SdpOfferReceived
            || event is SdpOfferInstalled || event is SdpAnswerInstalled || event is PadAdded
            || event is ReceiveBranchReady) ==> connection::next_stage(stage, event) == stage,
        (stage is SecuringConnection || stage is StartingMedia) && (event is IceGathering
            || event is IceChecking) ==> connection::next_stage(stage, event) == stage,
        stage is StartingMedia && event is IceConnected ==> connection::next_stage(stage, event)
            == stage,
{
}

/// The times of a connection's stages add up: the time in the stage that is
/// left, and all the time before it, are the time since the start.
pub proof fn times_add_up(tracker: ConnectionTracker, event: ConnectionEvent, now: u64)
    requires
        tracker.active,
        tracker.started <= tracker.changed <= now,
    ensures
        tracker.transition_for(event, now) matches Some(seen) ==> {
            &&& seen.elapsed == now - tracker.started
            &&& seen.previous_stage == now - tracker.changed
            &&& seen.elapsed == seen.previous_stage + (tracker.changed - tracker.started)
            &&& tracker.advanced(event, now).changed == now
            &&& tracker.advanced(event, now).started == tracker.started
            &&& tracker.advanced(event, now).active
        },
        tracker.transition_for(event, now) is None ==> tracker.advanced(event, now) == tracker,
{
}

/// A connection that nobody asked to follow shows nothing.
pub proof fn nothing_is_shown_before_the_start(
    tracker: ConnectionTracker,
    event: ConnectionEvent,
    now: u64,
)
    requires
        !tracker.active,
    ensures
        tracker.visible() is None,
        tracker.transition_for(event, now) is None,
        tracker.advanced(event, now) == tracker,
{
}

/// The headline says whether the connection is on its way, stands or failed.
pub proof fn headline_tells_how_it_goes(stage: ConnectionStage)
    ensures
        waiting(stage) ==> connection::primary_text(stage) == "Connecting..."@,
        stage is Connected ==> connection::primary_text(stage) == "Connected"@,
        stage is Failed ==> text_ops::begins_with(connection::primary_text(stage), "Couldn't "@),
{
    if stage is Failed {
        reveal_strlit("Couldn't ");
        reveal_strlit("Couldn't connect");
        reveal_strlit("Couldn't start playback");
        assert(connection::primary_text(stage).take(9) =~= "Couldn't "@);
    }
}

/// Where a connection failed, the viewer reads what to look at: the internet
/// connection, the code, the host's sharing, both networks, or the program.
pub proof fn failure_tells_what_to_do(failure: ConnectionFailure)
    ensures
        ({
            let detail = connection::detail_text(ConnectionStage::Failed(failure));
            &&& failure is Signaling ==> text_ops::mentions(detail, "your internet connection"@)
            &&& failure is Room ==> text_ops::mentions(detail, "the code you entered"@)
            &&& failure is Negotiation ==> text_ops::mentions(detail, "stop sharing"@)
            &&& failure is Network ==> text_ops::mentions(detail, "both networks"@)
            &&& failure is Playback ==> text_ops::mentions(detail, "restart Orange"@)
        }),
{
    let detail = connection::detail_text(ConnectionStage::Failed(failure));
    match failure {
        ConnectionFailure::Signaling => {
            reveal_strlit("Check your internet connection and try again");
            reveal_strlit("your internet connection");
            assert(detail.subrange(6, 6int + 24) =~= "your internet connection"@);
        },
        ConnectionFailure::Room => {
            reveal_strlit("Check the code you entered or ask the host to start sharing");
            reveal_strlit("the code you entered");
            assert(detail.subrange(6, 6int + 20) =~= "the code you entered"@);
        },
        ConnectionFailure::Negotiation => {
            reveal_strlit("Ask the host to stop sharing, then try again");
            reveal_strlit("stop sharing");
            assert(detail.subrange(16, 16int + 12) =~= "stop sharing"@);
        },
        ConnectionFailure::Network => {
            reveal_strlit("Check both networks and try again");
            reveal_strlit("both networks");
            assert(detail.subrange(6, 6int + 13) =~= "both networks"@);
        },
        ConnectionFailure::Playback => {
            reveal_strlit("Try joining again; if it persists, restart Orange");
            reveal_strlit("restart Orange");
            assert(detail.subrange(35, 35int + 14) =~= "restart Orange"@);
        },
    }
}

/// No two stages have the same title, and none the same name in the log.
pub proof fn stages_are_told_apart(a: ConnectionStage, b: ConnectionStage)
    requires
        a != b,
    ensures
        connection::title_text(a) != connection::title_text(b),
        connection::stage_name(a) != connection::stage_name(b),
{
    lemma_stage_marks(a);
    lemma_stage_marks(b);
}

spec fn title_mark(stage: ConnectionStage) -> (int, char) {
    match stage {
        ConnectionStage::JoiningRoom => (12, 'J'),
        ConnectionStage::ExchangingStreamDetails => (25, 'E'),
        ConnectionStage::FindingDirectRoute => (22, 'F'),
        ConnectionStage::SecuringConnection => (19, 'S'),
        ConnectionStage::StartingMedia => (24, 'S'),
        ConnectionStage::Connected => (14, 'V'),
        ConnectionStage::Failed(ConnectionFailure::Signaling) => (33, 'O'),
        ConnectionStage::Failed(ConnectionFailure::Room) => (24, 'T'),
        ConnectionStage::Failed(ConnectionFailure::Negotiation) => (36, 'S'),
        ConnectionStage::Failed(ConnectionFailure::Network) => (25, 'N'),
        ConnectionStage::Failed(ConnectionFailure::Playback) => (34, 'V'),
    }
}

spec fn name_length(stage: ConnectionStage) -> int {
    match stage {
        ConnectionStage::JoiningRoom => 12,
        ConnectionStage::ExchangingStreamDetails => 25,
        ConnectionStage::FindingDirectRoute => 20,
        ConnectionStage::SecuringConnection => 19,
        ConnectionStage::StartingMedia => 24,
        ConnectionStage::Connected => 9,
        ConnectionStage::Failed(ConnectionFailure::Signaling) => 16,
        ConnectionStage::Failed(ConnectionFailure::Room) => 11,
        ConnectionStage::Failed(ConnectionFailure::Negotiation) => 18,
        ConnectionStage::Failed(ConnectionFailure::Network) => 14,
        ConnectionStage::Failed(ConnectionFailure::Playback) => 15,
    }
}

proof fn lemma_stage_marks(stage: ConnectionStage)
    ensures
        connection::title_text(stage).len() == title_mark(stage).0,
        connection::title_text(stage)[0] == title_mark(stage).1,
        connection::stage_name(stage).len() == name_length(stage),
{
    match stage {
        ConnectionStage::JoiningRoom => {
            reveal_strlit("Joining room");
            reveal_strlit("joining-room");
        },
        ConnectionStage::ExchangingStreamDetails => {
            reveal_strlit("Exchanging stream details");
            reveal_strlit("exchanging-stream-details");
        },
        ConnectionStage::FindingDirectRoute => {
            reveal_strlit("Finding a direct route");
            reveal_strlit("finding-direct-route");
        },
        ConnectionStage::SecuringConnection => {
            reveal_strlit("Securing connection");
            reveal_strlit("securing-connection");
        },
        ConnectionStage::StartingMedia => {
            reveal_strlit("Starting video and audio");
            reveal_strlit("starting-video-and-audio");
        },
        ConnectionStage::Connected => {
            reveal_strlit("Video is ready");
            reveal_strlit("connected");
        },
        ConnectionStage::Failed(ConnectionFailure::Signaling) => {
            reveal_strlit("Orange couldn't reach the service");
            reveal_strlit("failed-signaling");
        },
        ConnectionStage::Failed(ConnectionFailure::Room) => {
            reveal_strlit("The room isn't available");
            reveal_strlit("failed-room");
        },
        ConnectionStage::Failed(ConnectionFailure::Negotiation) => {
            reveal_strlit("Stream details couldn't be exchanged");
            reveal_strlit("failed-negotiation");
        },
        ConnectionStage::Failed(ConnectionFailure::Network) => {
            reveal_strlit("No direct route was found");
            reveal_strlit("failed-network");
        },
        ConnectionStage::Failed(ConnectionFailure::Playback) => {
            reveal_strlit("Video or audio couldn't be started");
            reveal_strlit("failed-playback");
        },
    }
}

/// No two events have the same name in the log.
pub proof fn events_are_told_apart(a: ConnectionEvent, b: ConnectionEvent)
    requires
        a != b,
    ensures
        connection::event_name(a) != connection::event_name(b),
{
    lemma_event_mark(a);
    lemma_event_mark(b);
}

spec fn event_mark(event: ConnectionEvent) -> (int, char, char) {
    match event {
        ConnectionEvent::WatchStarted => (13, 'w', 'h'),
        ConnectionEvent::StreamInfo => (11, 's', 'a'),
        ConnectionEvent::SdpOfferReceived => (18, 's', 'o'),
        ConnectionEvent::SdpOfferInstalled => (19, 's', 'o'),
        ConnectionEvent::SdpAnswerInstalled => (20, 's', 'a'),
        ConnectionEvent::IceGathering => (13, 'i', 'g'),
        ConnectionEvent::IceChecking => (12, 'i', 'c'),
        ConnectionEvent::IceConnected => (13, 'i', 'c'),
        ConnectionEvent::PeerConnected => (14, 'p', '-'),
        ConnectionEvent::PadAdded => (9, 'p', 'a'),
        ConnectionEvent::ReceiveBranchReady => (20, 'r', 'i'),
        ConnectionEvent::FirstVideoFrame => (17, 'f', 't'),
        ConnectionEvent::Failed(ConnectionFailure::Signaling) => (16, 's', 'a'),
        ConnectionEvent::Failed(ConnectionFailure::Room) => (11, 'r', '-'),
        ConnectionEvent::Failed(ConnectionFailure::Negotiation) => (18, 'n', 't'),
        ConnectionEvent::Failed(ConnectionFailure::Network) => (14, 'n', 'o'),
        ConnectionEvent::Failed(ConnectionFailure::Playback) => (15, 'p', 'b'),
    }
}

proof fn lemma_event_mark(event: ConnectionEvent)
    ensures
        connection::event_name(event).len() == event_mark(event).0,
        connection::event_name(event)[0] == event_mark(event).1,
        connection::event_name(event)[4] == event_mark(event).2,
{
    match event {
        ConnectionEvent::WatchStarted => reveal_strlit("watch-started"),
        ConnectionEvent::StreamInfo => reveal_strlit("stream-info"),
        ConnectionEvent::SdpOfferReceived => reveal_strlit("sdp-offer-received"),
        ConnectionEvent::SdpOfferInstalled => reveal_strlit("sdp-offer-installed"),
        ConnectionEvent::SdpAnswerInstalled => reveal_strlit("sdp-answer-installed"),
        ConnectionEvent::IceGathering => reveal_strlit("ice-gathering"),
        ConnectionEvent::IceChecking => reveal_strlit("ice-checking"),
        ConnectionEvent::IceConnected => reveal_strlit("ice-connected"),
        ConnectionEvent::PeerConnected => reveal_strlit("peer-connected"),
        ConnectionEvent::PadAdded => reveal_strlit("pad-added"),
        ConnectionEvent::ReceiveBranchReady => reveal_strlit("receive-branch-ready"),
        ConnectionEvent::FirstVideoFrame => reveal_strlit("first-video-frame"),
        ConnectionEvent::Failed(ConnectionFailure::Signaling) => reveal_strlit("signaling-failed"),
        ConnectionEvent::Failed(ConnectionFailure::Room) => reveal_strlit("room-failed"),
        ConnectionEvent::Failed(ConnectionFailure::Negotiation) => reveal_strlit(
            "negotiation-failed",
        ),
        ConnectionEvent::Failed(ConnectionFailure::Network) => reveal_strlit("network-failed"),
        ConnectionEvent::Failed(ConnectionFailure::Playback) => reveal_strlit("playback-failed"),
    }
}

/// The feedback begins once: a first beginning is seen as joining the room, at
/// no time at all, and forgets what was before; a later one changes nothing.
pub proof fn feedback_begins_once(tracker: ConnectionTracker, now: u64, later: u64)
    ensures
        ({
            let begun = tracker.begun(now);
            &&& begun.visible() is Some
            &&& begun.begun(later) == begun
            &&& begun.opening() is None
            &&& !tracker.active ==> (tracker.opening() matches Some(seen) && seen.stage
                == ConnectionStage::JoiningRoom && seen.event == ConnectionEvent::WatchStarted
                && seen.elapsed == 0 && seen.previous_stage == 0)
            &&& tracker.active ==> begun == tracker
            &&& !tracker.active ==> begun.visible() == Some(ConnectionStage::JoiningRoom)
                && begun.started == now && begun.changed == now
        }),
{
}

/// A connection stands in one stage only, in which no failure counts.
pub proof fn connection_stands_in_one_stage(stage: ConnectionStage, connected: bool)
    requires
        call_ensures(ConnectionStage::is_connected, (stage,), connected),
    ensures
        connected ==> connection::stage_terminal(stage) && connection::stage_rank(stage) == Some(
            5u8,
        ),
        connection::stage_terminal(stage) && !(stage is Failed) ==> connected,
{
}

} // verus!
