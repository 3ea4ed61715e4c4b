use orange::connection::{
    ConnectionEvent, ConnectionFailure, ConnectionModel, ConnectionStage, ConnectionTracker,
};

#[test]
fn real_events_map_to_the_six_user_facing_stages() {
    let mut model = ConnectionModel::default();
    assert_eq!(model.stage(), ConnectionStage::JoiningRoom);

    for (event, expected) in [
        (
            ConnectionEvent::StreamInfo,
            ConnectionStage::ExchangingStreamDetails,
        ),
        (
            ConnectionEvent::IceChecking,
            ConnectionStage::FindingDirectRoute,
        ),
        (
            ConnectionEvent::IceConnected,
            ConnectionStage::SecuringConnection,
        ),
        (
            ConnectionEvent::PeerConnected,
            ConnectionStage::StartingMedia,
        ),
        (ConnectionEvent::FirstVideoFrame, ConnectionStage::Connected),
    ] {
        model.advance(event);
        assert_eq!(model.stage(), expected);
    }
}

#[test]
fn signaling_and_receive_setup_events_do_not_claim_media_is_starting() {
    for event in [
        ConnectionEvent::StreamInfo,
        ConnectionEvent::SdpOfferReceived,
        ConnectionEvent::SdpOfferInstalled,
        ConnectionEvent::SdpAnswerInstalled,
        ConnectionEvent::PadAdded,
        ConnectionEvent::ReceiveBranchReady,
    ] {
        let mut model = ConnectionModel::default();
        model.advance(event);
        assert_eq!(model.stage(), ConnectionStage::ExchangingStreamDetails);
    }
}

#[test]
fn late_asynchronous_callbacks_cannot_move_progress_backward() {
    let mut model = ConnectionModel::default();
    model.advance(ConnectionEvent::PeerConnected);

    for late in [
        ConnectionEvent::StreamInfo,
        ConnectionEvent::SdpAnswerInstalled,
        ConnectionEvent::IceGathering,
        ConnectionEvent::IceChecking,
        ConnectionEvent::IceConnected,
        ConnectionEvent::PadAdded,
        ConnectionEvent::ReceiveBranchReady,
    ] {
        assert!(!model.advance(late));
        assert_eq!(model.stage(), ConnectionStage::StartingMedia);
    }
}

#[test]
fn terminal_failure_cannot_be_overwritten_by_a_later_callback() {
    let mut model = ConnectionModel::default();
    assert!(model.advance(ConnectionEvent::Failed(ConnectionFailure::Network)));

    for late in [
        ConnectionEvent::StreamInfo,
        ConnectionEvent::IceConnected,
        ConnectionEvent::PeerConnected,
        ConnectionEvent::FirstVideoFrame,
    ] {
        assert!(!model.advance(late));
        assert_eq!(
            model.stage(),
            ConnectionStage::Failed(ConnectionFailure::Network)
        );
    }
}

#[test]
fn first_video_frame_is_terminal_connected_progress() {
    let mut model = ConnectionModel::default();
    assert!(model.advance(ConnectionEvent::FirstVideoFrame));
    assert!(!model.advance(ConnectionEvent::Failed(ConnectionFailure::Network)));
    assert_eq!(model.stage(), ConnectionStage::Connected);
}

#[test]
fn tracker_is_inactive_until_connection_feedback_begins() {
    let mut tracker = ConnectionTracker::default();
    assert_eq!(tracker.snapshot(), None);

    let transition = tracker.begin(0).expect("first begin should be visible");
    assert_eq!(transition.stage, ConnectionStage::JoiningRoom);
    assert_eq!(transition.event, ConnectionEvent::WatchStarted);
    assert_eq!(transition.elapsed, 0);
    assert_eq!(transition.previous_stage, 0);
    assert_eq!(tracker.snapshot(), Some(ConnectionStage::JoiningRoom));
    assert!(tracker.begin(0).is_none());
}

#[test]
fn tracker_reports_only_accepted_visible_transitions() {
    let mut tracker = ConnectionTracker::default();
    tracker.begin(0);

    let exchanging = tracker
        .advance(ConnectionEvent::SdpOfferReceived, 0)
        .expect("SDP should advance the visible stage");
    assert_eq!(exchanging.stage, ConnectionStage::ExchangingStreamDetails);
    assert_eq!(exchanging.event, ConnectionEvent::SdpOfferReceived);

    assert!(tracker.advance(ConnectionEvent::StreamInfo, 0).is_none());
    assert_eq!(
        tracker.snapshot(),
        Some(ConnectionStage::ExchangingStreamDetails)
    );
}

#[test]
fn every_stage_exposes_fixed_privacy_safe_copy() {
    for stage in [
        ConnectionStage::JoiningRoom,
        ConnectionStage::ExchangingStreamDetails,
        ConnectionStage::FindingDirectRoute,
        ConnectionStage::SecuringConnection,
        ConnectionStage::StartingMedia,
        ConnectionStage::Connected,
        ConnectionStage::Failed(ConnectionFailure::Signaling),
        ConnectionStage::Failed(ConnectionFailure::Room),
        ConnectionStage::Failed(ConnectionFailure::Negotiation),
        ConnectionStage::Failed(ConnectionFailure::Network),
        ConnectionStage::Failed(ConnectionFailure::Playback),
    ] {
        let copy = stage.copy();
        assert!(!copy.primary.is_empty());
        assert!(!copy.title.is_empty());
        assert!(!copy.detail.is_empty());
        let visible = format!("{} {} {}", copy.primary, copy.title, copy.detail);
        for sensitive in ["candidate:", "a=", "room code", "192.168."] {
            assert!(!visible.contains(sensitive), "unsafe copy for {stage:?}");
        }
    }
}

#[test]
fn tracker_measures_the_run_and_the_stage_before() {
    let mut tracker = ConnectionTracker::default();
    tracker.begin(100);
    let first = tracker.advance(ConnectionEvent::StreamInfo, 150).unwrap();
    assert_eq!((first.elapsed, first.previous_stage), (50, 50));
    let second = tracker.advance(ConnectionEvent::IceChecking, 400).unwrap();
    assert_eq!((second.elapsed, second.previous_stage), (300, 250));
    assert!(second.previous_stage <= second.elapsed);
}

#[test]
fn tracker_ignores_events_before_it_begins() {
    let mut tracker = ConnectionTracker::default();
    assert!(tracker.advance(ConnectionEvent::PeerConnected, 10).is_none());
    assert_eq!(tracker.snapshot(), None);
}

#[test]
fn first_failure_is_the_one_that_is_shown() {
    let mut model = ConnectionModel::default();
    assert!(model.advance(ConnectionEvent::Failed(ConnectionFailure::Room)));
    assert!(!model.advance(ConnectionEvent::Failed(ConnectionFailure::Playback)));
    assert_eq!(
        model.stage(),
        ConnectionStage::Failed(ConnectionFailure::Room)
    );
    assert!(model.stage().is_terminal());
    assert!(!model.stage().is_connected());
}

#[test]
fn events_and_stages_have_names_of_their_own() {
    assert_eq!(
        ConnectionEvent::SdpAnswerInstalled.diagnostic_name(),
        "sdp-answer-installed"
    );
    assert_eq!(
        ConnectionEvent::Failed(ConnectionFailure::Room).diagnostic_name(),
        "room-failed"
    );
    assert_eq!(
        ConnectionStage::StartingMedia.diagnostic_name(),
        "starting-video-and-audio"
    );
    assert_eq!(
        ConnectionStage::Failed(ConnectionFailure::Network).diagnostic_name(),
        "failed-network"
    );
    assert_eq!(ConnectionStage::JoiningRoom.rank(), Some(0));
    assert_eq!(
        ConnectionStage::Failed(ConnectionFailure::Network).rank(),
        None
    );
}
