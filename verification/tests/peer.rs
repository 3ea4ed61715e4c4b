use orange::network_diagnostics::probe::{OfferValue, PromiseReply};
use orange::peer::host::{
    answer_not_installed, audio_tee_description, build_audio_tee, gop_update,
    handle_host_diagnostic_signal, host_opening, host_plan, host_result, initial_host_gop_size,
    malformed_answer, print_viewer_status, recovery_gop_size, run_host,
    should_request_idle_redraw, ui_process_id, AudioTee, HostAction, HostEvent, HostSession,
    IDLE_REDRAW_INTERVAL_MS,
};
use orange::peer::host_branch::{
    add_viewer, block_and_unlink_tee_branch, branch_queue, diagnostic_label, enqueue_command,
    keyframe_request_failed, link_tee_branch, refused_pad, remove_tee_branch, remove_viewer, request_keyframe_at,
    sender_setting, startup_delay_ms, startup_request_allowed, teardown_problem, viewer_bin_name,
    AddPhase, AddViewer, CommandPlace, LinkPhase, RemoveAction, SenderSetting, StartupEvent,
    StartupKeyframeTrigger, StartupKeyframes, TeardownCommand, TeardownProblem, TeeLink,
    ViewerTeardown, AUDIO_BRANCH_MAX_PACKETS,
};
use orange::peer::watch::{
    branch_problem, cleanup_watch_start_failure, encoding_payload, handle_watch_diagnostic_signal,
    ignored_stream, offer_not_installed, run_watch, stop_watch_receive_pipeline, watch_opening,
    watch_pad, watch_result, StopAction, StreamAction, WatchAction, WatchEvent, WATCH_ENDED,
};
use orange::peer::{
    check_promise_reply, created_description, enable_nack, forward_ice, installed_description,
    is_terminal_connection_state, make_webrtcbin, parse_sdp, should_report_pipeline_error,
    watch_bus, watch_connection, BusReaction, PeerBusMessage, PeerConnectionState, SdpType, Signal,
    TransceiverKind,
};
use orange::pipeline::{CaptureSettings, PropertyValue};
use orange::webrtc::ReceiveKind;

fn hosting(session: Option<&str>) -> Signal {
    Signal::Hosting {
        code: "ROOM-CODE".to_string(),
        diagnostic_session: session.map(str::to_string),
    }
}

fn stream_info(name: Option<&str>, session: Option<&str>) -> Signal {
    Signal::StreamInfo {
        host_name: name.map(str::to_string),
        diagnostic_session: session.map(str::to_string),
    }
}

fn host_receipts() {
    let captured: Vec<String> = [
        hosting(Some("host-session")),
        stream_info(Some("Viewer Supplied"), Some("viewer-controlled")),
    ]
    .iter()
    .filter_map(handle_host_diagnostic_signal)
    .collect();

    assert_eq!(captured, ["{\"id\":\"host-session\"}"]);
}

fn watch_receipts() {
    let captured: Vec<String> = [
        stream_info(Some("Host Name"), Some("watch-session")),
        hosting(Some("unexpected-host-session")),
    ]
    .iter()
    .filter_map(handle_watch_diagnostic_signal)
    .collect();

    assert_eq!(captured, ["{\"id\":\"watch-session\"}"]);
}

#[test]
fn peer_host_receipt_accepts_only_hosting_diagnostic_session() {
    host_receipts();
}

#[test]
fn host_host_receipt_accepts_only_hosting_diagnostic_session() {
    host_receipts();
}

#[test]
fn peer_watch_receipt_accepts_only_stream_info_diagnostic_session() {
    watch_receipts();
}

#[test]
fn watch_watch_receipt_accepts_only_stream_info_diagnostic_session() {
    watch_receipts();
}

#[test]
fn closed_playback_suppresses_teardown_bus_errors() {
    assert!(!should_report_pipeline_error(Some(false)));
    assert!(should_report_pipeline_error(Some(true)));
    assert!(should_report_pipeline_error(None));
}

fn idle_redraws() {
    assert!(!should_request_idle_redraw(0, 500));
    assert!(!should_request_idle_redraw(1, 20));
    assert!(should_request_idle_redraw(1, 150));
    assert!(IDLE_REDRAW_INTERVAL_MS <= 50);
}

#[test]
fn peer_idle_redraw_heartbeat_only_runs_with_viewers() {
    idle_redraws();
}

#[test]
fn host_idle_redraw_heartbeat_only_runs_with_viewers() {
    idle_redraws();
    assert!(should_request_idle_redraw(1, 100));
    assert!(!should_request_idle_redraw(1, 99));
}

#[test]
fn video_transceiver_enables_retransmission() {
    assert!(enable_nack(TransceiverKind::Video));
    assert!(!enable_nack(TransceiverKind::Audio));
    assert!(!enable_nack(TransceiverKind::Unknown));
}

#[test]
fn failed_or_closed_peer_connections_end_the_session() {
    assert!(is_terminal_connection_state(PeerConnectionState::Failed));
    assert!(is_terminal_connection_state(PeerConnectionState::Closed));
    assert!(!is_terminal_connection_state(
        PeerConnectionState::Disconnected
    ));
    assert!(!is_terminal_connection_state(PeerConnectionState::Connected));
}

fn recovery(frames: u64, seconds: u32, configured_fps: u32) -> Option<u32> {
    let measured_fps = (frames as f64 / f64::from(seconds)).round() as u32;
    recovery_gop_size(
        frames,
        u128::from(seconds) * 1_000_000_000,
        measured_fps,
        configured_fps,
    )
}

#[test]
fn recovery_gop_tracks_the_measured_frame_rate() {
    assert_eq!(recovery(120, 2, 240), Some(120));
    assert_eq!(recovery(480, 2, 240), Some(480));
    assert_eq!(recovery(30, 2, 240), Some(30));
    assert_eq!(recovery(0, 2, 240), None);
    assert_eq!(initial_host_gop_size(240), 120);
    assert_eq!(initial_host_gop_size(30), 60);
    assert_eq!(gop_update(120, 480), Some(480));
    assert_eq!(gop_update(480, 475), None);
    assert_eq!(gop_update(480, 120), Some(120));
}

#[test]
fn gop_calculations_report_measured_rate_and_bound_configured_rate() {
    assert_eq!(recovery(120, 2, 240), Some(120));
    assert_eq!(recovery(480, 2, 240), Some(480));
    assert_eq!(recovery(30, 2, 240), Some(30));
    assert_eq!(recovery(0, 2, 240), None);
    assert_eq!(initial_host_gop_size(240), 120);
    assert_eq!(initial_host_gop_size(30), 60);
}

#[test]
fn gop_sizes_stay_in_range() {
    assert_eq!(recovery_gop_size(1, 1, u32::MAX, u32::MAX), Some(i32::MAX as u32));
    assert_eq!(recovery_gop_size(1, 1, 0, 60), Some(2));
    assert_eq!(recovery_gop_size(1, 1, 90, 60), Some(120));
    assert_eq!(recovery_gop_size(1, 1, 90, 0), Some(2));
    assert_eq!(recovery_gop_size(1, 0, 60, 60), None);
    assert_eq!(initial_host_gop_size(0), 2);
    assert_eq!(gop_update(10, 14), None);
    assert_eq!(gop_update(10, 15), Some(15));
}

fn failed_send_rolls_back() {
    let mut requests = None;
    let now = 1_000_000_000;

    assert!(request_keyframe_at(&mut requests, now));
    keyframe_request_failed(&mut requests, now);

    assert_eq!(requests, None);
}

fn reservation_throttles() {
    let mut requests = None;
    let now = 1_000_000_000u64;
    let newer = now + 250_000_000;
    let mut sends = 0;

    if request_keyframe_at(&mut requests, now) {
        sends += 1;
    }
    if request_keyframe_at(&mut requests, now + 199_000_000) {
        sends += 1;
    }
    if request_keyframe_at(&mut requests, now + 200_000_000) {
        sends += 1;
        requests = Some(newer);
        keyframe_request_failed(&mut requests, now + 200_000_000);
    }

    assert_eq!(sends, 2);
    assert_eq!(requests, Some(newer));
}

#[test]
fn peer_failed_keyframe_send_rolls_back_without_holding_the_lock() {
    failed_send_rolls_back();
}

#[test]
fn host_branch_tests_failed_keyframe_send_rolls_back_without_holding_the_lock() {
    failed_send_rolls_back();
}

#[test]
fn peer_keyframe_reservation_throttles_and_failed_rollback_preserves_newer_request() {
    reservation_throttles();
}

#[test]
fn host_branch_tests_keyframe_reservation_throttles_and_failed_rollback_preserves_newer_request() {
    reservation_throttles();
}

#[test]
fn a_reservation_from_the_future_throttles() {
    let mut requests = Some(2_000_000_000);
    assert!(!request_keyframe_at(&mut requests, 1_000_000_000));
    assert_eq!(requests, Some(2_000_000_000));
}

/// Runs the startup worker on a command; every keyframe is sent.
fn startup_calls(mut worker: StartupKeyframes, stop_in_delay: Option<u8>) -> (usize, Vec<u64>) {
    let mut calls = 0;
    let mut delays = Vec::new();
    worker = worker.step(StartupEvent::Request);
    loop {
        match worker {
            StartupKeyframes::Requesting { .. } => {
                calls += 1;
                worker = worker.step(StartupEvent::Requested(true));
            }
            StartupKeyframes::Waiting { delay } => {
                if stop_in_delay == Some(delay) {
                    worker = worker.step(StartupEvent::Stop);
                } else {
                    delays.push(startup_delay_ms(delay as usize));
                    worker = worker.step(StartupEvent::TimedOut);
                }
            }
            StartupKeyframes::Idle | StartupKeyframes::Stopped => return (calls, delays),
        }
    }
}

#[test]
fn peer_worker_review_startup_cadence_has_exact_clock_free_progression() {
    let (calls, delays) = startup_calls(StartupKeyframes::Idle, None);
    assert_eq!(calls, 4);
    assert_eq!(delays, [250, 500, 750]);
}

#[test]
fn startup_keyframe_worker_trigger_is_one_shot() {
    let mut trigger = StartupKeyframeTrigger { requested: false };
    assert!(trigger.request());
    assert!(!trigger.request());
    assert!(!trigger.request());
}

#[test]
fn startup_keyframe_worker_stop_interrupts_wait() {
    let waiting = StartupKeyframes::Waiting { delay: 0 };
    assert_eq!(waiting.step(StartupEvent::Stop), StartupKeyframes::Stopped);
}

#[test]
fn startup_keyframe_worker_sends_nothing_after_stop() {
    let (calls, _) = startup_calls(StartupKeyframes::Idle, Some(0));
    assert_eq!(calls, 1);
    let (calls, _) = startup_calls(StartupKeyframes::Stopped, None);
    assert_eq!(calls, 0);
}

#[test]
fn a_second_command_skips_a_delay_and_a_failure_ends_the_run() {
    let waiting = StartupKeyframes::Waiting { delay: 1 };
    assert_eq!(
        waiting.step(StartupEvent::Request),
        StartupKeyframes::Waiting { delay: 2 }
    );
    let last = StartupKeyframes::Waiting { delay: 2 };
    assert_eq!(last.step(StartupEvent::Request), StartupKeyframes::Idle);
    let asking = StartupKeyframes::Requesting { sent: 1 };
    assert_eq!(
        asking.step(StartupEvent::Requested(false)),
        StartupKeyframes::Idle
    );
    assert!(startup_request_allowed(true, true, false, false));
    assert!(!startup_request_allowed(true, false, true, false));
    assert!(!startup_request_allowed(false, true, true, true));
}

#[test]
fn audio_sender_uses_high_network_priority() {
    assert_eq!(sender_setting(false, true), SenderSetting::HighPriority);
    assert_eq!(sender_setting(false, false), SenderSetting::Nothing);
    assert_eq!(sender_setting(true, true), SenderSetting::Retransmission);
    assert_eq!(
        branch_queue(false)[0].value,
        PropertyValue::Uint(AUDIO_BRANCH_MAX_PACKETS)
    );
    assert_eq!(branch_queue(true)[0].value, PropertyValue::Uint(200));
}

fn phases(mut link: TeeLink, failing: Option<LinkPhase>) -> Vec<LinkPhase> {
    let mut seen = Vec::new();
    while link.phase != LinkPhase::Linked && link.phase != LinkPhase::Failed {
        seen.push(link.phase);
        let ok = Some(link.phase) != failing;
        link = link_tee_branch(link, ok);
    }
    seen.push(link.phase);
    seen
}

#[test]
fn a_refused_pad_gives_back_the_other_one() {
    assert_eq!(
        phases(TeeLink::new(3), Some(LinkPhase::RequestTeePad)),
        [
            LinkPhase::RequestBinPad,
            LinkPhase::RequestTeePad,
            LinkPhase::GiveBackBinPad,
            LinkPhase::Failed,
        ]
    );
    assert_eq!(
        phases(TeeLink::new(3), Some(LinkPhase::RequestBinPad)),
        [LinkPhase::RequestBinPad, LinkPhase::Failed]
    );
    assert_eq!(
        refused_pad(LinkPhase::RequestTeePad),
        Some("tee refused a source pad")
    );
    assert_eq!(refused_pad(LinkPhase::LinkElements), None);
}

#[test]
fn a_branch_that_cannot_be_linked_is_undone() {
    assert_eq!(
        phases(TeeLink::new(1), Some(LinkPhase::LinkBinPad)),
        [
            LinkPhase::RequestBinPad,
            LinkPhase::RequestTeePad,
            LinkPhase::Adding,
            LinkPhase::LinkElements,
            LinkPhase::LinkBinPad,
            LinkPhase::StopElements,
            LinkPhase::UnlinkBinPad,
            LinkPhase::ReleaseTeePad,
            LinkPhase::ReleaseBinPad,
            LinkPhase::RemoveElements,
            LinkPhase::Failed,
        ]
    );
    assert_eq!(phases(TeeLink::new(3), None).last(), Some(&LinkPhase::Linked));
}

#[test]
fn a_linked_branch_is_taken_down_whole() {
    let mut link = TeeLink::new(2);
    while link.phase != LinkPhase::Linked {
        link = link_tee_branch(link, true);
    }
    assert_eq!(
        phases(remove_tee_branch(link), Some(LinkPhase::UnlinkBinPad)),
        [
            LinkPhase::StopElements,
            LinkPhase::UnlinkBinPad,
            LinkPhase::ReleaseTeePad,
            LinkPhase::ReleaseBinPad,
            LinkPhase::RemoveElements,
            LinkPhase::Failed,
        ]
    );
}

fn adding(has_audio: bool, failing: Option<AddPhase>) -> (Vec<AddPhase>, AddViewer) {
    let mut add = AddViewer::new(has_audio);
    let mut seen = Vec::new();
    while add.phase != AddPhase::Added && add.phase != AddPhase::Failed {
        seen.push(add.phase);
        let ok = Some(add.phase) != failing;
        add = add_viewer(add, ok);
    }
    (seen, add)
}

#[test]
fn peer_worker_review_startup_spawn_failure_leaves_rollback_join_free() {
    let (seen, add) = adding(true, Some(AddPhase::SpawnKeyframes));
    assert_eq!(add.phase, AddPhase::Failed);
    assert_eq!(seen.last(), Some(&AddPhase::Remove));
    assert!(!add.in_pipeline);
    assert!(!remove_viewer(2, false).contains(&RemoveAction::JoinKeyframes));
}

#[test]
fn a_viewer_is_offered_a_stream_after_its_branch_stands() {
    let (seen, add) = adding(true, None);
    assert_eq!(
        seen,
        [
            AddPhase::MakeBin,
            AddPhase::AddBin,
            AddPhase::LinkVideo,
            AddPhase::LinkAudio,
            AddPhase::SyncBin,
            AddPhase::Connect,
            AddPhase::Connect,
            AddPhase::SpawnKeyframes,
            AddPhase::Offer,
        ]
    );
    assert_eq!(add.links, 2);
    let (seen, _) = adding(false, Some(AddPhase::AddBin));
    assert_eq!(seen, [AddPhase::MakeBin, AddPhase::AddBin]);
}

#[test]
fn viewer_teardown_starts_only_after_startup_worker_joins() {
    assert_eq!(
        remove_viewer(2, true),
        [
            RemoveAction::JoinKeyframes,
            RemoveAction::DropDiagnostics,
            RemoveAction::Unlink(0),
            RemoveAction::Unlink(1),
            RemoveAction::StopBin,
            RemoveAction::RemoveLink(0),
            RemoveAction::RemoveLink(1),
            RemoveAction::RemoveBin,
        ]
    );
    let plan = block_and_unlink_tee_branch(true, true, true);
    assert!(plan.unlink && plan.wait && plan.remove_probe);
    assert!(!block_and_unlink_tee_branch(true, false, true).unlink);
    assert!(!block_and_unlink_tee_branch(false, true, true).unlink);
}

#[test]
fn suspension_waits_for_all_removals_without_blocking_the_executor() {
    let mut teardown = ViewerTeardown::new();
    teardown.enqueue(TeardownCommand::Remove(1));
    teardown.enqueue(TeardownCommand::Remove(2));
    teardown.enqueue(TeardownCommand::Drain(1));
    teardown.enqueue(TeardownCommand::Remove(3));
    let mut removed = Vec::new();
    loop {
        match teardown.next().unwrap() {
            TeardownCommand::Remove(branch) => removed.push(branch),
            TeardownCommand::Drain(_) => break,
        }
    }
    assert_eq!(removed, [1, 2]);
    assert_eq!(teardown.next(), Some(TeardownCommand::Remove(3)));
    assert_eq!(teardown.next(), None);
}

#[test]
fn drain_fallback_completes_when_the_worker_channel_is_closed() {
    assert_eq!(enqueue_command(false), CommandPlace::BlockingTask);
    assert_eq!(enqueue_command(true), CommandPlace::Worker);
}

#[test]
fn drain_reports_a_lost_acknowledgment() {
    assert!(teardown_problem(TeardownProblem::LostAcknowledgment, "")
        .contains("stopped before draining"));
}

#[test]
fn peer_worker_review_dead_enqueue_fallback_surfaces_join_error() {
    let error = teardown_problem(TeardownProblem::FallbackTask, "injected teardown panic");
    assert!(error.contains("fallback viewer teardown task failed"));
    assert!(error.contains("injected teardown panic"));
}

#[test]
fn peer_worker_review_playing_failure_runs_cleanup_and_reports_both_errors() {
    let message =
        cleanup_watch_start_failure("playing failed".to_string(), Err("cleanup failed".to_string()))
            .unwrap_err();
    assert!(message.contains("playing failed"));
    assert!(message.contains("cleanup failed"));
}

fn joined(peer: &str, name: Option<&str>) -> HostEvent {
    HostEvent::Signal(Signal::ViewerJoined {
        peer: peer.to_string(),
        name: name.map(str::to_string),
        id: Some("7".to_string()),
        avatar_url: None,
    })
}

fn added(peer: &str, problem: Option<&str>) -> HostEvent {
    HostEvent::ViewerAdded {
        peer: peer.to_string(),
        label: format!("Viewer {peer}"),
        id: Some("7".to_string()),
        avatar_url: None,
        problem: problem.map(str::to_string),
    }
}

fn left(peer: &str) -> HostEvent {
    HostEvent::Signal(Signal::ViewerLeft {
        peer: peer.to_string(),
    })
}

fn lines(actions: &[HostAction]) -> Vec<String> {
    actions
        .iter()
        .filter_map(|action| match action {
            HostAction::Print { line } | HostAction::PrintError { line } => Some(line.clone()),
            _ => None,
        })
        .collect()
}

#[test]
fn the_first_viewer_starts_capture() {
    let mut session = HostSession::new(60);
    let actions = run_host(&mut session, &joined("a", None));
    assert!(matches!(actions[0], HostAction::ResetSampling));
    let HostAction::AddViewer { label, .. } = &actions[1] else {
        panic!("expected to add the viewer");
    };
    assert_eq!(label, "viewer a");
    let actions = run_host(&mut session, &added("a", None));
    assert!(matches!(actions[0], HostAction::StartPipeline));
    assert!(matches!(actions[1], HostAction::RequestRedraw));
    let printed = lines(&actions);
    assert_eq!(printed[0], "[host] Viewer a joined (1 watching)");
    let status: serde_json::Value =
        serde_json::from_str(printed[1].strip_prefix("[host-status] ").unwrap()).unwrap();
    assert_eq!(status["event"], "joined");
    assert_eq!(status["id"], "7");
    assert!(status["avatar_url"].is_null());
    let actions = run_host(&mut session, &joined("b", Some("Bo")));
    assert_eq!(actions.len(), 1);
    let actions = run_host(&mut session, &added("b", None));
    assert!(matches!(actions[0], HostAction::RequestRedraw));
}

#[test]
fn a_duplicate_join_and_a_failed_branch_change_nothing() {
    let mut session = HostSession::new(60);
    run_host(&mut session, &added("a", None));
    let actions = run_host(&mut session, &joined("a", None));
    assert_eq!(
        lines(&actions),
        ["[host] ignoring duplicate join from viewer a"]
    );
    let actions = run_host(&mut session, &added("b", Some("no pad")));
    assert_eq!(lines(&actions), ["[host] could not add viewer b: no pad"]);
    assert!(!session.has_viewer("b"));
    assert_eq!(session.viewers.len(), 1);
}

#[test]
fn a_viewer_that_left_gets_nothing_more() {
    let mut session = HostSession::new(60);
    run_host(&mut session, &added("a", None));
    let ice = || {
        HostEvent::Signal(Signal::Ice {
            peer: "a".to_string(),
            mline: 1,
            candidate: "c".to_string(),
        })
    };
    let sdp = |kind: &str| {
        HostEvent::Signal(Signal::Sdp {
            peer: "a".to_string(),
            kind: kind.to_string(),
            sdp: "v=0".to_string(),
        })
    };
    assert!(matches!(
        run_host(&mut session, &ice())[0],
        HostAction::AddCandidate { mline: 1, .. }
    ));
    assert!(matches!(
        run_host(&mut session, &sdp("answer"))[0],
        HostAction::InstallAnswer { .. }
    ));
    assert!(run_host(&mut session, &sdp("offer")).is_empty());
    let actions = run_host(&mut session, &left("a"));
    assert!(matches!(actions[0], HostAction::RemoveViewer { .. }));
    assert_eq!(lines(&actions)[0], "[host] Viewer a left (0 remaining)");
    assert!(run_host(&mut session, &left("a")).is_empty());
    assert!(run_host(&mut session, &ice()).is_empty());
    assert!(run_host(&mut session, &sdp("answer")).is_empty());
}

#[test]
fn an_error_of_one_branch_costs_that_viewer() {
    let mut session = HostSession::new(60);
    run_host(&mut session, &added("a", None));
    run_host(&mut session, &added("b", None));
    let error = |source: &str| HostEvent::BusError {
        source: source.to_string(),
        message: "broken".to_string(),
    };
    let actions = run_host(&mut session, &error("/pipeline/viewer-a/x"));
    let HostAction::FailViewer { peer, message } = &actions[0] else {
        panic!("expected a viewer's failure");
    };
    assert_eq!((peer.as_str(), message.as_str()), ("a", "broken"));
    let actions = run_host(&mut session, &error("/pipeline/encoder"));
    assert!(matches!(actions[0], HostAction::Fail { .. }));
    let actions = run_host(
        &mut session,
        &HostEvent::ViewerFailed {
            peer: "a".to_string(),
            error: "broken".to_string(),
        },
    );
    assert_eq!(
        lines(&actions)[1..],
        [
            "[host] Viewer a left (1 remaining)",
            "[host] viewer a negotiation failed: broken",
        ]
    );
    assert!(session.has_viewer("b") && !session.has_viewer("a"));
}

#[test]
fn keyframes_and_redraws_are_for_viewers() {
    let mut session = HostSession::new(240);
    let tick = HostEvent::RecoveryKeyframe {
        frames: 240,
        elapsed_ns: 2_000_500_000,
        measured_fps: 120,
    };
    let idle = HostEvent::IdleRedraw { silence_ms: 500 };
    assert!(run_host(&mut session, &tick).is_empty());
    assert!(run_host(&mut session, &idle).is_empty());
    run_host(&mut session, &added("a", None));
    assert!(matches!(
        run_host(&mut session, &idle)[0],
        HostAction::RequestRedraw
    ));
    let actions = run_host(&mut session, &tick);
    let HostAction::EmitGop { payload } = &actions[0] else {
        panic!("expected the measured rate");
    };
    assert_eq!(
        payload,
        "{\"active_gop_size\":120,\"measured_gop_size\":240,\
         \"sampled_frames\":240,\"sampled_ms\":2000}"
    );
    assert!(matches!(actions[1], HostAction::ForceKeyframe));
}

#[test]
fn messages_of_the_relay_are_told() {
    let mut session = HostSession::new(60);
    let actions = run_host(&mut session, &HostEvent::Signal(hosting(Some("s"))));
    assert!(matches!(actions[0], HostAction::EmitSession { .. }));
    assert_eq!(
        lines(&actions),
        [
            "\n  Share this code:  ROOM-CODE\n",
            "  Viewers run:  orange watch --code ROOM-CODE\n",
        ]
    );
    let actions = run_host(
        &mut session,
        &HostEvent::Signal(Signal::Error {
            message: "full".to_string(),
        }),
    );
    assert_eq!(lines(&actions), ["[host] server: full"]);
    assert!(matches!(
        run_host(&mut session, &HostEvent::SignallingClosed)[0],
        HostAction::End
    ));
    let opening = host_opening(&Some("t".to_string()), vec!["1".to_string()]);
    assert!(matches!(opening[0], Signal::Authenticate { .. }));
    assert!(matches!(opening[1], Signal::Host { .. }));
    assert_eq!(host_opening(&None, vec![]).len(), 1);
}

#[test]
fn a_status_line_survives_any_name() {
    let line = print_viewer_status("joined", "p", "line\nbreak \"x\"", &None, &None);
    assert_eq!(line.lines().count(), 1);
    let status: serde_json::Value =
        serde_json::from_str(line.strip_prefix("[host-status] ").unwrap()).unwrap();
    assert_eq!(status["label"], "line\nbreak \"x\"");
}

#[test]
fn every_failure_of_a_host_is_told() {
    let text = host_result(
        Err("a".to_string()),
        &vec![None, Some("b".to_string()), Some("x".to_string())],
        Err("c".to_string()),
        Err("d".to_string()),
    )
    .unwrap_err();
    assert_eq!(text, "a; b; c; d");
    assert!(host_result(Ok(()), &vec![None], Ok(()), Ok(())).is_ok());
    assert_eq!(malformed_answer("x"), "malformed answer: x");
    assert_eq!(answer_not_installed("x"), "could not install answer: x");
}

#[test]
fn sound_is_put_together_or_taken_apart() {
    let mut tee = AudioTee::Adding { added: 0 };
    for _ in 0..4 {
        tee = build_audio_tee(tee, true);
    }
    assert_eq!(tee, AudioTee::Ready);
    let mut tee = build_audio_tee(AudioTee::Linking, false);
    let mut removed = 0;
    while let AudioTee::Removing { .. } = tee {
        removed += 1;
        tee = build_audio_tee(tee, false);
    }
    assert_eq!((removed, tee), (3, AudioTee::Failed));
    assert_eq!(
        build_audio_tee(AudioTee::Adding { added: 0 }, false),
        AudioTee::Failed
    );
    assert_eq!(ui_process_id(&Some("41".to_string())), Some(41));
    assert_eq!(ui_process_id(&Some("x".to_string())), None);
    assert!(audio_tee_description(4, None, &vec![]).is_err());
    assert!(host_plan(&CaptureSettings::default(), &vec![]).is_err());
}

fn relay_error() -> WatchEvent {
    WatchEvent::Signal(Signal::Error {
        message: "no such room".to_string(),
    })
}

#[test]
fn a_room_that_closes_is_the_ordinary_end() {
    let mut in_room = false;
    let actions = run_watch(&mut in_room, &relay_error());
    let WatchAction::Fail { message } = &actions[0] else {
        panic!("expected a failure");
    };
    assert_eq!(message, "no such room");

    let info = WatchEvent::Signal(stream_info(Some("Ada"), Some("s")));
    let actions = run_watch(&mut in_room, &info);
    assert!(in_room);
    assert!(matches!(actions[0], WatchAction::EmitSession { .. }));
    assert!(matches!(actions[1], WatchAction::ShowHost { .. }));
    let WatchAction::Print { line } = &actions[2] else {
        panic!("expected a line");
    };
    assert_eq!(line, "[watch] Ada's stream");

    let actions = run_watch(&mut in_room, &relay_error());
    let WatchAction::Print { line } = &actions[0] else {
        panic!("expected a line");
    };
    assert_eq!(line, WATCH_ENDED);
    assert!(matches!(actions[1], WatchAction::End));
}

#[test]
fn a_closed_window_is_no_failure() {
    let mut in_room = true;
    let error = |playback_alive| WatchEvent::SessionError {
        message: "sink".to_string(),
        playback_alive,
    };
    assert!(matches!(
        run_watch(&mut in_room, &error(Some(false)))[0],
        WatchAction::End
    ));
    assert!(matches!(
        run_watch(&mut in_room, &error(Some(true)))[0],
        WatchAction::Fail { .. }
    ));
    assert!(matches!(
        run_watch(&mut in_room, &error(None))[0],
        WatchAction::Fail { .. }
    ));
    let waited = |playback_alive| WatchEvent::Waited { playback_alive };
    assert!(run_watch(&mut in_room, &waited(Some(true))).is_empty());
    assert!(matches!(
        run_watch(&mut in_room, &waited(Some(false)))[0],
        WatchAction::End
    ));
    assert!(matches!(
        run_watch(&mut in_room, &WatchEvent::SignallingClosed)[0],
        WatchAction::End
    ));
}

#[test]
fn a_viewer_takes_offers_and_candidates() {
    let mut in_room = true;
    let sdp = |kind: &str| {
        WatchEvent::Signal(Signal::Sdp {
            peer: String::new(),
            kind: kind.to_string(),
            sdp: "v=0".to_string(),
        })
    };
    assert!(matches!(
        run_watch(&mut in_room, &sdp("offer"))[0],
        WatchAction::InstallOffer { .. }
    ));
    assert!(run_watch(&mut in_room, &sdp("answer")).is_empty());
    let opening = watch_opening(&None, "CODE");
    assert!(matches!(&opening[0], Signal::Join { code } if code == "CODE"));
    assert_eq!(watch_pad(Some(ReceiveKind::Video), false), StreamAction::KeepClaim);
    assert_eq!(watch_pad(Some(ReceiveKind::Audio), false), StreamAction::BuildAudio);
    assert_eq!(watch_pad(None, true), StreamAction::Ignore);
    assert_eq!(encoding_payload("AV1"), "{\"encoding\":\"AV1\"}");
    assert_eq!(
        branch_problem("AV1", "x"),
        "could not build AV1 receive branch: x"
    );
    assert_eq!(
        ignored_stream("VP8"),
        "[watch] ignoring duplicate or unexpected stream 'VP8'"
    );
    assert_eq!(offer_not_installed("x"), "could not install host offer: x");
    assert_eq!(
        stop_watch_receive_pipeline(),
        [
            StopAction::Disconnect,
            StopAction::ShutdownWorkers,
            StopAction::DropDiagnostics,
            StopAction::StopPipeline,
        ]
    );
    assert_eq!(
        watch_result(Ok(()), Err("w".to_string()), Err("p".to_string())).unwrap_err(),
        "w; p"
    );
}

fn bus_error(error: &str) -> PeerBusMessage {
    PeerBusMessage::Error {
        source: "/pipeline/sink".to_string(),
        error: error.to_string(),
        debug: "debug".to_string(),
    }
}

#[test]
fn bus_messages_are_reported_unless_the_window_was_closed() {
    let BusReaction::Report { line, error } = watch_bus("watch", &bus_error("bad"), Some(true))
    else {
        panic!("expected a report");
    };
    assert_eq!(
        line,
        "[watch] ERROR: GStreamer error from /pipeline/sink: bad (debug)"
    );
    assert_eq!(error.source, "/pipeline/sink");
    assert!(matches!(
        watch_bus("watch", &bus_error("bad"), Some(false)),
        BusReaction::Nothing
    ));
    assert!(matches!(
        watch_bus("watch", &bus_error("the Output window was closed!"), None),
        BusReaction::Nothing
    ));
    let BusReaction::EndOfStream { line } = watch_bus("host", &PeerBusMessage::EndOfStream, None)
    else {
        panic!("expected the end");
    };
    assert_eq!(line, "[host] end of stream");
    assert!(matches!(
        watch_bus("host", &PeerBusMessage::Latency, None),
        BusReaction::RecalculateLatency
    ));
    let warning = PeerBusMessage::Warning {
        error: "w".to_string(),
        debug: "d".to_string(),
    };
    let BusReaction::Warn { line } = watch_bus("host", &warning, None) else {
        panic!("expected a warning");
    };
    assert_eq!(line, "[host] warning: w (d)");
}

#[test]
fn connection_states_are_told() {
    let failed = watch_connection("watch", PeerConnectionState::Failed);
    assert_eq!(failed.line, "[watch] peer connection: Failed");
    assert_eq!(
        failed.failure.as_deref(),
        Some("peer connection entered Failed")
    );
    assert!(watch_connection("watch", PeerConnectionState::Connected).connected);
    let bin = make_webrtcbin("viewer");
    assert_eq!(bin.stun_server, "stun://stun.l.google.com:19302");
    assert_eq!(viewer_bin_name("a"), "viewer-a");
    assert_eq!(diagnostic_label(3), "host-viewer-3");
}

#[test]
fn descriptions_are_checked_and_sent() {
    assert_eq!(parse_sdp("offer", true), Ok(SdpType::Offer));
    assert_eq!(parse_sdp("answer", true), Ok(SdpType::Answer));
    assert_eq!(parse_sdp("offer", false).unwrap_err(), "malformed SDP");
    assert_eq!(
        parse_sdp("rollback", true).unwrap_err(),
        "unknown SDP type 'rollback'"
    );
    let answered = PromiseReply::Answered;
    assert!(created_description(&answered, OfferValue::Present, SdpType::Offer).is_ok());
    assert_eq!(
        created_description(&answered, OfferValue::Missing, SdpType::Offer).unwrap_err(),
        "creating offer returned no description"
    );
    assert_eq!(
        created_description(&PromiseReply::Empty, OfferValue::Missing, SdpType::Answer)
            .unwrap_err(),
        "creating answer returned no description"
    );
    assert_eq!(
        created_description(&answered, OfferValue::Invalid, SdpType::Answer).unwrap_err(),
        "creating answer returned an invalid description"
    );
    let failed = PromiseReply::Failed("Expired".to_string());
    assert_eq!(
        check_promise_reply(&failed, "installing remote answer").unwrap_err(),
        "installing remote answer promise failed: Expired"
    );
    let refused = PromiseReply::Error("no".to_string());
    assert_eq!(
        check_promise_reply(&refused, "creating offer").unwrap_err(),
        "creating offer failed: no"
    );
    assert_eq!(check_promise_reply(&answered, "x"), Ok(true));
    let Ok(Signal::Sdp { peer, kind, sdp }) =
        installed_description(&PromiseReply::Empty, SdpType::Offer, "a", "v=0")
    else {
        panic!("expected a description");
    };
    assert_eq!(
        (peer.as_str(), kind.as_str(), sdp.as_str()),
        ("a", "offer", "v=0")
    );
    assert!(installed_description(&refused, SdpType::Offer, "a", "v=0").is_err());
    assert!(forward_ice("a", Some(1), &Some("c".to_string())).is_some());
    assert!(forward_ice("a", None, &Some("c".to_string())).is_none());
}
