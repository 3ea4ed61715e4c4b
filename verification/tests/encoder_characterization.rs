use orange::encoder_characterization::{
    bitrate_response_is_effective, characterization_description, characterization_verdict,
    characterize, encoders_to_characterize,
    inspect_message, keyframe_near_mutation, next_step, observe_timeout, phase_is_continuous,
    phase_pair_is_continuous, phase_report, phase_target, report_line, run, run_bounded_worker, run_worker,
    set_pipeline_state, terminate_worker, timed_out_worker_error, unreadable_worker_error,
    warmup_result, worker_admission, worker_timed_out, CharacterizationStep, FrameProgress,
    PhaseMeasurement, PhaseObservation, PhaseReport, StateChanges, TerminationAction, WorkerAction,
    WorkerOutcome, WorkerPoll, WORKER_TIMEOUT_MS,
};
use orange::pipeline_run::{BusMessage, PipelineState};

#[test]
fn phase_measurement_reports_progress_silence_and_keyframe_bursts() {
    let mut progress = FrameProgress::default();
    progress.record_at(100, 1_000, true);
    let phase = progress.begin_phase(110);

    progress.record_at(120, 2_000, false);
    progress.record_at(140, 3_000, true);
    progress.record_at(300, 4_000, true);
    let report = progress.end_phase(phase, 1_000);

    assert_eq!(report.frames, 3);
    assert_eq!(report.bytes, 9_000);
    assert_eq!(report.keyframes, 2);
    assert_eq!(report.keyframe_bursts, 2);
    assert_eq!(report.first_keyframe_after_phase_start_ms, Some(30));
    assert_eq!(report.max_gap_ms, 160);
    assert_eq!(report.silent_ms, 700);
}

fn healthy() -> PhaseMeasurement {
    PhaseMeasurement {
        frames: 240,
        bytes: 1_000_000,
        keyframes: 2,
        keyframe_bursts: 0,
        first_keyframe_after_phase_start_ms: Some(1_000),
        max_gap_ms: 20,
        silent_ms: 10,
    }
}

#[test]
fn continuity_gate_rejects_stalls_missing_frames_and_keyframe_bursts() {
    let healthy = healthy();
    assert!(phase_is_continuous(&healthy));

    for unhealthy in [
        PhaseMeasurement {
            frames: 0,
            ..healthy
        },
        PhaseMeasurement {
            max_gap_ms: 1_001,
            ..healthy
        },
        PhaseMeasurement {
            silent_ms: 1_001,
            ..healthy
        },
        PhaseMeasurement {
            keyframe_bursts: 1,
            ..healthy
        },
    ] {
        assert!(!phase_is_continuous(&unhealthy));
    }

    let lagging_receiver = PhaseMeasurement {
        frames: 120,
        ..healthy
    };
    assert!(!phase_pair_is_continuous(&healthy, &lagging_receiver));

    let short_restart = PhaseMeasurement {
        max_gap_ms: 300,
        ..healthy
    };
    assert!(!phase_is_continuous(&short_restart));
}

#[test]
fn bitrate_response_gate_requires_both_decreases_and_the_rebound() {
    assert!(bitrate_response_is_effective([
        23_814, 10_906, 7_235, 22_784
    ]));
    assert!(!bitrate_response_is_effective([
        23_814, 23_814, 23_814, 23_814
    ]));
    assert!(!bitrate_response_is_effective([
        23_814, 10_906, 7_235, 10_000
    ]));
    assert!(!bitrate_response_is_effective([
        22_800, 7_900, 7_900, 228_000
    ]));
    assert!(!bitrate_response_is_effective([
        228_000, 114_000, 57_000, 228_000
    ]));
    assert!(!bitrate_response_is_effective([0, 0, 0, 0]));
}

#[test]
fn keyframe_window_includes_time_spent_setting_the_property() {
    let measurement = PhaseMeasurement {
        frames: 210,
        bytes: 1_000_000,
        keyframes: 1,
        keyframe_bursts: 0,
        first_keyframe_after_phase_start_ms: Some(300),
        max_gap_ms: 20,
        silent_ms: 10,
    };

    assert!(keyframe_near_mutation(&measurement, 100));
    assert!(!keyframe_near_mutation(&measurement, 49));
}

#[test]
fn missing_playing_mutability_always_fails_the_safety_verdict() {
    let (safe, verdict) = characterization_verdict(false, true, true);

    assert!(!safe);
    assert_eq!(verdict, "bitrate is not advertised mutable in PLAYING");
}

#[test]
fn worker_timeout_has_an_exact_upper_bound() {
    assert!(!worker_timed_out(WORKER_TIMEOUT_MS - 1));
    assert!(worker_timed_out(WORKER_TIMEOUT_MS));
}

#[test]
fn phase_measurement_detects_a_keyframe_burst_across_the_mutation_boundary() {
    let mut progress = FrameProgress::default();
    progress.record_at(900, 1_000, true);
    let phase = progress.begin_phase(1_000);

    progress.record_at(1_050, 1_000, true);
    let report = progress.end_phase(phase, 1_100);

    assert_eq!(report.keyframes, 1);
    assert_eq!(report.keyframe_bursts, 1);
    assert_eq!(report.first_keyframe_after_phase_start_ms, Some(50));
}

#[test]
fn recorded_time_is_held_within_its_range() {
    let mut progress = FrameProgress::default();
    progress.record(u128::MAX, 7, false);
    assert_eq!(progress.frames(), 1);
    assert_eq!(progress.last_ms, Some(u64::MAX));
}

fn quiet_phase(index: usize, kbps: u64) -> PhaseReport {
    phase_report(
        index,
        &PhaseObservation {
            applied_bitrate_kbps: phase_target(index),
            property_set_ms: 1,
            duration_ms: 3_500,
            encoded: PhaseMeasurement {
                bytes: kbps * 3_500 / 8,
                ..healthy()
            },
            receiver: healthy(),
            state_changes: StateChanges {
                pipeline: 0,
                encoder: 0,
            },
        },
    )
}

#[test]
fn clean_phases_that_follow_the_bitrate_are_safe() {
    let phases: Vec<PhaseReport> = [23_814u64, 10_906, 7_235, 22_784]
        .into_iter()
        .enumerate()
        .map(|(index, kbps)| quiet_phase(index, kbps))
        .collect();
    let report = characterize("mfh265enc", true, Ok(phases), Ok(())).unwrap();
    assert!(report.safe_for_live_budgeting);
    assert!(report.bitrate_response_effective);
    assert_eq!(report.phases.len(), 4);
    assert!(run_worker(&report).is_ok());
}

#[test]
fn a_phase_with_a_state_change_is_not_continuous() {
    let mut report = quiet_phase(0, 23_814);
    assert!(report.continuous);
    report = phase_report(
        0,
        &PhaseObservation {
            applied_bitrate_kbps: report.applied_bitrate_kbps,
            property_set_ms: 1,
            duration_ms: 3_500,
            encoded: healthy(),
            receiver: healthy(),
            state_changes: StateChanges {
                pipeline: 1,
                encoder: 0,
            },
        },
    );
    assert!(!report.continuous);
}

#[test]
fn a_run_error_and_a_stop_error_end_the_characterization() {
    let failed = characterize("e", true, Err("boom".to_owned()), Ok(())).unwrap_err();
    assert!(failed.contains("boom"));
    let phases: Vec<PhaseReport> = (0..4).map(|index| quiet_phase(index, 1_000)).collect();
    let stopped = characterize("e", true, Ok(phases), Err("stuck".to_owned())).unwrap_err();
    assert!(stopped.contains("stuck"));
}

#[test]
fn a_started_pipeline_is_stopped_whatever_happens() {
    assert_eq!(
        next_step(CharacterizationStep::WarmUp, false),
        CharacterizationStep::StopPipeline
    );
    assert_eq!(
        next_step(CharacterizationStep::RunPhase { index: 1 }, false),
        CharacterizationStep::StopPipeline
    );
    assert_eq!(
        next_step(CharacterizationStep::RunPhase { index: 3 }, true),
        CharacterizationStep::StopPipeline
    );
    assert_eq!(
        next_step(CharacterizationStep::StopPipeline, true),
        CharacterizationStep::Finished
    );
}

#[test]
fn bus_messages_are_counted_or_end_the_run() {
    let mut changes = StateChanges {
        pipeline: 0,
        encoder: 0,
    };
    let changed = |source: &str| BusMessage::StateChanged {
        source: Some(source.to_owned()),
    };
    assert!(inspect_message(&changed("p"), "p", "e", &mut changes).is_ok());
    assert!(inspect_message(&changed("e"), "p", "e", &mut changes).is_ok());
    assert!(inspect_message(&changed("other"), "p", "e", &mut changes).is_ok());
    assert_eq!((changes.pipeline, changes.encoder), (1, 1));
    assert_eq!(
        inspect_message(&BusMessage::EndOfStream, "p", "e", &mut changes).unwrap_err(),
        "pipeline reached EOS during characterization"
    );
    let error = BusMessage::Error {
        error: "bad caps".to_owned(),
        debug: "line 3".to_owned(),
    };
    assert_eq!(
        inspect_message(&error, "p", "e", &mut changes).unwrap_err(),
        "bad caps (line 3)"
    );
}

#[test]
fn observation_waits_in_slices_until_its_deadline() {
    assert_eq!(observe_timeout(0, 1_000_000_000), Some(100_000_000));
    assert_eq!(observe_timeout(950_000_000, 1_000_000_000), Some(50_000_000));
    assert_eq!(observe_timeout(1_000_000_000, 1_000_000_000), None);
}

#[test]
fn a_pipeline_has_to_reach_the_state_it_was_sent_to() {
    assert!(set_pipeline_state(
        PipelineState::Playing,
        PipelineState::Playing,
        PipelineState::VoidPending
    )
    .is_ok());
    let text = set_pipeline_state(
        PipelineState::Playing,
        PipelineState::Paused,
        PipelineState::Playing,
    )
    .unwrap_err();
    assert_eq!(
        text,
        "pipeline did not reach Playing (current: Paused, pending: Playing)"
    );
}

#[test]
fn warmup_needs_frames_on_both_sides() {
    let mut seen = FrameProgress::default();
    seen.record_at(1, 1, true);
    let none = FrameProgress::default();
    assert!(warmup_result(&seen, &seen).is_ok());
    assert!(warmup_result(&none, &seen).is_err());
    assert!(warmup_result(&seen, &none).is_err());
}

#[test]
fn workers_are_polled_until_they_end_or_time_out() {
    assert!(matches!(
        run_bounded_worker(WorkerPoll::Exited { success: false }, 0),
        WorkerAction::Finish { success: false }
    ));
    assert!(matches!(
        run_bounded_worker(WorkerPoll::Running, WORKER_TIMEOUT_MS - 1),
        WorkerAction::Sleep
    ));
    assert!(matches!(
        run_bounded_worker(WorkerPoll::Running, WORKER_TIMEOUT_MS),
        WorkerAction::TerminateAfterTimeout
    ));
    assert!(matches!(
        run_bounded_worker(
            WorkerPoll::Unreadable {
                error: "gone".to_owned()
            },
            0
        ),
        WorkerAction::TerminateUnreadable { .. }
    ));
    assert!(matches!(
        terminate_worker("e", WorkerPoll::Exited { success: true }, 5, 10),
        TerminationAction::Reaped
    ));
    assert!(matches!(
        terminate_worker("e", WorkerPoll::Running, 5, 10),
        TerminationAction::Sleep
    ));
    assert!(matches!(
        terminate_worker("e", WorkerPoll::Running, 10, 10),
        TerminationAction::GiveUp { .. }
    ));
    assert!(unreadable_worker_error("e", "gone", Ok(())).contains("gone"));
    assert!(timed_out_worker_error(Err("still there".to_owned())).contains("still there"));
}

#[test]
fn encoders_are_those_that_are_installed_unless_one_is_asked_for() {
    assert_eq!(
        encoders_to_characterize(None, true, true).unwrap().len(),
        2
    );
    assert_eq!(
        encoders_to_characterize(None, true, false).unwrap().len(),
        1
    );
    assert!(encoders_to_characterize(None, false, false).is_err());
    assert_eq!(
        encoders_to_characterize(Some("mfh265enc"), false, false).unwrap(),
        ["mfh265enc"]
    );
    assert!(worker_admission("mfh265enc", true).is_ok());
    assert!(worker_admission("mfh265enc", false).is_err());
    assert!(worker_admission("x264enc", true).is_err());
}

#[test]
fn one_failed_gate_or_error_fails_the_summary() {
    let passed = vec![("a".to_owned(), WorkerOutcome::Passed)];
    assert!(run(&passed).1.is_ok());
    let mixed = vec![
        ("a".to_owned(), WorkerOutcome::Passed),
        ("b".to_owned(), WorkerOutcome::FailedGate),
        ("c".to_owned(), WorkerOutcome::Error("broken".to_owned())),
    ];
    assert!(run(&mixed).1.is_err());
}

#[test]
fn the_report_of_a_worker_is_one_line_of_json() {
    let measurement = PhaseMeasurement {
        frames: 210,
        bytes: 9_975_000,
        keyframes: 1,
        keyframe_bursts: 0,
        first_keyframe_after_phase_start_ms: None,
        max_gap_ms: 20,
        silent_ms: 5,
    };
    let phases = (0..4)
        .map(|index| {
            phase_report(
                index,
                &PhaseObservation {
                    applied_bitrate_kbps: phase_target(index),
                    property_set_ms: 3,
                    duration_ms: 3_500,
                    encoded: measurement,
                    receiver: measurement,
                    state_changes: StateChanges {
                        pipeline: 0,
                        encoder: 1,
                    },
                },
            )
        })
        .collect();
    let report = characterize("mfh265enc", true, Ok(phases), Ok(())).unwrap();
    let line = report_line(&report);
    let json = line.strip_prefix("[bitrate-characterization] ").unwrap();
    let value: serde_json::Value = serde_json::from_str(json).unwrap();
    assert_eq!(value["encoder"], "mfh265enc");
    assert_eq!(value["resolution"], "1920x1080");
    assert_eq!(value["phases"].as_array().unwrap().len(), 4);
    assert_eq!(value["phases"][1]["requested_bitrate_kbps"], 11_400);
    assert_eq!(value["phases"][0]["encoded"]["bytes"], 9_975_000);
    assert!(value["phases"][0]["encoded"]["first_keyframe_after_phase_start_ms"].is_null());
    assert_eq!(value["phases"][3]["state_changes"]["encoder"], 1);
    assert_eq!(value["phases"][3]["continuous"], false);
    assert_eq!(value["safe_for_live_budgeting"], false);
    assert_eq!(value.as_object().unwrap().len(), 9);
}

#[test]
fn the_characterized_pipeline_names_its_encoder() {
    let description = characterization_description("mfh265enc");
    assert!(description.contains(
        " ! mfh265enc name=characterize-encoder bitrate=22800 ! h265parse name=encoded-output ! "
    ));
    assert!(description.starts_with("videotestsrc is-live=true pattern=snow ! "));
    assert!(description.ends_with(" ! identity name=receiver-output ! fakesink sync=false"));
}
