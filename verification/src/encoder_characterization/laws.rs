//! What the benchmark promises: all four phases are run in order, and an
//! encoder passes exactly where each of them was clean.

use vstd::prelude::*;
use vstd::string::*;

use super::{
    CharacterizationReport, CharacterizationStep, Frame, FrameProgress, PhaseMeasurement,
    PhaseObservation, PhaseReport, StateChanges, TerminationAction, WorkerAction, WorkerOutcome,
    WorkerPoll,
};
use crate::encoder_characterization as bench;
use crate::json;
use crate::pipeline_run::{self, BusMessage, PipelineState};
use crate::text_ops;

verus! {

/// A run in which every step succeeds warms up, goes through the phases 0, 1, 2
/// and 3, each once and in that order, stops the pipeline and is finished.
pub proof fn every_phase_is_run_in_order(outcomes: Seq<bool>)
    requires
        forall|i: int| 0 <= i < outcomes.len() ==> #[trigger] outcomes[i],
    ensures
        outcomes.len() == 0 ==> bench::step_reached(outcomes) is StartPipeline,
        outcomes.len() == 1 ==> bench::step_reached(outcomes) is WarmUp,
        2 <= outcomes.len() <= 5 ==> bench::step_reached(outcomes) == (
        CharacterizationStep::RunPhase { index: (outcomes.len() - 2) as usize }),
        outcomes.len() == 6 ==> bench::step_reached(outcomes) is StopPipeline,
        outcomes.len() > 6 ==> bench::step_reached(outcomes) is Finished,
    decreases outcomes.len(),
{
    if outcomes.len() > 0 {
        let rest = outcomes.drop_last();
        assert forall|i: int| 0 <= i < rest.len() implies #[trigger] rest[i] by {
            assert(outcomes[i]);
        }
        assert(outcomes[outcomes.len() - 1]);
        every_phase_is_run_in_order(rest);
    }
}

/// A step that fails ends the run: a pipeline that was started is stopped next,
/// one that was not is left, and a run that is finished stays so.
pub proof fn failure_ends_the_run(step: CharacterizationStep)
    ensures
        step is WarmUp || step is RunPhase ==> bench::step_after(step, false) is StopPipeline,
        step is StartPipeline || step is StopPipeline || step is Finished ==> bench::step_after(
            step,
            false,
        ) is Finished,
        step is StopPipeline || step is Finished ==> bench::step_after(step, true) is Finished,
{
}

/// The phases ask for the full rate, half of it, a quarter of it, and the full
/// rate again.
pub proof fn phases_halve_and_return()
    ensures
        bench::phase_target_kbps(0) == 22_800,
        bench::phase_target_kbps(1) * 2 == bench::phase_target_kbps(0),
        bench::phase_target_kbps(2) * 4 == bench::phase_target_kbps(0),
        bench::phase_target_kbps(3) == bench::phase_target_kbps(0),
{
}

/// Frames kept coming: none was missed for longer than a tenth of a second, not
/// even at the end, and keyframes came one at a time.
pub open spec fn flowing(m: PhaseMeasurement) -> bool {
    m.frames >= 189 && m.max_gap_ms <= 100 && m.silent_ms <= 100 && m.keyframe_bursts == 0
}

/// A phase was clean: the rate was taken within a quarter of a second, nothing
/// changed state, no keyframe followed the change, and both ends kept flowing
/// together.
pub open spec fn clean(index: int, seen: PhaseObservation) -> bool {
    &&& seen.applied_bitrate_kbps == if index == 0 || index == 3 {
        22_800int
    } else if index == 1 {
        11_400
    } else {
        5_700
    }
    &&& seen.property_set_ms <= 250
    &&& seen.state_changes.pipeline == 0
    &&& seen.state_changes.encoder == 0
    &&& index > 0 ==> match seen.encoded.first_keyframe_after_phase_start_ms {
        Some(delay) => delay > seen.property_set_ms + 250,
        None => true,
    }
    &&& flowing(seen.encoded)
    &&& flowing(seen.receiver)
    &&& -2 <= seen.encoded.frames - seen.receiver.frames <= 2
    &&& -100 <= seen.encoded.silent_ms - seen.receiver.silent_ms <= 100
}

/// A phase counts as continuous exactly where it was clean, and its record
/// holds what was asked for and what was seen.
pub proof fn continuous_means_clean(index: int, seen: PhaseObservation)
    requires
        0 <= index < 4,
    ensures
        bench::phase_reported(index, seen).continuous == clean(index, seen),
        bench::phase_reported(index, seen).requested_bitrate_kbps == if index == 0 || index == 3 {
            22_800int
        } else if index == 1 {
            11_400
        } else {
            5_700
        },
        bench::phase_reported(index, seen).applied_bitrate_kbps == seen.applied_bitrate_kbps,
        bench::phase_reported(index, seen).property_set_ms == seen.property_set_ms,
        bench::phase_reported(index, seen).encoded == seen.encoded,
        bench::phase_reported(index, seen).receiver == seen.receiver,
        bench::phase_reported(index, seen).state_changes == seen.state_changes,
        bench::phase_reported(index, seen).keyframe_near_mutation ==> index > 0
            && seen.encoded.first_keyframe_after_phase_start_ms is Some,
{
}

/// The observed rate is bits by time: in kilobits per second, rounded down.
pub proof fn rate_is_bits_by_time(index: int, seen: PhaseObservation)
    requires
        seen.duration_ms > 0,
        seen.encoded.bytes * 8 <= u64::MAX,
    ensures
        ({
            let kbps = bench::phase_reported(index, seen).observed_video_kbps;
            &&& kbps * seen.duration_ms <= seen.encoded.bytes * 8
            &&& seen.encoded.bytes * 8 < (kbps + 1) * seen.duration_ms
        }),
{
    let bits = seen.encoded.bytes * 8;
    let time = seen.duration_ms as int;
    vstd::arithmetic::div_mod::lemma_fundamental_div_mod(bits, time);
    let kbps = bits / time;
    assert(kbps * time == time * kbps) by (nonlinear_arith);
    assert((kbps + 1) * time == kbps * time + time) by (nonlinear_arith);
}

/// A response that follows the targets is accepted: every rate within a tenth
/// of what was asked for is effective.
pub proof fn faithful_response_is_effective(
    selected: u64,
    half: u64,
    quarter: u64,
    rebound: u64,
)
    requires
        20_520 <= selected <= 25_080,
        10_260 <= half <= 12_540,
        5_130 <= quarter <= 6_270,
        20_520 <= rebound <= 25_080,
    ensures
        bench::response_effective(selected, half, quarter, rebound),
{
}

/// A response that does not follow is refused: one whose rate did not fall at
/// either step, did not come back, or lies too far from what was asked for.
pub proof fn idle_response_is_refused(selected: u64, half: u64, quarter: u64, rebound: u64)
    requires
        bench::response_effective(selected, half, quarter, rebound),
    ensures
        11_400 <= selected <= 31_920,
        5_700 <= half <= 15_960,
        2_850 <= quarter <= 7_980,
        11_400 <= rebound <= 31_920,
        half * 20 <= selected * 13,
        quarter * 5 <= half * 4,
        quarter * 5 <= selected * 2,
        selected * 4 <= rebound * 5,
        rebound * 5 <= selected * 7,
        quarter < half < selected,
        half < rebound,
{
}

/// The four phases were clean and their rates followed.
pub open spec fn spotless(seen: Seq<PhaseObservation>) -> bool {
    forall|i: int| 0 <= i < 4 ==> clean(i, #[trigger] seen[i])
}

/// An encoder is safe exactly where its bitrate may change while playing, every
/// phase was clean, and the observed rates followed; the report says which of
/// these was missed first.
pub proof fn safe_exactly_where_spotless(
    seen: Seq<PhaseObservation>,
    report: CharacterizationReport,
    encoder: Seq<char>,
    mutable_in_playing: bool,
)
    requires
        seen.len() == 4,
        bench::reports(
            report,
            encoder,
            mutable_in_playing,
            seen.map(|index: int, phase: PhaseObservation| bench::phase_reported(index, phase)),
        ),
    ensures
        ({
            let effective = bench::response_effective(
                bench::observed_kbps(seen[0].encoded.bytes, seen[0].duration_ms),
                bench::observed_kbps(seen[1].encoded.bytes, seen[1].duration_ms),
                bench::observed_kbps(seen[2].encoded.bytes, seen[2].duration_ms),
                bench::observed_kbps(seen[3].encoded.bytes, seen[3].duration_ms),
            );
            &&& report.safe_for_live_budgeting <==> mutable_in_playing && spotless(seen)
                && effective
            &&& report.bitrate_response_effective == effective
            &&& report.encoder@ == encoder
            &&& report.bitrate_mutable_in_playing == mutable_in_playing
            &&& report.phases@.len() == 4
            &&& !mutable_in_playing ==> report.verdict@
                == "bitrate is not advertised mutable in PLAYING"@
            &&& mutable_in_playing && !spotless(seen) ==> report.verdict@
                == "live mutation interrupted encoded or receiver continuity"@
            &&& mutable_in_playing && spotless(seen) && !effective ==> report.verdict@
                == "encoded output did not follow the requested bitrate changes"@
            &&& report.safe_for_live_budgeting ==> report.verdict@
                == "live mutation passed the bounded characterization"@
        }),
{
    let phases = seen.map(|index: int, phase: PhaseObservation| bench::phase_reported(index, phase));
    assert forall|i: int| 0 <= i < 4 implies (#[trigger] phases[i]).continuous == clean(
        i,
        seen[i],
    ) by {
        continuous_means_clean(i, seen[i]);
    }
    if bench::all_continuous(phases) {
        assert forall|i: int| 0 <= i < 4 implies clean(i, #[trigger] seen[i]) by {
            assert(phases[i].continuous);
        }
    }
    if spotless(seen) {
        assert forall|i: int| 0 <= i < phases.len() implies (#[trigger] phases[i]).continuous by {
            assert(clean(i, seen[i]));
        }
    }
}

/// A frame is counted with its bytes. Counters that are full stay full.
pub proof fn every_frame_counts(state: FrameProgress, frame: Frame)
    ensures
        ({
            let next = bench::after_frame(state, frame);
            &&& state.frames < u64::MAX ==> next.frames == state.frames + 1
            &&& state.frames == u64::MAX ==> next.frames == u64::MAX
            &&& state.bytes + frame.bytes <= u64::MAX ==> next.bytes == state.bytes + frame.bytes
            &&& state.bytes + frame.bytes > u64::MAX ==> next.bytes == u64::MAX
            &&& next.last_ms == Some(frame.at_ms)
            &&& frame.keyframe && state.keyframes < u64::MAX ==> next.keyframes == state.keyframes
                + 1
            &&& frame.keyframe ==> next.last_keyframe_ms == Some(frame.at_ms)
            &&& !frame.keyframe ==> next.keyframes == state.keyframes && next.last_keyframe_ms
                == state.last_keyframe_ms && next.first_keyframe_in_phase_ms
                == state.first_keyframe_in_phase_ms
        }),
{
}

/// Two keyframes less than half a second apart are a burst, and nothing else
/// is.
pub proof fn close_keyframes_are_a_burst(state: FrameProgress, frame: Frame)
    requires
        state.keyframe_bursts < u64::MAX,
        state.last_keyframe_ms matches Some(earlier) ==> earlier <= frame.at_ms,
    ensures
        bench::after_frame(state, frame).keyframe_bursts == state.keyframe_bursts + if frame.keyframe
            && state.last_keyframe_ms is Some && frame.at_ms - state.last_keyframe_ms->Some_0
            < 500 {
            1int
        } else {
            0
        },
{
}

/// The widest gap is the widest: no frame comes later after the one before it,
/// and it never shrinks.
pub proof fn widest_gap_is_kept(state: FrameProgress, frame: Frame)
    requires
        state.last_ms matches Some(earlier) ==> earlier <= frame.at_ms,
    ensures
        ({
            let next = bench::after_frame(state, frame);
            &&& next.max_gap_ms >= state.max_gap_ms
            &&& state.last_ms matches Some(earlier) ==> next.max_gap_ms >= frame.at_ms - earlier
            &&& next.max_gap_ms == state.max_gap_ms || (state.last_ms matches Some(earlier)
                && next.max_gap_ms == frame.at_ms - earlier)
        }),
{
}

/// The phases of a benchmark run on snow at full size through the encoder that
/// is tested, with the bitrate of the first phase, and are seen before and
/// after the decoder.
pub proof fn tested_encoder_is_in_the_pipeline(encoder: Seq<char>)
    ensures
        text_ops::mentions(
            bench::description_text(encoder),
            "! "@ + encoder + " name=characterize-encoder bitrate=22800 ! h265parse name=encoded-output"@,
        ),
        text_ops::mentions(
            bench::description_text(encoder),
            "d3d11h265dec ! identity name=receiver-output ! fakesink"@,
        ),
        text_ops::begins_with(
            bench::description_text(encoder),
            "videotestsrc is-live=true pattern=snow ! video/x-raw,format=BGRA,width=1920,height=1080,framerate=60/1"@,
        ),
{
    reveal_strlit(
        "videotestsrc is-live=true pattern=snow ! video/x-raw,format=BGRA,width=1920,height=1080,framerate=60/1 ! d3d11upload ! d3d11convert ! video/x-raw(memory:D3D11Memory),format=NV12,width=1920,height=1080,framerate=60/1 ! queue max-size-buffers=3 leaky=downstream ! ",
    );
    reveal_strlit(
        "videotestsrc is-live=true pattern=snow ! video/x-raw,format=BGRA,width=1920,height=1080,framerate=60/1",
    );
    reveal_strlit(
        " name=characterize-encoder bitrate=22800 ! h265parse name=encoded-output ! queue max-size-buffers=200 ! d3d11h265dec ! identity name=receiver-output ! fakesink sync=false",
    );
    reveal_strlit(" name=characterize-encoder bitrate=22800 ! h265parse name=encoded-output");
    reveal_strlit("d3d11h265dec ! identity name=receiver-output ! fakesink");
    reveal_strlit("! ");
    let head =
        "videotestsrc is-live=true pattern=snow ! video/x-raw,format=BGRA,width=1920,height=1080,framerate=60/1 ! d3d11upload ! d3d11convert ! video/x-raw(memory:D3D11Memory),format=NV12,width=1920,height=1080,framerate=60/1 ! queue max-size-buffers=3 leaky=downstream ! "@;
    let tail =
        " name=characterize-encoder bitrate=22800 ! h265parse name=encoded-output ! queue max-size-buffers=200 ! d3d11h265dec ! identity name=receiver-output ! fakesink sync=false"@;
    let text = bench::description_text(encoder);
    let middle = "! "@ + encoder
        + " name=characterize-encoder bitrate=22800 ! h265parse name=encoded-output"@;
    let at = head.len() - 2;
    assert(head[at] == '!');
    assert(head[at + 1] == ' ');
    assert(text.subrange(at, at + middle.len()) =~= middle);
    let end = "d3d11h265dec ! identity name=receiver-output ! fakesink"@;
    assert(tail.subrange(104, 104int + end.len()) =~= end);
    text_ops::part_is_mentioned(head + encoder, tail, Seq::empty(), end);
    assert(head + encoder + tail + Seq::<char>::empty() =~= text);
    let first =
        "videotestsrc is-live=true pattern=snow ! video/x-raw,format=BGRA,width=1920,height=1080,framerate=60/1"@;
    assert(text.take(first.len() as int) =~= first);
}

/// Only a change of the pipeline's own state or of the encoder's is counted,
/// each under its own name.
pub proof fn only_its_own_changes_are_counted(
    changes: StateChanges,
    source: Seq<char>,
    pipeline: Seq<char>,
    encoder: Seq<char>,
)
    requires
        changes.pipeline < u64::MAX,
        changes.encoder < u64::MAX,
        pipeline != encoder,
    ensures
        ({
            let next = bench::counted_change(changes, source, pipeline, encoder);
            &&& next.pipeline == changes.pipeline + if source == pipeline {
                1int
            } else {
                0
            }
            &&& next.encoder == changes.encoder + if source == encoder {
                1int
            } else {
                0
            }
        }),
{
}

/// The requested encoder is the one that is tested; where none is requested,
/// every installed one is, the system's own first.
pub proof fn requested_encoder_is_tested(
    requested: Seq<char>,
    mf_installed: bool,
    nv_installed: bool,
)
    ensures
        bench::chosen_encoders(Some(requested), mf_installed, nv_installed) == seq![requested],
        ({
            let chosen = bench::chosen_encoders(None, mf_installed, nv_installed);
            &&& chosen.contains("mfh265enc"@) == mf_installed
            &&& chosen.contains("nvd3d11h265enc"@) == nv_installed
            &&& chosen.len() == (if mf_installed {
                1int
            } else {
                0
            }) + (if nv_installed {
                1int
            } else {
                0
            })
            &&& mf_installed ==> chosen[0] == "mfh265enc"@
        }),
        bench::encoder_names().len() == 2,
        bench::encoder_names().contains("mfh265enc"@),
        bench::encoder_names().contains("nvd3d11h265enc"@),
{
    reveal_strlit("mfh265enc");
    reveal_strlit("nvd3d11h265enc");
    assert("mfh265enc"@.len() != "nvd3d11h265enc"@.len());
    let chosen = bench::chosen_encoders(None, mf_installed, nv_installed);
    if mf_installed {
        assert(chosen[0] == "mfh265enc"@);
    }
    if nv_installed {
        assert(chosen[chosen.len() - 1] == "nvd3d11h265enc"@);
    }
    assert(bench::encoder_names()[0] == "mfh265enc"@);
    assert(bench::encoder_names()[1] == "nvd3d11h265enc"@);
}

/// Every encoder that did not pass has a line that begins with its name and
/// says why; those that passed have none.
pub proof fn every_failure_has_its_line(outcomes: Seq<(String, WorkerOutcome)>, i: int)
    requires
        0 <= i < outcomes.len(),
    ensures
        outcomes[i].1 is FailedGate ==> bench::failure_lines(outcomes).contains(
            outcomes[i].0@ + ": failed the safety gate"@,
        ),
        outcomes[i].1 matches WorkerOutcome::Error(error) ==> bench::failure_lines(
            outcomes,
        ).contains(outcomes[i].0@ + ": "@ + error@),
        bench::failure_lines(outcomes).len() <= outcomes.len(),
        outcomes[i].1 is Passed ==> bench::failure_lines(outcomes).len() < outcomes.len(),
    decreases outcomes.len(),
{
    let rest = outcomes.drop_last();
    let before = bench::failure_lines(rest);
    let all = bench::failure_lines(outcomes);
    lemma_failure_count(outcomes);
    lemma_failure_count(rest);
    if i < outcomes.len() - 1 {
        assert(rest[i] == outcomes[i]);
        every_failure_has_its_line(rest, i);
        assert forall|line: Seq<char>| before.contains(line) implies all.contains(line) by {
            let k = choose|k: int| 0 <= k < before.len() && before[k] == line;
            assert(all[k] == line);
        }
    } else {
        assert(outcomes.last() == outcomes[i]);
        if !(outcomes[i].1 is Passed) {
            assert(all[all.len() - 1] == all.last());
        }
    }
}

proof fn lemma_failure_count(outcomes: Seq<(String, WorkerOutcome)>)
    ensures
        bench::failure_lines(outcomes).len() <= outcomes.len(),
    decreases outcomes.len(),
{
    if outcomes.len() > 0 {
        lemma_failure_count(outcomes.drop_last());
    }
}

/// The line of a report tells its verdict, each part under its own name.
pub proof fn report_tells_its_verdict(report: CharacterizationReport)
    ensures
        ({
            let text = bench::characterization_json(report);
            &&& text_ops::mentions(
                text,
                json::named("encoder"@, json::json_string(report.encoder@)),
            )
            &&& text_ops::mentions(
                text,
                json::named(
                    "safe_for_live_budgeting"@,
                    json::json_bool(report.safe_for_live_budgeting),
                ),
            )
            &&& text_ops::mentions(
                text,
                json::named(
                    "bitrate_response_effective"@,
                    json::json_bool(report.bitrate_response_effective),
                ),
            )
            &&& text_ops::mentions(
                text,
                json::named("verdict"@, json::json_string(report.verdict@)),
            )
        }),
        json::json_bool(true) == "true"@,
        json::json_bool(false) == "false"@,
{
    reveal_strlit("encoder");
    reveal_strlit("bitrate_response_effective");
    reveal_strlit("safe_for_live_budgeting");
    reveal_strlit("verdict");
    let members = seq![
        ("encoder"@, json::json_string(report.encoder@)),
        ("bitrate_mutable_in_playing"@, json::json_bool(report.bitrate_mutable_in_playing)),
        ("resolution"@, json::json_string(report.resolution@)),
        ("frame_rate"@, text_ops::decimal(report.frame_rate as nat)),
        ("phase_duration_ms"@, text_ops::decimal(report.phase_duration_ms as nat)),
        ("phases"@, "["@ + text_ops::joined(bench::phase_jsons(report.phases@), ","@) + "]"@),
        ("bitrate_response_effective"@, json::json_bool(report.bitrate_response_effective)),
        ("safe_for_live_budgeting"@, json::json_bool(report.safe_for_live_budgeting)),
        ("verdict"@, json::json_string(report.verdict@)),
    ];
    json::object_tells_its_members(members, 0);
    json::object_tells_its_members(members, 6);
    json::object_tells_its_members(members, 7);
    json::object_tells_its_members(members, 8);
}

/// A phase's record tells its numbers, each under its own name.
pub proof fn phase_record_tells_its_numbers(phase: PhaseReport)
    ensures
        ({
            let text = bench::phase_json(phase);
            &&& text_ops::mentions(
                text,
                json::named(
                    "requested_bitrate_kbps"@,
                    text_ops::decimal(phase.requested_bitrate_kbps as nat),
                ),
            )
            &&& text_ops::mentions(
                text,
                json::named(
                    "observed_video_kbps"@,
                    text_ops::decimal(phase.observed_video_kbps as nat),
                ),
            )
            &&& text_ops::mentions(
                text,
                json::named("continuous"@, json::json_bool(phase.continuous)),
            )
            &&& text_ops::mentions(
                text,
                json::named("encoded"@, bench::measurement_json(phase.encoded)),
            )
            &&& text_ops::mentions(
                text,
                json::named("receiver"@, bench::measurement_json(phase.receiver)),
            )
        }),
{
    reveal_strlit("requested_bitrate_kbps");
    reveal_strlit("observed_video_kbps");
    reveal_strlit("continuous");
    reveal_strlit("encoded");
    reveal_strlit("receiver");
    let members = seq![
        ("requested_bitrate_kbps"@, text_ops::decimal(phase.requested_bitrate_kbps as nat)),
        ("applied_bitrate_kbps"@, text_ops::decimal(phase.applied_bitrate_kbps as nat)),
        ("property_set_ms"@, text_ops::decimal(phase.property_set_ms as nat)),
        ("observed_video_kbps"@, text_ops::decimal(phase.observed_video_kbps as nat)),
        ("encoded"@, bench::measurement_json(phase.encoded)),
        ("receiver"@, bench::measurement_json(phase.receiver)),
        ("state_changes"@, bench::state_changes_json(phase.state_changes)),
        ("keyframe_near_mutation"@, json::json_bool(phase.keyframe_near_mutation)),
        ("continuous"@, json::json_bool(phase.continuous)),
    ];
    json::object_tells_its_members(members, 0);
    json::object_tells_its_members(members, 3);
    json::object_tells_its_members(members, 4);
    json::object_tells_its_members(members, 5);
    json::object_tells_its_members(members, 8);
}

/// A phase is measured by what came between its beginning and its end: the
/// frames, the bytes and the keyframes of that time, and the first keyframe by
/// its distance from the beginning.
pub proof fn phase_counts_its_own_frames(
    before: FrameProgress,
    frames: Seq<Frame>,
    started: u64,
    now: u64,
)
    requires
        before.frames + frames.len() <= u64::MAX,
    ensures
        ({
            let after = bench::after_frames(bench::phase_begun(before), frames);
            let seen = bench::phase_measured(after, bench::phase_start(before, started), now);
            &&& seen.frames == frames.len()
            &&& frames.len() == 0 ==> seen.bytes == 0 && seen.keyframes == 0
                && seen.keyframe_bursts == 0 && seen.max_gap_ms == 0
                && seen.first_keyframe_after_phase_start_ms is None
            &&& frames.len() > 0 && frames.last().at_ms <= now ==> seen.silent_ms == now
                - frames.last().at_ms
        }),
{
    lemma_frames(bench::phase_begun(before), frames);
}

proof fn lemma_frames(state: FrameProgress, frames: Seq<Frame>)
    requires
        state.frames + frames.len() <= u64::MAX,
    ensures
        bench::after_frames(state, frames).frames == state.frames + frames.len(),
        frames.len() > 0 ==> bench::after_frames(state, frames).last_ms == Some(
            frames.last().at_ms,
        ),
    decreases frames.len(),
{
    if frames.len() > 0 {
        lemma_frames(state, frames.drop_last());
    }
}

/// The sizes and keyframes of one frame are those of a phase that holds only
/// that frame.
pub proof fn single_frame_is_measured(before: FrameProgress, frame: Frame, started: u64, now: u64)
    requires
        before.frames < u64::MAX,
        before.keyframes < u64::MAX,
        before.bytes + frame.bytes <= u64::MAX,
        started <= frame.at_ms,
    ensures
        ({
            let after = bench::after_frame(bench::phase_begun(before), frame);
            let seen = bench::phase_measured(after, bench::phase_start(before, started), now);
            &&& seen.bytes == frame.bytes
            &&& frame.keyframe ==> seen.keyframes == 1
                && seen.first_keyframe_after_phase_start_ms == Some(
                (frame.at_ms - started) as u64,
            )
            &&& !frame.keyframe ==> seen.keyframes == 0
                && seen.first_keyframe_after_phase_start_ms is None
        }),
{
}

/// A keyframe belongs to a change of the rate where it comes while the rate is
/// set or within a quarter of a second after.
pub proof fn keyframe_follows_a_change(seen: PhaseMeasurement, set_ms: u64)
    requires
        set_ms < 1_000_000_000,
    ensures
        seen.first_keyframe_after_phase_start_ms is None ==> !bench::keyframe_near(seen, set_ms),
        seen.first_keyframe_after_phase_start_ms matches Some(at) ==> (bench::keyframe_near(
            seen,
            set_ms,
        ) <==> at <= set_ms + 250),
{
}

/// The verdict names the first demand that was not met.
pub proof fn verdict_names_the_first_failure(
    changeable: bool,
    continuous: bool,
    effective: bool,
    verdict: (bool, &'static str),
)
    requires
        call_ensures(
            bench::characterization_verdict,
            (changeable, continuous, effective),
            verdict,
        ),
    ensures
        verdict.0 <==> changeable && continuous && effective,
        !changeable ==> text_ops::mentions(verdict.1@, "not advertised mutable"@),
        changeable && !continuous ==> text_ops::mentions(verdict.1@, "continuity"@),
        changeable && continuous && !effective ==> text_ops::mentions(
            verdict.1@,
            "did not follow"@,
        ),
        verdict.0 ==> text_ops::mentions(verdict.1@, "passed"@),
{
    reveal_strlit("bitrate is not advertised mutable in PLAYING");
    reveal_strlit("live mutation interrupted encoded or receiver continuity");
    reveal_strlit("encoded output did not follow the requested bitrate changes");
    reveal_strlit("live mutation passed the bounded characterization");
    reveal_strlit("not advertised mutable");
    reveal_strlit("continuity");
    reveal_strlit("did not follow");
    reveal_strlit("passed");
    let text = verdict.1@;
    if !changeable {
        assert(text.subrange(11, 11int + 22) =~= "not advertised mutable"@);
    } else if !continuous {
        assert(text.subrange(46, 46int + 10) =~= "continuity"@);
    } else if !effective {
        assert(text.subrange(15, 15int + 14) =~= "did not follow"@);
    } else {
        assert(text.subrange(14, 14int + 6) =~= "passed"@);
    }
}

/// The warm-up is over once both ends have seen a frame.
pub proof fn warmup_needs_both_ends(
    encoded: FrameProgress,
    receiver: FrameProgress,
    result: Result<(), &'static str>,
)
    requires
        call_ensures(bench::warmup_result, (&encoded, &receiver), result),
    ensures
        encoded.frames == 0 ==> result is Err,
        receiver.frames == 0 ==> result is Err,
        encoded.frames > 0 && receiver.frames > 0 ==> result is Ok,
{
}

/// A pipeline is in a state where that is its current one; where not, all three
/// states are told.
pub proof fn state_is_reached_or_told(
    target: PipelineState,
    current: PipelineState,
    pending: PipelineState,
    result: Result<(), String>,
)
    requires
        call_ensures(bench::set_pipeline_state, (target, current, pending), result),
    ensures
        target == current <==> result is Ok,
        result is Err ==> {
            &&& text_ops::begins_with(
                result->Err_0@,
                "pipeline did not reach "@ + pipeline_run::state_text(target),
            )
            &&& text_ops::closes_with(
                result->Err_0@,
                "pending: "@ + pipeline_run::state_text(pending) + ")"@,
            )
        },
{
    if result is Err {
        reveal_strlit(", pending: ");
        reveal_strlit("pending: ");
        let text = result->Err_0@;
        let start = "pipeline did not reach "@ + pipeline_run::state_text(target);
        assert(text.take(start.len() as int) =~= start);
        let end = "pending: "@ + pipeline_run::state_text(pending) + ")"@;
        assert(text.skip(text.len() - end.len()) =~= end);
    }
}

/// An error and an end of stream end the observation, the error with its
/// details; no other message does, and only state changes are counted.
pub proof fn only_error_and_end_stop_the_observation(
    message: BusMessage,
    changes: StateChanges,
    pipeline: Seq<char>,
    encoder: Seq<char>,
)
    ensures
        bench::message_problem(message) is Some <==> message is Error || message is EndOfStream,
        message matches BusMessage::Error { error, debug } ==> bench::message_problem(message)
            == Some(error@ + " ("@ + debug@ + ")"@),
        message is Error || message is EndOfStream || message is Other ==> bench::changes_after(
            changes,
            message,
            pipeline,
            encoder,
        ) == changes,
        message matches BusMessage::StateChanged { source: Some(source) } ==> bench::changes_after(
            changes,
            message,
            pipeline,
            encoder,
        ) == bench::counted_change(changes, source@, pipeline, encoder),
{
}

/// The bus is waited for a tenth of a second at a time, and never past the
/// deadline.
pub proof fn waits_end_at_the_deadline(now: u64, deadline: u64, wait: Option<u64>)
    requires
        call_ensures(bench::observe_timeout, (now, deadline), wait),
    ensures
        now >= deadline <==> wait is None,
        wait matches Some(time) ==> 0 < time <= 100_000_000 && now + time <= deadline,
        wait matches Some(time) ==> time == 100_000_000 || now + time == deadline,
{
}

/// A worker takes an encoder that is known and installed, and says which of the
/// two is wrong where it does not.
pub proof fn worker_takes_known_encoders(encoder: &str, installed: bool, result: Result<(), String>)
    requires
        call_ensures(bench::worker_admission, (encoder, installed), result),
    ensures
        encoder@ == "mfh265enc"@ || encoder@ == "nvd3d11h265enc"@ ==> (result is Ok <==> installed),
        encoder@ != "mfh265enc"@ && encoder@ != "nvd3d11h265enc"@ ==> result is Err
            && text_ops::begins_with(result->Err_0@, "unsupported characterization encoder '"@),
        result is Err ==> text_ops::mentions(result->Err_0@, encoder@),
{
    let names = bench::encoder_names();
    assert(names[0] == "mfh265enc"@ && names[1] == "nvd3d11h265enc"@);
    if names.contains(encoder@) {
        let i = choose|i: int| 0 <= i < names.len() && names[i] == encoder@;
        assert(i == 0 || i == 1);
    }
    if result is Err {
        let text = result->Err_0@;
        if names.contains(encoder@) {
            let at = "encoder '"@.len() as int;
            assert(text.subrange(at, at + encoder@.len()) =~= encoder@);
        } else {
            let start = "unsupported characterization encoder '"@;
            let at = start.len() as int;
            assert(text.take(at) =~= start);
            assert(text.subrange(at, at + encoder@.len()) =~= encoder@);
        }
    }
}

/// A worker succeeds exactly where its encoder is safe.
pub proof fn worker_succeeds_where_the_encoder_is_safe(
    report: CharacterizationReport,
    result: Result<(), String>,
)
    requires
        call_ensures(bench::run_worker, (&report,), result),
    ensures
        result is Ok <==> report.safe_for_live_budgeting,
        result is Err ==> text_ops::begins_with(result->Err_0@, report.encoder@),
{
    if result is Err {
        let text = result->Err_0@;
        assert(text.take(report.encoder@.len() as int) =~= report.encoder@);
    }
}

/// A worker that ended is taken at its word, one that runs has thirty seconds,
/// and one that cannot be read is ended.
pub proof fn worker_has_thirty_seconds(poll: WorkerPoll, elapsed: u64, action: WorkerAction)
    requires
        call_ensures(bench::run_bounded_worker, (poll, elapsed), action),
    ensures
        poll is Exited <==> action is Finish,
        poll matches WorkerPoll::Exited { success } ==> action->Finish_success == success,
        poll is Running && elapsed < 30_000 <==> action is Sleep,
        poll is Running && elapsed >= 30_000 <==> action is TerminateAfterTimeout,
        poll is Unreadable <==> action is TerminateUnreadable,
        poll matches WorkerPoll::Unreadable { error } ==> action->TerminateUnreadable_error
            == error,
{
}

/// A worker that was killed is waited for until its deadline; what is wrong
/// with one that cannot be reaped is quoted.
pub proof fn killed_worker_is_waited_for(
    encoder: &str,
    poll: WorkerPoll,
    now: u64,
    deadline: u64,
    action: TerminationAction,
)
    requires
        call_ensures(bench::terminate_worker, (encoder, poll, now, deadline), action),
    ensures
        poll is Exited <==> action is Reaped,
        poll is Running && now < deadline <==> action is Sleep,
        poll is Running && now >= deadline || poll is Unreadable <==> action is GiveUp,
        poll matches WorkerPoll::Unreadable { error } ==> text_ops::closes_with(
            action->GiveUp_error@,
            error@,
        ),
        action is GiveUp ==> text_ops::mentions(action->GiveUp_error@, encoder@),
{
    if action is GiveUp {
        let text = action->GiveUp_error@;
        if let WorkerPoll::Unreadable { error } = poll {
            assert(text.skip(text.len() - error@.len()) =~= error@);
            let at = "could not reap "@.len() as int;
            assert(text.subrange(at, at + encoder@.len()) =~= encoder@);
        } else {
            assert(text.subrange(0, 0int + encoder@.len()) =~= encoder@);
        }
    }
}

/// What is wrong with a worker is quoted, and with it what went wrong when it
/// was ended.
pub proof fn worker_failures_are_quoted(
    encoder: &str,
    error: &str,
    cleanup: String,
    alone: String,
    both: String,
    late: String,
    stuck: String,
)
    requires
        call_ensures(
            bench::unreadable_worker_error,
            (encoder, error, Ok::<(), String>(())),
            alone,
        ),
        call_ensures(
            bench::unreadable_worker_error,
            (encoder, error, Err::<(), String>(cleanup)),
            both,
        ),
        call_ensures(bench::timed_out_worker_error, (Ok::<(), String>(()),), late),
        call_ensures(bench::timed_out_worker_error, (Err::<(), String>(cleanup),), stuck),
    ensures
        text_ops::closes_with(alone@, error@),
        text_ops::mentions(alone@, encoder@),
        text_ops::begins_with(both@, alone@),
        text_ops::closes_with(both@, cleanup@),
        text_ops::mentions(late@, "30 second limit"@),
        stuck@ == cleanup@,
{
    assert(alone@.skip(alone@.len() - error@.len()) =~= error@);
    let at = "could not inspect "@.len() as int;
    assert(alone@.subrange(at, at + encoder@.len()) =~= encoder@);
    assert(both@.take(alone@.len() as int) =~= alone@);
    assert(both@.skip(both@.len() - cleanup@.len()) =~= cleanup@);
    reveal_strlit("characterization exceeded its 30 second limit");
    reveal_strlit("30 second limit");
    assert(late@.subrange(30, 30int + 15) =~= "30 second limit"@);
}

/// A characterization fails where its run or its stop did, and tells both.
pub proof fn characterization_tells_both_failures(
    encoder: &str,
    changeable: bool,
    run: Result<Vec<PhaseReport>, String>,
    stop: Result<(), String>,
    outcome: Result<CharacterizationReport, String>,
)
    requires
        run is Ok ==> run->Ok_0@.len() == 4,
        call_ensures(bench::characterize, (encoder, changeable, run, stop), outcome),
    ensures
        outcome is Ok <==> run is Ok && stop is Ok,
        run is Err ==> text_ops::begins_with(outcome->Err_0@, run->Err_0@),
        stop is Err ==> text_ops::closes_with(outcome->Err_0@, stop->Err_0@),
{
    if run is Err {
        let part = run->Err_0@;
        assert(outcome->Err_0@.take(part.len() as int) =~= part);
    }
    if stop is Err {
        let part = stop->Err_0@;
        let text = outcome->Err_0@;
        assert(text.skip(text.len() - part.len()) =~= part);
    }
}

/// A worker is over its time exactly where it would be ended for it.
pub proof fn overtime_ends_a_worker(elapsed: u64, over: bool, action: WorkerAction)
    requires
        call_ensures(bench::worker_timed_out, (elapsed,), over),
        call_ensures(bench::run_bounded_worker, (WorkerPoll::Running, elapsed), action),
    ensures
        over <==> action is TerminateAfterTimeout,
{
}

/// There is something to test where the requested encoder is known or, with
/// none requested, where one is installed.
pub proof fn something_is_tested_where_it_can_be(
    requested: &str,
    mf_installed: bool,
    nv_installed: bool,
    asked: Result<Vec<String>, String>,
    all: Result<Vec<String>, String>,
)
    requires
        call_ensures(
            bench::encoders_to_characterize,
            (Some(requested), mf_installed, nv_installed),
            asked,
        ),
        call_ensures(
            bench::encoders_to_characterize,
            (None::<&str>, mf_installed, nv_installed),
            all,
        ),
    ensures
        asked is Ok <==> requested@ == "mfh265enc"@ || requested@ == "nvd3d11h265enc"@,
        all is Ok <==> mf_installed || nv_installed,
        asked matches Ok(list) ==> text_ops::texts(list@) == seq![requested@],
        all is Ok ==> text_ops::texts(all->Ok_0@).contains("mfh265enc"@) == mf_installed
            && text_ops::texts(all->Ok_0@).contains("nvd3d11h265enc"@) == nv_installed,
{
    let names = bench::encoder_names();
    assert(names[0] == "mfh265enc"@ && names[1] == "nvd3d11h265enc"@);
    requested_encoder_is_tested(requested@, mf_installed, nv_installed);
    if names.contains(requested@) {
        let i = choose|i: int| 0 <= i < names.len() && names[i] == requested@;
        assert(i == 0 || i == 1);
    }
}

/// A response is effective exactly where every rate lies between half and seven
/// fifths of what was asked for, the first decrease is to at most thirteen
/// twentieths, the second to at most four fifths of that and two fifths of the
/// whole, and the rebound is to between four and seven fifths.
pub proof fn response_is_judged_by_its_bounds(
    selected: u64,
    half: u64,
    quarter: u64,
    rebound: u64,
)
    ensures
        bench::response_effective(selected, half, quarter, rebound) <==> 11_400 <= selected <= 31_920
            && 5_700 <= half <= 15_960 && 2_850 <= quarter <= 7_980 && 11_400 <= rebound <= 31_920
            && 100 * half <= 65 * selected && 100 * quarter <= 80 * half && 100 * quarter <= 40
            * selected && 80 * selected <= 100 * rebound <= 140 * selected,
{
}

/// A report tells under what conditions it was made: full size, sixty frames a
/// second, three and a half seconds a phase.
pub proof fn report_tells_its_conditions(
    report: CharacterizationReport,
    encoder: Seq<char>,
    changeable: bool,
    phases: Seq<PhaseReport>,
)
    requires
        bench::reports(report, encoder, changeable, phases),
    ensures
        report.encoder@ == encoder,
        report.bitrate_mutable_in_playing == changeable,
        report.resolution@ == "1920x1080"@,
        report.frame_rate == 60,
        2 * report.phase_duration_ms == 7 * 1_000,
        report.phases@ == phases,
{
}

/// One encoder that did not pass, wherever it stands, fails the run; a run of
/// encoders that all passed does not fail.
pub proof fn every_encoder_has_to_pass(
    outcomes: Vec<(String, WorkerOutcome)>,
    i: int,
    summary: (Vec<String>, Result<(), &'static str>),
)
    requires
        0 <= i < outcomes@.len(),
        call_ensures(bench::run, (&outcomes,), summary),
    ensures
        !(outcomes@[i].1 is Passed) ==> summary.1 is Err,
        summary.1 is Err ==> exists|k: int|
            0 <= k < outcomes@.len() && !((#[trigger] outcomes@[k]).1 is Passed),
{
}

/// The changes of state are told under the names of what changed.
pub proof fn written_changes_keep_their_names(changes: StateChanges)
    ensures
        text_ops::mentions(
            bench::state_changes_json(changes),
            json::named("pipeline"@, text_ops::decimal(changes.pipeline as nat)),
        ),
        text_ops::mentions(
            bench::state_changes_json(changes),
            json::named("encoder"@, text_ops::decimal(changes.encoder as nat)),
        ),
{
    let members = seq![
        ("pipeline"@, text_ops::decimal(changes.pipeline as nat)),
        ("encoder"@, text_ops::decimal(changes.encoder as nat)),
    ];
    reveal_strlit("pipeline");
    reveal_strlit("encoder");
    assert(bench::state_changes_json(changes) == json::json_object(members));
    assert(members[0].0 == "pipeline"@ && members[1].0 == "encoder"@);
    json::object_tells_its_members(members, 0);
    json::object_tells_its_members(members, 1);
}

/// A new observation has counted nothing.
pub proof fn observation_starts_with_nothing(fresh: FrameProgress)
    requires
        call_ensures(FrameProgress::default, (), fresh),
    ensures
        fresh.frames == 0 && fresh.bytes == 0,
        fresh.keyframes == 0 && fresh.keyframe_bursts == 0,
        fresh.max_gap_ms == 0,
        fresh.last_ms is None && fresh.last_keyframe_ms is None,
        fresh.first_keyframe_in_phase_ms is None,
{
}

/// A response is judged by the four rates in the order of the phases.
pub proof fn rates_are_judged_in_order(observed: [u64; 4], effective: bool)
    requires
        call_ensures(bench::bitrate_response_is_effective, (observed,), effective),
    ensures
        effective ==> observed[2] < observed[1] < observed[0] && observed[1] < observed[3],
        20_520 <= observed[0] <= 25_080 && 10_260 <= observed[1] <= 12_540 && 5_130 <= observed[2]
            <= 6_270 && 20_520 <= observed[3] <= 25_080 ==> effective,
{
}

/// The end of a stream is told apart from every error of the pipeline's own.
pub proof fn end_of_stream_is_named(message: BusMessage)
    requires
        message is EndOfStream,
    ensures
        bench::message_problem(message) == Some("pipeline reached EOS during characterization"@),
{
}

} // verus!
