//! The `characterize-bitrate` benchmark: an encoder is driven through four
//! scripted bitrate phases, and the frames that leave the encoder and the
//! decoder decide whether changing the bitrate while streaming is safe.

pub mod laws;

use crate::json::{
    self, flag_member, number_member, object, optional_number_member, raw_member, text_member,
};
use crate::pipeline_run::{self, bus_error, BusMessage, PipelineState};
use crate::text_ops::{self, join, same_text};
use vstd::prelude::*;
use vstd::string::*;

verus! {

pub const KEYFRAME_BURST_WINDOW_MS: u64 = 500;

pub const KEYFRAME_AFTER_MUTATION_MS: u64 = 250;

pub const MAX_OUTPUT_GAP_MS: u64 = 100;

pub const MAX_PROPERTY_SET_MS: u64 = 250;

pub const MAX_RECEIVER_FRAME_LAG: u64 = 2;

pub const MAX_RECEIVER_TIME_LAG_MS: u64 = 100;

pub const SELECTED_BITRATE_KBPS: u32 = 22_800;

pub const FRAME_RATE: u64 = 60;

pub const PHASE_DURATION_MS: u64 = 3_500;

/// Nine tenths of the frames that a phase should hold at the full frame rate.
pub const MIN_PHASE_FRAMES: u64 = FRAME_RATE * PHASE_DURATION_MS / 1_000 * 9 / 10;

pub const WARMUP_MS: u64 = 2_000;

pub const WORKER_TIMEOUT_MS: u64 = 30_000;

pub const WORKER_KILL_TIMEOUT_MS: u64 = 2_000;

pub const WORKER_POLL_INTERVAL_MS: u64 = 50;

pub const PHASE_COUNT: usize = 4;

/// One frame that passed a probe.
#[derive(Debug, Clone, Copy, PartialEq, Eq, Structural)]
pub struct Frame {
    pub at_ms: u64,
    pub bytes: u64,
    pub keyframe: bool,
}

/// Running counters over the frames of one probe. Every counter saturates.
#[derive(Debug, Clone, Copy, PartialEq, Eq, Structural)]
pub struct FrameProgress {
    pub frames: u64,
    pub bytes: u64,
    pub last_ms: Option<u64>,
    pub max_gap_ms: u64,
    pub keyframes: u64,
    pub keyframe_bursts: u64,
    pub last_keyframe_ms: Option<u64>,
    pub first_keyframe_in_phase_ms: Option<u64>,
}

/// The counters as they stood when a phase began.
#[derive(Debug, Clone, Copy, PartialEq, Eq, Structural)]
pub struct PhaseStart {
    pub started_ms: u64,
    pub frames: u64,
    pub bytes: u64,
    pub keyframes: u64,
    pub keyframe_bursts: u64,
}

/// What happened at one probe during one phase.
#[derive(Debug, Clone, Copy, PartialEq, Eq, Structural)]
pub struct PhaseMeasurement {
    pub frames: u64,
    pub bytes: u64,
    pub keyframes: u64,
    pub keyframe_bursts: u64,
    pub first_keyframe_after_phase_start_ms: Option<u64>,
    pub max_gap_ms: u64,
    pub silent_ms: u64,
}

/// State changes seen on the bus during one phase.
#[derive(Debug, Clone, Copy, PartialEq, Eq, Structural)]
pub struct StateChanges {
    pub pipeline: u64,
    pub encoder: u64,
}

/// `n`, or the greatest `u64` where `n` is beyond it.
pub open spec fn saturated(n: int) -> u64 {
    if n > u64::MAX {
        u64::MAX
    } else {
        n as u64
    }
}

pub open spec fn larger(a: u64, b: u64) -> u64 {
    if a >= b {
        a
    } else {
        b
    }
}

pub open spec fn distance(a: u64, b: u64) -> int {
    if a >= b {
        a - b
    } else {
        b - a
    }
}

/// The time from an earlier frame to `at`, if there was one.
pub open spec fn gap_since(previous: Option<u64>, at: u64) -> u64 {
    match previous {
        Some(earlier) => at.saturating_sub(earlier),
        None => 0,
    }
}

/// A keyframe that follows the previous keyframe within the burst window.
pub open spec fn is_burst(previous: Option<u64>, at: u64) -> bool {
    previous is Some && at.saturating_sub(previous.unwrap()) < KEYFRAME_BURST_WINDOW_MS
}

/// The counters after one more frame.
pub open spec fn after_frame(state: FrameProgress, frame: Frame) -> FrameProgress {
    FrameProgress {
        frames: saturated(state.frames + 1),
        bytes: saturated(state.bytes + frame.bytes),
        last_ms: Some(frame.at_ms),
        max_gap_ms: larger(state.max_gap_ms, gap_since(state.last_ms, frame.at_ms)),
        keyframes: if frame.keyframe {
            saturated(state.keyframes + 1)
        } else {
            state.keyframes
        },
        keyframe_bursts: if frame.keyframe && is_burst(state.last_keyframe_ms, frame.at_ms) {
            saturated(state.keyframe_bursts + 1)
        } else {
            state.keyframe_bursts
        },
        last_keyframe_ms: if frame.keyframe {
            Some(frame.at_ms)
        } else {
            state.last_keyframe_ms
        },
        first_keyframe_in_phase_ms: if frame.keyframe && state.first_keyframe_in_phase_ms is None {
            Some(frame.at_ms)
        } else {
            state.first_keyframe_in_phase_ms
        },
    }
}

/// The counters after a run of frames, in order.
pub open spec fn after_frames(state: FrameProgress, frames: Seq<Frame>) -> FrameProgress
    decreases frames.len(),
{
    if frames.len() == 0 {
        state
    } else {
        after_frame(after_frames(state, frames.drop_last()), frames.last())
    }
}

/// The counters once a phase has begun.
pub open spec fn phase_begun(state: FrameProgress) -> FrameProgress {
    FrameProgress { max_gap_ms: 0, first_keyframe_in_phase_ms: None, ..state }
}

/// What a phase that began with `state` at `started_ms` is measured against.
pub open spec fn phase_start(state: FrameProgress, started_ms: u64) -> PhaseStart {
    PhaseStart {
        started_ms,
        frames: state.frames,
        bytes: state.bytes,
        keyframes: state.keyframes,
        keyframe_bursts: state.keyframe_bursts,
    }
}

/// The measurement of the phase that began at `start` and ends now.
pub open spec fn phase_measured(
    state: FrameProgress,
    start: PhaseStart,
    now_ms: u64,
) -> PhaseMeasurement {
    PhaseMeasurement {
        frames: state.frames.saturating_sub(start.frames),
        bytes: state.bytes.saturating_sub(start.bytes),
        keyframes: state.keyframes.saturating_sub(start.keyframes),
        keyframe_bursts: state.keyframe_bursts.saturating_sub(start.keyframe_bursts),
        first_keyframe_after_phase_start_ms: match state.first_keyframe_in_phase_ms {
            Some(at_ms) => Some(at_ms.saturating_sub(start.started_ms)),
            None => None,
        },
        max_gap_ms: state.max_gap_ms,
        silent_ms: match state.last_ms {
            Some(last_ms) => now_ms.saturating_sub(last_ms),
            None => now_ms,
        },
    }
}

impl Default for FrameProgress {
    fn default() -> (progress: Self)
        ensures
            progress == (FrameProgress {
                frames: 0,
                bytes: 0,
                last_ms: None,
                max_gap_ms: 0,
                keyframes: 0,
                keyframe_bursts: 0,
                last_keyframe_ms: None,
                first_keyframe_in_phase_ms: None,
            }),
    {
        FrameProgress {
            frames: 0,
            bytes: 0,
            last_ms: None,
            max_gap_ms: 0,
            keyframes: 0,
            keyframe_bursts: 0,
            last_keyframe_ms: None,
            first_keyframe_in_phase_ms: None,
        }
    }
}

impl FrameProgress {
    /// Records a buffer that passed the probe `elapsed_ms` after the start.
    pub fn record(&mut self, elapsed_ms: u128, bytes: usize, keyframe: bool)
        ensures
            *final(self) == after_frame(
                *old(self),
                Frame { at_ms: saturated(elapsed_ms as int), bytes: bytes as u64, keyframe },
            ),
    {
        let at_ms: u64 = if elapsed_ms > u64::MAX as u128 {
            u64::MAX
        } else {
            elapsed_ms as u64
        };
        self.record_at(at_ms, bytes as u64, keyframe);
    }

    /// Records a frame.
    pub fn record_at(&mut self, at_ms: u64, bytes: u64, keyframe: bool)
        ensures
            *final(self) == after_frame(*old(self), Frame { at_ms, bytes, keyframe }),
    {
        if let Some(previous) = self.last_ms {
            let gap: u64 = at_ms.saturating_sub(previous);
            if gap > self.max_gap_ms {
                self.max_gap_ms = gap;
            }
        }
        self.last_ms = Some(at_ms);
        self.frames = self.frames.saturating_add(1);
        self.bytes = self.bytes.saturating_add(bytes);

        if keyframe {
            if self.first_keyframe_in_phase_ms.is_none() {
                self.first_keyframe_in_phase_ms = Some(at_ms);
            }
            if let Some(previous) = self.last_keyframe_ms {
                if at_ms.saturating_sub(previous) < KEYFRAME_BURST_WINDOW_MS {
                    self.keyframe_bursts = self.keyframe_bursts.saturating_add(1);
                }
            }
            self.last_keyframe_ms = Some(at_ms);
            self.keyframes = self.keyframes.saturating_add(1);
        }
    }

    /// Begins a phase: its gaps and its first keyframe are counted afresh.
    pub fn begin_phase(&mut self, started_ms: u64) -> (start: PhaseStart)
        ensures
            *final(self) == phase_begun(*old(self)),
            start == phase_start(*old(self), started_ms),
    {
        self.max_gap_ms = 0;
        self.first_keyframe_in_phase_ms = None;
        PhaseStart {
            started_ms,
            frames: self.frames,
            bytes: self.bytes,
            keyframes: self.keyframes,
            keyframe_bursts: self.keyframe_bursts,
        }
    }

    /// Measures the phase that began at `start`.
    pub fn end_phase(&self, start: PhaseStart, now_ms: u64) -> (measurement: PhaseMeasurement)
        ensures
            measurement == phase_measured(*self, start, now_ms),
    {
        PhaseMeasurement {
            frames: self.frames.saturating_sub(start.frames),
            bytes: self.bytes.saturating_sub(start.bytes),
            keyframes: self.keyframes.saturating_sub(start.keyframes),
            keyframe_bursts: self.keyframe_bursts.saturating_sub(start.keyframe_bursts),
            first_keyframe_after_phase_start_ms: match self.first_keyframe_in_phase_ms {
                Some(at_ms) => Some(at_ms.saturating_sub(start.started_ms)),
                None => None,
            },
            max_gap_ms: self.max_gap_ms,
            silent_ms: match self.last_ms {
                Some(last_ms) => now_ms.saturating_sub(last_ms),
                None => now_ms,
            },
        }
    }

    pub fn frames(&self) -> (frames: u64)
        ensures
            frames == self.frames,
    {
        self.frames
    }
}

/// Frames came, with no long gap, no long silence and no keyframe burst.
pub open spec fn continuous_phase(m: PhaseMeasurement) -> bool {
    m.frames > 0 && m.max_gap_ms <= MAX_OUTPUT_GAP_MS && m.silent_ms <= MAX_OUTPUT_GAP_MS
        && m.keyframe_bursts == 0
}

/// Both ends are continuous, full, and close to each other.
pub open spec fn continuous_pair(encoded: PhaseMeasurement, receiver: PhaseMeasurement) -> bool {
    &&& continuous_phase(encoded)
    &&& continuous_phase(receiver)
    &&& encoded.frames >= 189
    &&& receiver.frames >= 189
    &&& distance(encoded.frames, receiver.frames) <= MAX_RECEIVER_FRAME_LAG
    &&& distance(encoded.silent_ms, receiver.silent_ms) <= MAX_RECEIVER_TIME_LAG_MS
}

pub fn phase_is_continuous(measurement: &PhaseMeasurement) -> (continuous: bool)
    ensures
        continuous == continuous_phase(*measurement),
{
    measurement.frames > 0 && measurement.max_gap_ms <= MAX_OUTPUT_GAP_MS && measurement.silent_ms
        <= MAX_OUTPUT_GAP_MS && measurement.keyframe_bursts == 0
}

fn apart(a: u64, b: u64) -> (d: u64)
    ensures
        d == distance(a, b),
{
    if a >= b {
        a - b
    } else {
        b - a
    }
}

pub fn phase_pair_is_continuous(
    encoded: &PhaseMeasurement,
    receiver: &PhaseMeasurement,
) -> (continuous: bool)
    ensures
        continuous == continuous_pair(*encoded, *receiver),
{
    phase_is_continuous(encoded) && phase_is_continuous(receiver) && encoded.frames
        >= MIN_PHASE_FRAMES && receiver.frames >= MIN_PHASE_FRAMES && apart(
        encoded.frames,
        receiver.frames,
    ) <= MAX_RECEIVER_FRAME_LAG && apart(encoded.silent_ms, receiver.silent_ms)
        <= MAX_RECEIVER_TIME_LAG_MS
}

/// The observed rate lies between half and seven fifths of the target.
pub open spec fn near_target(observed: u64, target: int) -> bool {
    target * 5 <= observed * 10 <= target * 14
}

/// Every phase lies near its target; each decrease is visible against the
/// phases before it; the rebound returns near the first rate.
pub open spec fn response_effective(
    selected: u64,
    half: u64,
    quarter: u64,
    rebound: u64,
) -> bool {
    &&& near_target(selected, 22_800)
    &&& near_target(half, 11_400)
    &&& near_target(quarter, 5_700)
    &&& near_target(rebound, 22_800)
    &&& half * 20 <= selected * 13
    &&& quarter * 5 <= half * 4
    &&& quarter * 5 <= selected * 2
    &&& selected * 4 <= rebound * 5 <= selected * 7
}

fn is_near_target(observed: u64, target: u64) -> (near: bool)
    requires
        target <= 22_800,
    ensures
        near == near_target(observed, target as int),
{
    let observed: u128 = observed as u128;
    let target: u128 = target as u128;
    observed * 10 >= target * 5 && observed * 10 <= target * 14
}

pub fn bitrate_response_is_effective(observed_kbps: [u64; 4]) -> (effective: bool)
    ensures
        effective == response_effective(
            observed_kbps[0],
            observed_kbps[1],
            observed_kbps[2],
            observed_kbps[3],
        ),
{
    if !is_near_target(observed_kbps[0], 22_800) || !is_near_target(observed_kbps[1], 11_400)
        || !is_near_target(observed_kbps[2], 5_700) || !is_near_target(observed_kbps[3], 22_800) {
        return false;
    }
    let selected: u128 = observed_kbps[0] as u128;
    let half: u128 = observed_kbps[1] as u128;
    let quarter: u128 = observed_kbps[2] as u128;
    let rebound: u128 = observed_kbps[3] as u128;
    half * 20 <= selected * 13 && quarter * 5 <= half * 4 && quarter * 5 <= selected * 2 && rebound
        * 5 >= selected * 4 && rebound * 5 <= selected * 7
}

/// The first keyframe of the phase came while the property was being set or
/// shortly after.
pub open spec fn keyframe_near(m: PhaseMeasurement, property_set_ms: u64) -> bool {
    m.first_keyframe_after_phase_start_ms is Some
        && m.first_keyframe_after_phase_start_ms.unwrap() <= property_set_ms
        + KEYFRAME_AFTER_MUTATION_MS
}

pub fn keyframe_near_mutation(
    measurement: &PhaseMeasurement,
    property_set_ms: u64,
) -> (near: bool)
    ensures
        near == keyframe_near(*measurement, property_set_ms),
{
    match measurement.first_keyframe_after_phase_start_ms {
        Some(delay) => delay <= property_set_ms.saturating_add(KEYFRAME_AFTER_MUTATION_MS),
        None => false,
    }
}

/// Why the characterization ends as it does: the first unmet demand, in the
/// order in which they are made.
pub open spec fn verdict_text(
    mutable_in_playing: bool,
    continuous: bool,
    bitrate_response_effective: bool,
) -> Seq<char> {
    if !mutable_in_playing {
        "bitrate is not advertised mutable in PLAYING"@
    } else if !continuous {
        "live mutation interrupted encoded or receiver continuity"@
    } else if !bitrate_response_effective {
        "encoded output did not follow the requested bitrate changes"@
    } else {
        "live mutation passed the bounded characterization"@
    }
}

pub fn characterization_verdict(
    mutable_in_playing: bool,
    continuous: bool,
    bitrate_response_effective: bool,
) -> (verdict: (bool, &'static str))
    ensures
        verdict.0 == (mutable_in_playing && continuous && bitrate_response_effective),
        verdict.1@ == verdict_text(mutable_in_playing, continuous, bitrate_response_effective),
{
    if !mutable_in_playing {
        (false, "bitrate is not advertised mutable in PLAYING")
    } else if !continuous {
        (false, "live mutation interrupted encoded or receiver continuity")
    } else if !bitrate_response_effective {
        (false, "encoded output did not follow the requested bitrate changes")
    } else {
        (true, "live mutation passed the bounded characterization")
    }
}

pub fn worker_timed_out(elapsed_ms: u64) -> (timed_out: bool)
    ensures
        timed_out == (elapsed_ms >= 30_000),
{
    elapsed_ms >= WORKER_TIMEOUT_MS
}


/// The bitrate that each phase asks for.
pub open spec fn phase_target_kbps(index: int) -> u32 {
    if index == 1 {
        11_400
    } else if index == 2 {
        5_700
    } else {
        22_800
    }
}

/// The bitrate of phase `index`: the selected rate, half of it, a quarter of
/// it, and the selected rate again.
pub fn phase_target(index: usize) -> (target: u32)
    requires
        index < PHASE_COUNT,
    ensures
        target == phase_target_kbps(index as int),
{
    if index == 1 {
        SELECTED_BITRATE_KBPS / 2
    } else if index == 2 {
        SELECTED_BITRATE_KBPS / 4
    } else {
        SELECTED_BITRATE_KBPS
    }
}

/// What was read off the pipeline in one phase.
#[derive(Debug, Clone, Copy, PartialEq, Eq, Structural)]
pub struct PhaseObservation {
    pub applied_bitrate_kbps: u32,
    /// How long setting the property took; zero in the first phase, which
    /// sets none.
    pub property_set_ms: u64,
    pub duration_ms: u64,
    pub encoded: PhaseMeasurement,
    pub receiver: PhaseMeasurement,
    pub state_changes: StateChanges,
}

/// The record of one phase.
#[derive(Debug, Clone, Copy, PartialEq, Eq, Structural)]
pub struct PhaseReport {
    pub requested_bitrate_kbps: u32,
    pub applied_bitrate_kbps: u32,
    pub property_set_ms: u64,
    pub observed_video_kbps: u64,
    pub encoded: PhaseMeasurement,
    pub receiver: PhaseMeasurement,
    pub state_changes: StateChanges,
    pub keyframe_near_mutation: bool,
    pub continuous: bool,
}

/// Bits per millisecond, that is kilobits per second; the bit count saturates
/// and a phase lasts at least a millisecond.
pub open spec fn observed_kbps(bytes: u64, duration_ms: u64) -> u64 {
    saturated(bytes * 8) / larger(duration_ms, 1)
}

/// The record of phase `index`, from what was observed in it.
pub open spec fn phase_reported(index: int, seen: PhaseObservation) -> PhaseReport {
    let near = index > 0 && keyframe_near(seen.encoded, seen.property_set_ms);
    PhaseReport {
        requested_bitrate_kbps: phase_target_kbps(index),
        applied_bitrate_kbps: seen.applied_bitrate_kbps,
        property_set_ms: seen.property_set_ms,
        observed_video_kbps: observed_kbps(seen.encoded.bytes, seen.duration_ms),
        encoded: seen.encoded,
        receiver: seen.receiver,
        state_changes: seen.state_changes,
        keyframe_near_mutation: near,
        continuous: seen.applied_bitrate_kbps == phase_target_kbps(index) && seen.property_set_ms
            <= MAX_PROPERTY_SET_MS && seen.state_changes.pipeline == 0
            && seen.state_changes.encoder == 0 && !near && continuous_pair(
            seen.encoded,
            seen.receiver,
        ),
    }
}

pub fn phase_report(index: usize, seen: &PhaseObservation) -> (report: PhaseReport)
    requires
        index < PHASE_COUNT,
    ensures
        report == phase_reported(index as int, *seen),
{
    let target: u32 = phase_target(index);
    let bits: u128 = seen.encoded.bytes as u128 * 8;
    let bits: u64 = if bits > u64::MAX as u128 {
        u64::MAX
    } else {
        bits as u64
    };
    let duration_ms: u64 = if seen.duration_ms > 1 {
        seen.duration_ms
    } else {
        1
    };
    let near = index > 0 && keyframe_near_mutation(&seen.encoded, seen.property_set_ms);
    let continuous = seen.applied_bitrate_kbps == target && seen.property_set_ms
        <= MAX_PROPERTY_SET_MS && seen.state_changes.pipeline == 0 && seen.state_changes.encoder
        == 0 && !near && phase_pair_is_continuous(&seen.encoded, &seen.receiver);
    PhaseReport {
        requested_bitrate_kbps: target,
        applied_bitrate_kbps: seen.applied_bitrate_kbps,
        property_set_ms: seen.property_set_ms,
        observed_video_kbps: bits / duration_ms,
        encoded: seen.encoded,
        receiver: seen.receiver,
        state_changes: seen.state_changes,
        keyframe_near_mutation: near,
        continuous,
    }
}

/// The outcome of a whole characterization.
#[derive(Debug)]
pub struct CharacterizationReport {
    pub encoder: String,
    pub bitrate_mutable_in_playing: bool,
    pub resolution: &'static str,
    pub frame_rate: u32,
    pub phase_duration_ms: u64,
    pub phases: Vec<PhaseReport>,
    pub bitrate_response_effective: bool,
    pub safe_for_live_budgeting: bool,
    pub verdict: &'static str,
}

pub open spec fn all_continuous(phases: Seq<PhaseReport>) -> bool {
    forall|i: int| 0 <= i < phases.len() ==> (#[trigger] phases[i]).continuous
}

/// Whether the four phases followed the requested rates.
pub open spec fn phases_effective(phases: Seq<PhaseReport>) -> bool {
    response_effective(
        phases[0].observed_video_kbps,
        phases[1].observed_video_kbps,
        phases[2].observed_video_kbps,
        phases[3].observed_video_kbps,
    )
}

/// The report on `encoder` after the four `phases`.
pub open spec fn reports(
    report: CharacterizationReport,
    encoder: Seq<char>,
    mutable_in_playing: bool,
    phases: Seq<PhaseReport>,
) -> bool {
    &&& report.encoder@ == encoder
    &&& report.bitrate_mutable_in_playing == mutable_in_playing
    &&& report.resolution@ == "1920x1080"@
    &&& report.frame_rate == 60
    &&& report.phase_duration_ms == 3_500
    &&& report.phases@ == phases
    &&& report.bitrate_response_effective == phases_effective(phases)
    &&& report.safe_for_live_budgeting == (mutable_in_playing && all_continuous(phases)
        && phases_effective(phases))
    &&& report.verdict@ == verdict_text(
        mutable_in_playing,
        all_continuous(phases),
        phases_effective(phases),
    )
}

/// Two failures told in one line: what went wrong, then what went wrong while
/// cleaning up after it.
pub open spec fn failure_and_cleanup(failure: Seq<char>, cleanup: Seq<char>) -> Seq<char> {
    failure + "; cleanup failed: "@ + cleanup
}

/// Closes a characterization: `run_result` holds the four phases or what
/// interrupted them, `stop_result` tells how stopping the pipeline went.
pub fn characterize(
    encoder: &str,
    mutable_in_playing: bool,
    run_result: Result<Vec<PhaseReport>, String>,
    stop_result: Result<(), String>,
) -> (outcome: Result<CharacterizationReport, String>)
    requires
        run_result is Ok ==> run_result->Ok_0@.len() == PHASE_COUNT,
    ensures
        match (run_result, stop_result) {
            (Ok(phases), Ok(())) => outcome is Ok && reports(
                outcome->Ok_0,
                encoder@,
                mutable_in_playing,
                phases@,
            ),
            (Err(error), Ok(())) => outcome is Err && outcome->Err_0@ == error@,
            (Ok(_), Err(error)) => outcome is Err && outcome->Err_0@ == error@,
            (Err(error), Err(cleanup)) => outcome is Err && outcome->Err_0@
                == failure_and_cleanup(error@, cleanup@),
        },
{
    let phases = match run_result {
        Ok(phases) => match stop_result {
            Ok(()) => phases,
            Err(error) => return Err(error),
        },
        Err(run_error) => match stop_result {
            Ok(()) => return Err(run_error),
            Err(stop_error) => {
                let mut text = run_error;
                text.append("; cleanup failed: ");
                text.append(stop_error.as_str());
                return Err(text);
            },
        },
    };
    let mut continuous = true;
    let mut i: usize = 0;
    while i < phases.len()
        invariant
            i <= phases@.len(),
            continuous == (forall|j: int| 0 <= j < i ==> (#[trigger] phases@[j]).continuous),
        decreases phases@.len() - i,
    {
        continuous = continuous && phases[i].continuous;
        i += 1;
    }
    let effective = bitrate_response_is_effective(
        [
            phases[0].observed_video_kbps,
            phases[1].observed_video_kbps,
            phases[2].observed_video_kbps,
            phases[3].observed_video_kbps,
        ],
    );
    let (safe, verdict) = characterization_verdict(mutable_in_playing, continuous, effective);
    Ok(
        CharacterizationReport {
            encoder: encoder.to_owned(),
            bitrate_mutable_in_playing: mutable_in_playing,
            resolution: "1920x1080",
            frame_rate: 60,
            phase_duration_ms: PHASE_DURATION_MS,
            phases,
            bitrate_response_effective: effective,
            safe_for_live_budgeting: safe,
            verdict,
        },
    )
}

/// What a characterization is doing.
#[derive(Debug, Clone, Copy, PartialEq, Eq, Structural)]
pub enum CharacterizationStep {
    StartPipeline,
    WarmUp,
    RunPhase { index: usize },
    StopPipeline,
    Finished,
}

/// The step after `step`: the phases run in order, and whatever interrupts a
/// started pipeline leads to stopping it.
pub open spec fn step_after(step: CharacterizationStep, succeeded: bool) -> CharacterizationStep {
    match step {
        CharacterizationStep::StartPipeline => if succeeded {
            CharacterizationStep::WarmUp
        } else {
            CharacterizationStep::Finished
        },
        CharacterizationStep::WarmUp => if succeeded {
            CharacterizationStep::RunPhase { index: 0 }
        } else {
            CharacterizationStep::StopPipeline
        },
        CharacterizationStep::RunPhase { index } => if succeeded && index + 1 < PHASE_COUNT {
            CharacterizationStep::RunPhase { index: (index + 1) as usize }
        } else {
            CharacterizationStep::StopPipeline
        },
        CharacterizationStep::StopPipeline => CharacterizationStep::Finished,
        CharacterizationStep::Finished => CharacterizationStep::Finished,
    }
}

pub fn next_step(step: CharacterizationStep, succeeded: bool) -> (next: CharacterizationStep)
    ensures
        next == step_after(step, succeeded),
{
    match step {
        CharacterizationStep::StartPipeline => if succeeded {
            CharacterizationStep::WarmUp
        } else {
            CharacterizationStep::Finished
        },
        CharacterizationStep::WarmUp => if succeeded {
            CharacterizationStep::RunPhase { index: 0 }
        } else {
            CharacterizationStep::StopPipeline
        },
        CharacterizationStep::RunPhase { index } => if succeeded && index < PHASE_COUNT - 1 {
            CharacterizationStep::RunPhase { index: index + 1 }
        } else {
            CharacterizationStep::StopPipeline
        },
        CharacterizationStep::StopPipeline => CharacterizationStep::Finished,
        CharacterizationStep::Finished => CharacterizationStep::Finished,
    }
}

/// The step that a run of outcomes leads to.
pub open spec fn step_reached(outcomes: Seq<bool>) -> CharacterizationStep
    decreases outcomes.len(),
{
    if outcomes.len() == 0 {
        CharacterizationStep::StartPipeline
    } else {
        step_after(step_reached(outcomes.drop_last()), outcomes.last())
    }
}

/// A pipeline that was started is always stopped before the characterization
/// finishes, whatever fails in between.
pub proof fn started_pipeline_is_stopped(outcomes: Seq<bool>)
    requires
        step_reached(outcomes) is Finished,
    ensures
        (outcomes.len() > 0 && !outcomes[0]) || exists|k: int|
            0 <= k < outcomes.len() && #[trigger] step_reached(outcomes.take(k)) is StopPipeline,
    decreases outcomes.len(),
{
    let rest = outcomes.drop_last();
    if step_reached(rest) is Finished {
        started_pipeline_is_stopped(rest);
        if exists|k: int|
            0 <= k < rest.len() && #[trigger] step_reached(rest.take(k)) is StopPipeline {
            let k = choose|k: int|
                0 <= k < rest.len() && #[trigger] step_reached(rest.take(k)) is StopPipeline;
            assert(rest.take(k) =~= outcomes.take(k));
        } else {
            assert(rest[0] == outcomes[0]);
        }
    } else if step_reached(rest) is StopPipeline {
        assert(rest =~= outcomes.take(outcomes.len() - 1));
    } else {
        assert(step_reached(rest) is StartPipeline);
        lemma_only_the_start_is_first(rest);
    }
}

proof fn lemma_only_the_start_is_first(outcomes: Seq<bool>)
    requires
        step_reached(outcomes) is StartPipeline,
    ensures
        outcomes.len() == 0,
{
}

/// The pipeline that is characterized, with the encoder's factory left open.
pub open spec fn description_text(encoder: Seq<char>) -> Seq<char> {
    "videotestsrc is-live=true pattern=snow ! video/x-raw,format=BGRA,width=1920,height=1080,framerate=60/1 ! d3d11upload ! d3d11convert ! video/x-raw(memory:D3D11Memory),format=NV12,width=1920,height=1080,framerate=60/1 ! queue max-size-buffers=3 leaky=downstream ! "@
        + encoder
        + " name=characterize-encoder bitrate=22800 ! h265parse name=encoded-output ! queue max-size-buffers=200 ! d3d11h265dec ! identity name=receiver-output ! fakesink sync=false"@
}

pub fn characterization_description(encoder: &str) -> (description: String)
    ensures
        description@ == description_text(encoder@),
{
    let mut text =
        "videotestsrc is-live=true pattern=snow ! video/x-raw,format=BGRA,width=1920,height=1080,framerate=60/1 ! d3d11upload ! d3d11convert ! video/x-raw(memory:D3D11Memory),format=NV12,width=1920,height=1080,framerate=60/1 ! queue max-size-buffers=3 leaky=downstream ! ".to_owned();
    text.append(encoder);
    text.append(
        " name=characterize-encoder bitrate=22800 ! h265parse name=encoded-output ! queue max-size-buffers=200 ! d3d11h265dec ! identity name=receiver-output ! fakesink sync=false",
    );
    text
}

/// Both probes must have seen a frame before the first phase.
pub fn warmup_result(encoded: &FrameProgress, receiver: &FrameProgress) -> (result: Result<
    (),
    &'static str,
>)
    ensures
        result is Ok <==> encoded.frames > 0 && receiver.frames > 0,
        result is Err ==> result->Err_0@
            == "pipeline made no encoded or receiver progress during warmup"@,
{
    if encoded.frames() == 0 || receiver.frames() == 0 {
        Err("pipeline made no encoded or receiver progress during warmup")
    } else {
        Ok(())
    }
}

/// Judges a completed state change: the pipeline must have arrived where it
/// was sent.
pub fn set_pipeline_state(
    target: PipelineState,
    current: PipelineState,
    pending: PipelineState,
) -> (result: Result<(), String>)
    ensures
        result is Ok <==> current == target,
        result is Err ==> result->Err_0@ == "pipeline did not reach "@ + pipeline_run::state_text(target)
            + " (current: "@ + pipeline_run::state_text(current) + ", pending: "@ + pipeline_run::state_text(pending) + ")"@,
{
    if current == target {
        return Ok(());
    }
    let mut text = "pipeline did not reach ".to_owned();
    text.append(target.name());
    text.append(" (current: ");
    text.append(current.name());
    text.append(", pending: ");
    text.append(pending.name());
    text.append(")");
    Err(text)
}

/// The counts after a state change was reported by `source`. The pipeline's
/// name is asked for first.
pub open spec fn counted_change(
    changes: StateChanges,
    source: Seq<char>,
    pipeline: Seq<char>,
    encoder: Seq<char>,
) -> StateChanges {
    if source == pipeline {
        StateChanges { pipeline: (changes.pipeline + 1) as u64, ..changes }
    } else if source == encoder {
        StateChanges { encoder: (changes.encoder + 1) as u64, ..changes }
    } else {
        changes
    }
}

/// Why a message ends the observation, where it does.
pub open spec fn message_problem(message: BusMessage) -> Option<Seq<char>> {
    match message {
        BusMessage::Error { error, debug } => Some(
            pipeline_run::bus_error_text(error@, debug@),
        ),
        BusMessage::EndOfStream => Some("pipeline reached EOS during characterization"@),
        _ => None,
    }
}

/// The counts after a message.
pub open spec fn changes_after(
    changes: StateChanges,
    message: BusMessage,
    pipeline: Seq<char>,
    encoder: Seq<char>,
) -> StateChanges {
    match message {
        BusMessage::StateChanged { source: Some(source) } => counted_change(
            changes,
            source@,
            pipeline,
            encoder,
        ),
        _ => changes,
    }
}

/// Takes one bus message: an error or an end of stream ends the observation,
/// a state change of the pipeline or of the encoder is counted.
pub fn inspect_message(
    message: &BusMessage,
    pipeline: &str,
    encoder: &str,
    changes: &mut StateChanges,
) -> (result: Result<(), String>)
    requires
        old(changes).pipeline < u64::MAX,
        old(changes).encoder < u64::MAX,
    ensures
        match *message {
            BusMessage::Error { error, debug } => result is Err && result->Err_0@
                == pipeline_run::bus_error_text(error@, debug@) && *final(changes) == *old(changes),
            BusMessage::EndOfStream => result is Err && result->Err_0@
                == "pipeline reached EOS during characterization"@ && *final(changes) == *old(
                changes,
            ),
            BusMessage::StateChanged { source: Some(source) } => result is Ok && *final(changes)
                == counted_change(*old(changes), source@, pipeline@, encoder@),
            _ => result is Ok && *final(changes) == *old(changes),
        },
        match message_problem(*message) {
            Some(problem) => result is Err && result->Err_0@ == problem,
            None => result is Ok,
        },
        *final(changes) == changes_after(*old(changes), *message, pipeline@, encoder@),
{
    match message {
        BusMessage::Error { error, debug } => Err(bus_error(error.as_str(), debug.as_str())),
        BusMessage::EndOfStream => Err("pipeline reached EOS during characterization".to_owned()),
        BusMessage::StateChanged { source: Some(source) } => {
            if same_text(source.as_str(), pipeline) {
                changes.pipeline = changes.pipeline + 1;
            } else if same_text(source.as_str(), encoder) {
                changes.encoder = changes.encoder + 1;
            }
            Ok(())
        },
        _ => Ok(()),
    }
}

/// How long the next wait on the bus may last, in nanoseconds, or `None` once
/// the deadline has passed and only what is already queued is read.
pub fn observe_timeout(now_ns: u64, deadline_ns: u64) -> (timeout_ns: Option<u64>)
    ensures
        timeout_ns is Some <==> now_ns < deadline_ns,
        timeout_ns is Some ==> timeout_ns.unwrap() == (if deadline_ns - now_ns < 100_000_000 {
            deadline_ns - now_ns
        } else {
            100_000_000
        }),
{
    if now_ns < deadline_ns {
        let remaining: u64 = deadline_ns - now_ns;
        if remaining < 100_000_000 {
            Some(remaining)
        } else {
            Some(100_000_000)
        }
    } else {
        None
    }
}

/// The factories of the encoders that can be characterized.
pub open spec fn encoder_names() -> Seq<Seq<char>> {
    seq!["mfh265enc"@, "nvd3d11h265enc"@]
}

/// The complaint about an encoder that cannot be characterized.
pub open spec fn unsupported_text(encoder: Seq<char>) -> Seq<char> {
    "unsupported characterization encoder '"@ + encoder
        + "' (expected mfh265enc or nvd3d11h265enc)"@
}

fn supported(encoder: &str) -> (known: bool)
    ensures
        known == encoder_names().contains(encoder@),
{
    let known = same_text(encoder, "mfh265enc")
        || same_text(encoder, "nvd3d11h265enc");
    proof {
        assert(encoder_names()[0] == "mfh265enc"@);
        assert(encoder_names()[1] == "nvd3d11h265enc"@);
    }
    known
}

fn unsupported(encoder: &str) -> (text: String)
    ensures
        text@ == unsupported_text(encoder@),
{
    let mut text = "unsupported characterization encoder '".to_owned();
    text.append(encoder);
    text.append("' (expected mfh265enc or nvd3d11h265enc)");
    text
}

/// The encoders to characterize, given which of the two are installed.
pub open spec fn chosen_encoders(
    requested: Option<Seq<char>>,
    mf_installed: bool,
    nv_installed: bool,
) -> Seq<Seq<char>> {
    match requested {
        Some(encoder) => seq![encoder],
        None => {
            (if mf_installed {
                seq!["mfh265enc"@]
            } else {
                Seq::empty()
            }) + (if nv_installed {
                seq!["nvd3d11h265enc"@]
            } else {
                Seq::empty()
            })
        },
    }
}

/// Decides which encoders a run characterizes: the requested one, whether or
/// not it is installed, or every installed one.
pub fn encoders_to_characterize(
    requested: Option<&str>,
    mf_installed: bool,
    nv_installed: bool,
) -> (encoders: Result<Vec<String>, String>)
    ensures
        match requested {
            Some(encoder) if !encoder_names().contains(encoder@) => encoders is Err
                && encoders->Err_0@ == unsupported_text(encoder@),
            None if !mf_installed && !nv_installed => encoders is Err && encoders->Err_0@
                == "no H.265 hardware encoder is available for characterization"@,
            Some(encoder) => encoders is Ok && text_ops::texts(encoders->Ok_0@)
                == chosen_encoders(Some(encoder@), mf_installed, nv_installed),
            None => encoders is Ok && text_ops::texts(encoders->Ok_0@) == chosen_encoders(
                None,
                mf_installed,
                nv_installed,
            ),
        },
{
    let mut chosen: Vec<String> = Vec::new();
    match requested {
        Some(encoder) => {
            if !supported(encoder) {
                return Err(unsupported(encoder));
            }
            chosen.push(encoder.to_owned());
        },
        None => {
            if mf_installed {
                chosen.push("mfh265enc".to_owned());
            }
            if nv_installed {
                chosen.push("nvd3d11h265enc".to_owned());
            }
        },
    }
    if chosen.is_empty() {
        return Err("no H.265 hardware encoder is available for characterization".to_owned());
    }
    proof {
        let wanted = match requested {
            Some(encoder) => Some(encoder@),
            None => None,
        };
        assert(text_ops::texts(chosen@) =~= chosen_encoders(
            wanted,
            mf_installed,
            nv_installed,
        ));
    }
    Ok(chosen)
}

/// How one encoder's worker process ended.
#[derive(Debug)]
pub enum WorkerOutcome {
    Passed,
    FailedGate,
    Error(String),
}

/// The line that reports an encoder which did not pass.
pub open spec fn outcome_line(encoder: Seq<char>, outcome: WorkerOutcome) -> Option<Seq<char>> {
    match outcome {
        WorkerOutcome::Passed => None,
        WorkerOutcome::FailedGate => Some(encoder + ": failed the safety gate"@),
        WorkerOutcome::Error(error) => Some(encoder + ": "@ + error@),
    }
}

/// The lines of all encoders that did not pass, in order.
pub open spec fn failure_lines(outcomes: Seq<(String, WorkerOutcome)>) -> Seq<Seq<char>>
    decreases outcomes.len(),
{
    if outcomes.len() == 0 {
        Seq::empty()
    } else {
        let before = failure_lines(outcomes.drop_last());
        match outcome_line(outcomes.last().0@, outcomes.last().1) {
            Some(line) => before.push(line),
            None => before,
        }
    }
}

/// A run passes when every encoder passed; otherwise each failure is listed.
pub fn run(outcomes: &Vec<(String, WorkerOutcome)>) -> (summary: (
    Vec<String>,
    Result<(), &'static str>,
))
    ensures
        text_ops::texts(summary.0@) == failure_lines(outcomes@),
        summary.1 is Ok <==> forall|i: int|
            0 <= i < outcomes@.len() ==> (#[trigger] outcomes@[i]).1 is Passed,
        summary.1 is Err ==> summary.1->Err_0@
            == "live bitrate mutation is not safe across the available H.265 encoders; host budgeting remains disabled"@,
{
    let mut failures: Vec<String> = Vec::new();
    let mut all_safe = true;
    let mut i: usize = 0;
    while i < outcomes.len()
        invariant
            i <= outcomes@.len(),
            text_ops::texts(failures@) == failure_lines(outcomes@.take(i as int)),
            all_safe <==> forall|j: int| 0 <= j < i ==> (#[trigger] outcomes@[j]).1 is Passed,
        decreases outcomes@.len() - i,
    {
        let ghost before = failures@;
        let (encoder, outcome) = &outcomes[i];
        match outcome {
            WorkerOutcome::Passed => {},
            WorkerOutcome::FailedGate => {
                all_safe = false;
                let mut line = encoder.as_str().to_owned();
                line.append(": failed the safety gate");
                failures.push(line);
            },
            WorkerOutcome::Error(error) => {
                all_safe = false;
                let mut line = encoder.as_str().to_owned();
                line.append(": ");
                line.append(error.as_str());
                failures.push(line);
            },
        }
        proof {
            let seen = outcomes@.take(i + 1);
            assert(seen.drop_last() =~= outcomes@.take(i as int));
            assert(seen.last() == outcomes@[i as int]);
            assert(text_ops::texts(failures@) =~= failure_lines(seen));
        }
        i += 1;
    }
    proof {
        assert(outcomes@.take(outcomes@.len() as int) =~= outcomes@);
    }
    if all_safe {
        (failures, Ok(()))
    } else {
        (
            failures,
            Err(
                "live bitrate mutation is not safe across the available H.265 encoders; host budgeting remains disabled",
            ),
        )
    }
}

/// A worker refuses an unknown encoder first, then one that is not installed.
pub fn worker_admission(encoder: &str, installed: bool) -> (result: Result<(), String>)
    ensures
        result is Ok <==> encoder_names().contains(encoder@) && installed,
        !encoder_names().contains(encoder@) ==> result is Err && result->Err_0@
            == unsupported_text(encoder@),
        encoder_names().contains(encoder@) && !installed ==> result is Err && result->Err_0@
            == "encoder '"@ + encoder@ + "' is unavailable"@,
{
    if !supported(encoder) {
        return Err(unsupported(encoder));
    }
    if !installed {
        let mut text = "encoder '".to_owned();
        text.append(encoder);
        text.append("' is unavailable");
        return Err(text);
    }
    Ok(())
}

/// A worker succeeds exactly when its report calls the encoder safe.
pub fn run_worker(report: &CharacterizationReport) -> (result: Result<(), String>)
    ensures
        result is Ok <==> report.safe_for_live_budgeting,
        result is Err ==> result->Err_0@ == report.encoder@
            + " is not safe for live bitrate budgeting"@,
{
    if report.safe_for_live_budgeting {
        return Ok(());
    }
    let mut text = report.encoder.as_str().to_owned();
    text.append(" is not safe for live bitrate budgeting");
    Err(text)
}

/// What asking a child process for its state gave.
#[derive(Debug)]
pub enum WorkerPoll {
    Exited { success: bool },
    Running,
    Unreadable { error: String },
}

/// What the supervisor of a worker does next.
#[derive(Debug)]
pub enum WorkerAction {
    Finish { success: bool },
    Sleep,
    TerminateAfterTimeout,
    TerminateUnreadable { error: String },
}

/// One poll of a running worker.
pub fn run_bounded_worker(poll: WorkerPoll, elapsed_ms: u64) -> (action: WorkerAction)
    ensures
        match poll {
            WorkerPoll::Exited { success } => action == (WorkerAction::Finish { success }),
            WorkerPoll::Unreadable { error } => action == (WorkerAction::TerminateUnreadable {
                error,
            }),
            WorkerPoll::Running => action == (if elapsed_ms >= 30_000 {
                WorkerAction::TerminateAfterTimeout
            } else {
                WorkerAction::Sleep
            }),
        },
{
    match poll {
        WorkerPoll::Exited { success } => WorkerAction::Finish { success },
        WorkerPoll::Unreadable { error } => WorkerAction::TerminateUnreadable { error },
        WorkerPoll::Running => if worker_timed_out(elapsed_ms) {
            WorkerAction::TerminateAfterTimeout
        } else {
            WorkerAction::Sleep
        },
    }
}

/// The error of a worker whose state could not be read, after its cleanup.
pub open spec fn unreadable_worker_text(
    encoder: Seq<char>,
    error: Seq<char>,
    cleanup: Result<(), Seq<char>>,
) -> Seq<char> {
    let told = "could not inspect "@ + encoder + " characterization worker: "@ + error;
    match cleanup {
        Ok(()) => told,
        Err(cleanup) => failure_and_cleanup(told, cleanup),
    }
}

pub fn unreadable_worker_error(
    encoder: &str,
    error: &str,
    cleanup: Result<(), String>,
) -> (text: String)
    ensures
        text@ == unreadable_worker_text(
            encoder@,
            error@,
            match cleanup {
                Ok(()) => Ok(()),
                Err(cleanup) => Err(cleanup@),
            },
        ),
{
    let mut text = "could not inspect ".to_owned();
    text.append(encoder);
    text.append(" characterization worker: ");
    text.append(error);
    if let Err(cleanup) = cleanup {
        text.append("; cleanup failed: ");
        text.append(cleanup.as_str());
    }
    text
}

/// The error of a worker that ran out of time: what its termination reported,
/// or else the limit that it exceeded.
pub fn timed_out_worker_error(termination: Result<(), String>) -> (text: String)
    ensures
        match termination {
            Ok(()) => text@ == "characterization exceeded its 30 second limit"@,
            Err(error) => text@ == error@,
        },
{
    match termination {
        Ok(()) => "characterization exceeded its 30 second limit".to_owned(),
        Err(error) => error,
    }
}

/// What the supervisor does next while it waits for a killed worker.
#[derive(Debug)]
pub enum TerminationAction {
    Reaped,
    Sleep,
    GiveUp { error: String },
}

/// One poll of a worker that was killed; it has until the deadline to exit.
pub fn terminate_worker(
    encoder: &str,
    poll: WorkerPoll,
    now_ms: u64,
    deadline_ms: u64,
) -> (action: TerminationAction)
    ensures
        match poll {
            WorkerPoll::Exited { .. } => action is Reaped,
            WorkerPoll::Running => if now_ms < deadline_ms {
                action is Sleep
            } else {
                action is GiveUp && action->GiveUp_error@ == encoder@
                    + " characterization worker did not exit within 2 seconds of termination"@
            },
            WorkerPoll::Unreadable { error } => action is GiveUp && action->GiveUp_error@
                == "could not reap "@ + encoder@ + " characterization worker: "@ + error@,
        },
{
    match poll {
        WorkerPoll::Exited { .. } => TerminationAction::Reaped,
        WorkerPoll::Running => {
            if now_ms < deadline_ms {
                TerminationAction::Sleep
            } else {
                let mut error = encoder.to_owned();
                error.append(
                    " characterization worker did not exit within 2 seconds of termination",
                );
                TerminationAction::GiveUp { error }
            }
        },
        WorkerPoll::Unreadable { error: cause } => {
            let mut error = "could not reap ".to_owned();
            error.append(encoder);
            error.append(" characterization worker: ");
            error.append(cause.as_str());
            TerminationAction::GiveUp { error }
        },
    }
}

/// The bytes of a run of frames.
pub open spec fn total_bytes(frames: Seq<Frame>) -> int
    decreases frames.len(),
{
    if frames.len() == 0 {
        0
    } else {
        total_bytes(frames.drop_last()) + frames.last().bytes
    }
}

/// The keyframes of a run of frames.
pub open spec fn keyframes_of(frames: Seq<Frame>) -> Seq<Frame> {
    frames.filter(|frame: Frame| frame.keyframe)
}

/// The time of the last of `frames`, or `before` where there is none.
pub open spec fn last_time(before: Option<u64>, frames: Seq<Frame>) -> Option<u64> {
    if frames.len() == 0 {
        before
    } else {
        Some(frames.last().at_ms)
    }
}

/// The number of frames that follow the frame before them within the burst
/// window, where `before` is the time of the frame before the first.
pub open spec fn close_followers(before: Option<u64>, frames: Seq<Frame>) -> int
    decreases frames.len(),
{
    if frames.len() == 0 {
        0
    } else {
        let rest = frames.drop_last();
        close_followers(before, rest) + (if is_burst(last_time(before, rest), frames.last().at_ms) {
            1int
        } else {
            0int
        })
    }
}

/// The widest gap between neighbouring frames, counting from the frame before
/// the first.
pub open spec fn widest_gap(before: Option<u64>, frames: Seq<Frame>) -> u64
    decreases frames.len(),
{
    if frames.len() == 0 {
        0
    } else {
        let rest = frames.drop_last();
        larger(widest_gap(before, rest), gap_since(last_time(before, rest), frames.last().at_ms))
    }
}

proof fn lemma_after_frames(state: FrameProgress, frames: Seq<Frame>)
    requires
        state.max_gap_ms == 0,
        state.first_keyframe_in_phase_ms is None,
        state.frames + frames.len() <= u64::MAX,
        state.keyframes + frames.len() <= u64::MAX,
        state.keyframe_bursts + frames.len() <= u64::MAX,
        state.bytes + total_bytes(frames) <= u64::MAX,
    ensures
        ({
            let end = after_frames(state, frames);
            let keyframes = keyframes_of(frames);
            &&& end.frames == state.frames + frames.len()
            &&& end.bytes == state.bytes + total_bytes(frames)
            &&& end.keyframes == state.keyframes + keyframes.len()
            &&& end.keyframe_bursts == state.keyframe_bursts + close_followers(
                state.last_keyframe_ms,
                keyframes,
            )
            &&& end.last_ms == last_time(state.last_ms, frames)
            &&& end.last_keyframe_ms == last_time(state.last_keyframe_ms, keyframes)
            &&& end.max_gap_ms == widest_gap(state.last_ms, frames)
            &&& end.first_keyframe_in_phase_ms == (if keyframes.len() == 0 {
                None::<u64>
            } else {
                Some(keyframes[0].at_ms)
            })
            &&& keyframes.len() <= frames.len()
            &&& 0 <= close_followers(state.last_keyframe_ms, keyframes) <= keyframes.len()
            &&& total_bytes(frames) >= 0
        }),
    decreases frames.len(),
{
    reveal(Seq::filter);
    if frames.len() > 0 {
        let rest = frames.drop_last();
        lemma_after_frames(state, rest);
        let before = keyframes_of(rest);
        let now = keyframes_of(frames);
        if frames.last().keyframe {
            assert(now == before.push(frames.last()));
            assert(now.drop_last() =~= before);
        } else {
            assert(now == before);
        }
    }
}

/// A phase is measured by its own frames alone: their number, their bytes,
/// their keyframes, the first keyframe's delay, the widest gap (counted from
/// the last frame before the phase), and the keyframes that came in bursts
/// (counted from the last keyframe before the phase, so that a burst across
/// the phase boundary is seen). It holds as long as no counter is full.
pub proof fn phase_measures_its_own_frames(
    before: FrameProgress,
    started_ms: u64,
    frames: Seq<Frame>,
    now_ms: u64,
)
    requires
        before.frames + frames.len() <= u64::MAX,
        before.keyframes + frames.len() <= u64::MAX,
        before.keyframe_bursts + frames.len() <= u64::MAX,
        before.bytes + total_bytes(frames) <= u64::MAX,
    ensures
        ({
            let measured = phase_measured(
                after_frames(phase_begun(before), frames),
                phase_start(before, started_ms),
                now_ms,
            );
            let keyframes = keyframes_of(frames);
            &&& measured.frames == frames.len()
            &&& measured.bytes == total_bytes(frames)
            &&& measured.keyframes == keyframes.len()
            &&& measured.keyframe_bursts == close_followers(before.last_keyframe_ms, keyframes)
            &&& measured.max_gap_ms == widest_gap(before.last_ms, frames)
            &&& measured.first_keyframe_after_phase_start_ms == (if keyframes.len() == 0 {
                None::<u64>
            } else {
                Some(keyframes[0].at_ms.saturating_sub(started_ms))
            })
            &&& frames.len() > 0 ==> measured.silent_ms == now_ms.saturating_sub(
                frames.last().at_ms,
            )
        }),
{
    lemma_after_frames(phase_begun(before), frames);
}

/// An encoder is only ever called safe when its bitrate may change while
/// playing, every phase applied the rate it asked for within the time bound,
/// no element changed state, no keyframe came near the change, and both ends
/// kept flowing.
pub proof fn safe_means_every_phase_was_clean(
    seen: Seq<PhaseObservation>,
    report: CharacterizationReport,
    encoder: Seq<char>,
    mutable_in_playing: bool,
)
    requires
        seen.len() == PHASE_COUNT,
        reports(
            report,
            encoder,
            mutable_in_playing,
            seen.map(|index: int, phase: PhaseObservation| phase_reported(index, phase)),
        ),
        report.safe_for_live_budgeting,
    ensures
        mutable_in_playing,
        forall|i: int|
            0 <= i < seen.len() ==> {
                &&& (#[trigger] seen[i]).applied_bitrate_kbps == phase_target_kbps(i)
                &&& seen[i].property_set_ms <= MAX_PROPERTY_SET_MS
                &&& seen[i].state_changes.pipeline == 0
                &&& seen[i].state_changes.encoder == 0
                &&& i > 0 ==> !keyframe_near(seen[i].encoded, seen[i].property_set_ms)
                &&& continuous_pair(seen[i].encoded, seen[i].receiver)
            },
{
    let phases = seen.map(|index: int, phase: PhaseObservation| phase_reported(index, phase));
    assert forall|i: int| 0 <= i < seen.len() implies ({
        &&& (#[trigger] seen[i]).applied_bitrate_kbps == phase_target_kbps(i)
        &&& seen[i].property_set_ms <= MAX_PROPERTY_SET_MS
        &&& seen[i].state_changes.pipeline == 0
        &&& seen[i].state_changes.encoder == 0
        &&& i > 0 ==> !keyframe_near(seen[i].encoded, seen[i].property_set_ms)
        &&& continuous_pair(seen[i].encoded, seen[i].receiver)
    }) by {
        assert(phases[i] == phase_reported(i, seen[i]));
        assert(phases[i].continuous);
    }
}

pub open spec fn measurement_json(measurement: PhaseMeasurement) -> Seq<char> {
    json::json_object(
        seq![
            ("frames"@, text_ops::decimal(measurement.frames as nat)),
            ("bytes"@, text_ops::decimal(measurement.bytes as nat)),
            ("keyframes"@, text_ops::decimal(measurement.keyframes as nat)),
            ("keyframe_bursts"@, text_ops::decimal(measurement.keyframe_bursts as nat)),
            (
                "first_keyframe_after_phase_start_ms"@,
                json::json_optional_number(
                    measurement.first_keyframe_after_phase_start_ms,
                ),
            ),
            ("max_gap_ms"@, text_ops::decimal(measurement.max_gap_ms as nat)),
            ("silent_ms"@, text_ops::decimal(measurement.silent_ms as nat)),
        ],
    )
}

fn measurement_string(measurement: &PhaseMeasurement) -> (out: String)
    ensures
        out@ == measurement_json(*measurement),
{
    let members = vec![
        number_member("frames", measurement.frames as u128),
        number_member("bytes", measurement.bytes as u128),
        number_member("keyframes", measurement.keyframes as u128),
        number_member("keyframe_bursts", measurement.keyframe_bursts as u128),
        optional_number_member(
            "first_keyframe_after_phase_start_ms",
            measurement.first_keyframe_after_phase_start_ms,
        ),
        number_member("max_gap_ms", measurement.max_gap_ms as u128),
        number_member("silent_ms", measurement.silent_ms as u128),
    ];
    proof {
        assert(json::member_texts(members@) =~= seq![
            ("frames"@, text_ops::decimal(measurement.frames as nat)),
            ("bytes"@, text_ops::decimal(measurement.bytes as nat)),
            ("keyframes"@, text_ops::decimal(measurement.keyframes as nat)),
            ("keyframe_bursts"@, text_ops::decimal(measurement.keyframe_bursts as nat)),
            (
                "first_keyframe_after_phase_start_ms"@,
                json::json_optional_number(
                    measurement.first_keyframe_after_phase_start_ms,
                ),
            ),
            ("max_gap_ms"@, text_ops::decimal(measurement.max_gap_ms as nat)),
            ("silent_ms"@, text_ops::decimal(measurement.silent_ms as nat)),
        ]);
    }
    object(&members)
}

pub open spec fn state_changes_json(changes: StateChanges) -> Seq<char> {
    json::json_object(
        seq![
            ("pipeline"@, text_ops::decimal(changes.pipeline as nat)),
            ("encoder"@, text_ops::decimal(changes.encoder as nat)),
        ],
    )
}

fn state_changes_string(changes: &StateChanges) -> (out: String)
    ensures
        out@ == state_changes_json(*changes),
{
    let members = vec![
        number_member("pipeline", changes.pipeline as u128),
        number_member("encoder", changes.encoder as u128),
    ];
    proof {
        assert(json::member_texts(members@) =~= seq![
            ("pipeline"@, text_ops::decimal(changes.pipeline as nat)),
            ("encoder"@, text_ops::decimal(changes.encoder as nat)),
        ]);
    }
    object(&members)
}

pub open spec fn phase_json(phase: PhaseReport) -> Seq<char> {
    json::json_object(
        seq![
            ("requested_bitrate_kbps"@, text_ops::decimal(phase.requested_bitrate_kbps as nat)),
            ("applied_bitrate_kbps"@, text_ops::decimal(phase.applied_bitrate_kbps as nat)),
            ("property_set_ms"@, text_ops::decimal(phase.property_set_ms as nat)),
            ("observed_video_kbps"@, text_ops::decimal(phase.observed_video_kbps as nat)),
            ("encoded"@, measurement_json(phase.encoded)),
            ("receiver"@, measurement_json(phase.receiver)),
            ("state_changes"@, state_changes_json(phase.state_changes)),
            ("keyframe_near_mutation"@, json::json_bool(phase.keyframe_near_mutation)),
            ("continuous"@, json::json_bool(phase.continuous)),
        ],
    )
}

fn phase_string(phase: &PhaseReport) -> (out: String)
    ensures
        out@ == phase_json(*phase),
{
    let encoded = measurement_string(&phase.encoded);
    let receiver = measurement_string(&phase.receiver);
    let changes = state_changes_string(&phase.state_changes);
    let members = vec![
        number_member("requested_bitrate_kbps", phase.requested_bitrate_kbps as u128),
        number_member("applied_bitrate_kbps", phase.applied_bitrate_kbps as u128),
        number_member("property_set_ms", phase.property_set_ms as u128),
        number_member("observed_video_kbps", phase.observed_video_kbps as u128),
        raw_member("encoded", encoded.as_str()),
        raw_member("receiver", receiver.as_str()),
        raw_member("state_changes", changes.as_str()),
        flag_member("keyframe_near_mutation", phase.keyframe_near_mutation),
        flag_member("continuous", phase.continuous),
    ];
    proof {
        assert(json::member_texts(members@) =~= seq![
            ("requested_bitrate_kbps"@, text_ops::decimal(phase.requested_bitrate_kbps as nat)),
            ("applied_bitrate_kbps"@, text_ops::decimal(phase.applied_bitrate_kbps as nat)),
            ("property_set_ms"@, text_ops::decimal(phase.property_set_ms as nat)),
            ("observed_video_kbps"@, text_ops::decimal(phase.observed_video_kbps as nat)),
            ("encoded"@, measurement_json(phase.encoded)),
            ("receiver"@, measurement_json(phase.receiver)),
            ("state_changes"@, state_changes_json(phase.state_changes)),
            ("keyframe_near_mutation"@, json::json_bool(phase.keyframe_near_mutation)),
            ("continuous"@, json::json_bool(phase.continuous)),
        ]);
    }
    object(&members)
}

pub open spec fn phase_jsons(phases: Seq<PhaseReport>) -> Seq<Seq<char>> {
    Seq::new(phases.len(), |i: int| phase_json(phases[i]))
}

/// The report as one JSON object.
pub open spec fn characterization_json(report: CharacterizationReport) -> Seq<char> {
    json::json_object(
        seq![
            ("encoder"@, json::json_string(report.encoder@)),
            ("bitrate_mutable_in_playing"@, json::json_bool(report.bitrate_mutable_in_playing)),
            ("resolution"@, json::json_string(report.resolution@)),
            ("frame_rate"@, text_ops::decimal(report.frame_rate as nat)),
            ("phase_duration_ms"@, text_ops::decimal(report.phase_duration_ms as nat)),
            ("phases"@, "["@ + text_ops::joined(phase_jsons(report.phases@), ","@) + "]"@),
            ("bitrate_response_effective"@, json::json_bool(report.bitrate_response_effective)),
            ("safe_for_live_budgeting"@, json::json_bool(report.safe_for_live_budgeting)),
            ("verdict"@, json::json_string(report.verdict@)),
        ],
    )
}

/// The line that a worker prints of its report.
pub fn report_line(report: &CharacterizationReport) -> (line: String)
    ensures
        line@ == "[bitrate-characterization] "@ + characterization_json(*report),
{
    let mut items: Vec<String> = Vec::new();
    let mut i: usize = 0;
    while i < report.phases.len()
        invariant
            i <= report.phases@.len(),
            text_ops::texts(items@) == phase_jsons(report.phases@.take(i as int)),
        decreases report.phases@.len() - i,
    {
        let ghost before = items@;
        let item = phase_string(&report.phases[i]);
        items.push(item);
        i += 1;
        proof {
            let phases = report.phases@;
            assert(text_ops::texts(items@) =~= text_ops::texts(before).push(item@));
            assert(phase_jsons(phases.take(i as int)) =~= phase_jsons(phases.take(i - 1)).push(
                phase_json(phases[i - 1]),
            ));
        }
    }
    let mut list = "[".to_owned();
    list.append(join(&items, ",").as_str());
    list.append("]");
    let members = vec![
        text_member("encoder", report.encoder.as_str()),
        flag_member("bitrate_mutable_in_playing", report.bitrate_mutable_in_playing),
        text_member("resolution", report.resolution),
        number_member("frame_rate", report.frame_rate as u128),
        number_member("phase_duration_ms", report.phase_duration_ms as u128),
        raw_member("phases", list.as_str()),
        flag_member("bitrate_response_effective", report.bitrate_response_effective),
        flag_member("safe_for_live_budgeting", report.safe_for_live_budgeting),
        text_member("verdict", report.verdict),
    ];
    proof {
        assert(report.phases@.take(report.phases@.len() as int) =~= report.phases@);
        assert(json::member_texts(members@) =~= seq![
            ("encoder"@, json::json_string(report.encoder@)),
            ("bitrate_mutable_in_playing"@, json::json_bool(report.bitrate_mutable_in_playing)),
            ("resolution"@, json::json_string(report.resolution@)),
            ("frame_rate"@, text_ops::decimal(report.frame_rate as nat)),
            ("phase_duration_ms"@, text_ops::decimal(report.phase_duration_ms as nat)),
            ("phases"@, "["@ + text_ops::joined(phase_jsons(report.phases@), ","@) + "]"@),
            ("bitrate_response_effective"@, json::json_bool(report.bitrate_response_effective)),
            ("safe_for_live_budgeting"@, json::json_bool(report.safe_for_live_budgeting)),
            ("verdict"@, json::json_string(report.verdict@)),
        ]);
    }
    let mut line = "[bitrate-characterization] ".to_owned();
    line.append(object(&members).as_str());
    line
}

} // verus!
