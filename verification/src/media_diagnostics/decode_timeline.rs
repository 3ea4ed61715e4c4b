//! Where a decoder's output timeline stops following its input.
//!
//! A decoder that keeps emitting buffers without advancing its timestamps
//! starves playout although its input is healthy. The timeline is watched
//! buffer by buffer, and reports are limited to one per interval.

use vstd::prelude::*;
use vstd::string::*;

use crate::json::{self, flag_member, number_member, object, optional_number_member, Member};
use crate::text_ops;

verus! {

/// A stalled decoder meets the report condition on every buffer.
pub const REPORT_INTERVAL_NS: u64 = 1_000_000_000;

/// Clears ordinary reordering and jitter of 20 ms packets.
pub const LAG_THRESHOLD_MS: u64 = 250;

#[derive(Debug, Clone, Copy, PartialEq, Eq, Structural)]
pub struct Timeline {
    pub input_pts_ms: Option<u64>,
    pub output_pts_ms: Option<u64>,
    pub outputs: u64,
    pub stalled: u64,
    pub reported_at: Option<u64>,
}

#[derive(Debug, Clone, Copy, PartialEq, Eq, Structural)]
pub struct Report {
    pub lag_ms: Option<u64>,
    pub outputs: u64,
    pub stalled_outputs: u64,
}

pub open spec fn new_timeline() -> Timeline {
    Timeline {
        input_pts_ms: None,
        output_pts_ms: None,
        outputs: 0,
        stalled: 0,
        reported_at: None,
    }
}

/// The output repeats or precedes the timestamp before it.
pub open spec fn stalls(timeline: Timeline, output: Option<u64>) -> bool {
    match (output, timeline.output_pts_ms) {
        (Some(current), Some(previous)) => current <= previous,
        _ => false,
    }
}

/// How far the output is behind the input.
pub open spec fn lag(timeline: Timeline, output: Option<u64>) -> Option<u64> {
    match (timeline.input_pts_ms, output) {
        (Some(input), Some(output)) => Some(
            if input > output {
                (input - output) as u64
            } else {
                0
            },
        ),
        _ => None,
    }
}

/// The output is worth a report.
pub open spec fn faulty(timeline: Timeline, output: Option<u64>) -> bool {
    ||| stalls(timeline, output)
    ||| lag(timeline, output) matches Some(behind) && behind >= LAG_THRESHOLD_MS
}

/// A report was made less than an interval ago.
pub open spec fn recently_reported(timeline: Timeline, now_ns: u64) -> bool {
    timeline.reported_at matches Some(at) && now_ns - at < REPORT_INTERVAL_NS
}

/// The timeline after one decoded buffer, and the report it gives. A buffer
/// without a timestamp keeps the one before it. Counts start again with each
/// report.
pub open spec fn observed(timeline: Timeline, output: Option<u64>, now_ns: u64) -> (
    Timeline,
    Option<Report>,
) {
    let counted = Timeline {
        output_pts_ms: match output {
            Some(pts) => Some(pts),
            None => timeline.output_pts_ms,
        },
        outputs: (timeline.outputs + 1) as u64,
        stalled: if stalls(timeline, output) {
            (timeline.stalled + 1) as u64
        } else {
            timeline.stalled
        },
        ..timeline
    };
    if faulty(timeline, output) && !recently_reported(timeline, now_ns) {
        (
            Timeline { outputs: 0, stalled: 0, reported_at: Some(now_ns), ..counted },
            Some(
                Report {
                    lag_ms: lag(timeline, output),
                    outputs: counted.outputs,
                    stalled_outputs: counted.stalled,
                },
            ),
        )
    } else {
        (counted, None)
    }
}

/// The timeline after one buffer before the decoder. A buffer without a
/// timestamp keeps the one before it.
pub open spec fn fed(timeline: Timeline, pts_ms: Option<u64>) -> Timeline {
    match pts_ms {
        Some(pts) => Timeline { input_pts_ms: Some(pts), ..timeline },
        None => timeline,
    }
}

impl Default for Timeline {
    fn default() -> (timeline: Timeline)
        ensures
            timeline == new_timeline(),
    {
        Timeline {
            input_pts_ms: None,
            output_pts_ms: None,
            outputs: 0,
            stalled: 0,
            reported_at: None,
        }
    }
}

impl Timeline {
    /// Takes one buffer before the decoder into account.
    pub fn observe_input(&mut self, pts_ms: Option<u64>)
        ensures
            *final(self) == match pts_ms {
                Some(pts) => Timeline { input_pts_ms: Some(pts), ..*old(self) },
                None => *old(self),
            },
            *final(self) == fed(*old(self), pts_ms),
    {
        if let Some(pts) = pts_ms {
            self.input_pts_ms = Some(pts);
        }
    }

    /// Takes one decoded buffer into account and returns the report it gives.
    pub fn observe(&mut self, output_pts_ms: Option<u64>, now_ns: u64) -> (report: Option<Report>)
        requires
            old(self).outputs < u64::MAX,
            old(self).stalled < u64::MAX,
        ensures
            (*final(self), report) == observed(*old(self), output_pts_ms, now_ns),
    {
        self.outputs = self.outputs + 1;
        let stalled = match (output_pts_ms, self.output_pts_ms) {
            (Some(current), Some(previous)) => current <= previous,
            _ => false,
        };
        if stalled {
            self.stalled = self.stalled + 1;
        }
        if let Some(pts) = output_pts_ms {
            self.output_pts_ms = Some(pts);
        }
        let lag_ms: Option<u64> = match (self.input_pts_ms, output_pts_ms) {
            (Some(input), Some(output)) => Some(input.saturating_sub(output)),
            _ => None,
        };
        let behind = match lag_ms {
            Some(lag) => lag >= LAG_THRESHOLD_MS,
            None => false,
        };
        if !stalled && !behind {
            return None;
        }
        if let Some(reported) = self.reported_at {
            if now_ns.saturating_sub(reported) < REPORT_INTERVAL_NS {
                return None;
            }
        }
        self.reported_at = Some(now_ns);
        let report = Report { lag_ms, outputs: self.outputs, stalled_outputs: self.stalled };
        self.outputs = 0;
        self.stalled = 0;
        Some(report)
    }
}

/// What happens at a decoder: a buffer goes in, or one comes out at a time.
pub enum DecoderEvent {
    Input(Option<u64>),
    Output(Option<u64>, u64),
}

/// The timeline and the outputs that reports accounted for, after these
/// events.
pub open spec fn watched(events: Seq<DecoderEvent>) -> (Timeline, int)
    decreases events.len(),
{
    if events.len() == 0 {
        (new_timeline(), 0)
    } else {
        let (timeline, reported) = watched(events.drop_last());
        match events.last() {
            DecoderEvent::Input(pts) => (
                match pts {
                    Some(pts) => Timeline { input_pts_ms: Some(pts), ..timeline },
                    None => timeline,
                },
                reported,
            ),
            DecoderEvent::Output(pts, now_ns) => {
                let (next, report) = observed(timeline, pts, now_ns);
                (
                    next,
                    reported + match report {
                        Some(report) => report.outputs as int,
                        None => 0,
                    },
                )
            },
        }
    }
}

pub open spec fn outputs_in(events: Seq<DecoderEvent>) -> int
    decreases events.len(),
{
    if events.len() == 0 {
        0
    } else {
        outputs_in(events.drop_last()) + if events.last() is Output {
            1int
        } else {
            0
        }
    }
}

/// No decoded buffer is lost to the rate limit: what the reports accounted for
/// and what waits for the next report are all the buffers there were. At most
/// all of them are stalled.
pub proof fn every_output_is_accounted_for(events: Seq<DecoderEvent>)
    requires
        outputs_in(events) < u64::MAX,
    ensures
        watched(events).1 + watched(events).0.outputs == outputs_in(events),
        watched(events).0.stalled <= watched(events).0.outputs,
        watched(events).1 >= 0,
    decreases events.len(),
{
    if events.len() > 0 {
        lemma_outputs_grow(events);
        every_output_is_accounted_for(events.drop_last());
    }
}

proof fn lemma_outputs_grow(events: Seq<DecoderEvent>)
    requires
        events.len() > 0,
    ensures
        outputs_in(events.drop_last()) <= outputs_in(events),
{
}

/// Two reports are at least an interval apart.
pub proof fn reports_are_an_interval_apart(timeline: Timeline, output: Option<u64>, now_ns: u64)
    ensures
        observed(timeline, output, now_ns).1 is Some ==> {
            &&& observed(timeline, output, now_ns).0.reported_at == Some(now_ns)
            &&& timeline.reported_at matches Some(at) ==> at + REPORT_INTERVAL_NS <= now_ns
        },
        observed(timeline, output, now_ns).1 is None ==> observed(
            timeline,
            output,
            now_ns,
        ).0.reported_at == timeline.reported_at,
{
}

/// What is known of a decoded buffer besides its timestamp.
#[derive(Debug, Clone, Copy, PartialEq, Eq, Structural)]
pub struct DecodedBuffer {
    pub pts_ms: Option<u64>,
    pub duration_ms: Option<u64>,
    pub gap: bool,
    pub discont: bool,
    pub resync: bool,
}

/// The payload of a decode report.
pub fn track_decode_timeline(
    report: &Report,
    input_pts_ms: Option<u64>,
    buffer: &DecodedBuffer,
) -> (payload: String)
    ensures
        payload@ == json::json_object(
            seq![
                ("discont"@, json::json_bool(buffer.discont)),
                ("duration_ms"@, json::json_optional_number(buffer.duration_ms)),
                ("gap"@, json::json_bool(buffer.gap)),
                ("input_pts_ms"@, json::json_optional_number(input_pts_ms)),
                ("lag_ms"@, json::json_optional_number(report.lag_ms)),
                ("output_pts_ms"@, json::json_optional_number(buffer.pts_ms)),
                ("outputs"@, text_ops::decimal(report.outputs as nat)),
                ("resync"@, json::json_bool(buffer.resync)),
                ("stalled_outputs"@, text_ops::decimal(report.stalled_outputs as nat)),
            ],
        ),
{
    let mut members: Vec<Member> = Vec::new();
    members.push(flag_member("discont", buffer.discont));
    members.push(optional_number_member("duration_ms", buffer.duration_ms));
    members.push(flag_member("gap", buffer.gap));
    members.push(optional_number_member("input_pts_ms", input_pts_ms));
    members.push(optional_number_member("lag_ms", report.lag_ms));
    members.push(optional_number_member("output_pts_ms", buffer.pts_ms));
    members.push(number_member("outputs", report.outputs as u128));
    members.push(flag_member("resync", buffer.resync));
    members.push(number_member("stalled_outputs", report.stalled_outputs as u128));
    proof {
        assert(json::member_texts(members@) =~= seq![
            ("discont"@, json::json_bool(buffer.discont)),
            ("duration_ms"@, json::json_optional_number(buffer.duration_ms)),
            ("gap"@, json::json_bool(buffer.gap)),
            ("input_pts_ms"@, json::json_optional_number(input_pts_ms)),
            ("lag_ms"@, json::json_optional_number(report.lag_ms)),
            ("output_pts_ms"@, json::json_optional_number(buffer.pts_ms)),
            ("outputs"@, text_ops::decimal(report.outputs as nat)),
            ("resync"@, json::json_bool(buffer.resync)),
            ("stalled_outputs"@, text_ops::decimal(report.stalled_outputs as nat)),
        ]);
    }
    object(&members)
}

} // verus!
