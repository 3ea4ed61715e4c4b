//! What the diagnostics of media count, report and write down.

use vstd::prelude::*;
use vstd::string::*;

use super::decode_timeline::{self as timeline, DecodedBuffer, Report, Timeline};
use super::operation::{self, Operation, OperationEvent, OperationOutcome};
use super::progress::{
    self, BufferFlags, MediaProgress, MediaSnapshot, MediaStage, StageCounter, StageSnapshot,
};
use super::webrtc_monitor::{
    self as monitor, InboundFractions, InboundRtpStats, Monitor, MonitorEvent, OutboundRtpStats,
    StatsSample, StreamCounters, WebRtcReport,
};
use super::writer::{
    self, DiagnosticMetadata, DiagnosticRuntime, DrainState, QueueReply, RuntimeEvent,
};
use crate::json;
use crate::text_ops::{self, Separator};

verus! {

/// A buffer counts once, with its bytes, and leaves its time; one without a
/// timestamp leaves the last timestamp.
pub proof fn every_buffer_counts(
    counter: StageCounter,
    bytes: u64,
    at: u64,
    pts: Option<u64>,
)
    requires
        counter.buffers < u64::MAX,
        counter.bytes + bytes <= u64::MAX,
    ensures
        ({
            let after = progress::counter_after(counter, bytes, at, pts);
            &&& after.buffers == counter.buffers + 1
            &&& after.bytes == counter.bytes + bytes
            &&& at < u64::MAX ==> after.last_ms == at + 1
            &&& pts is None ==> after.last_pts_ms == counter.last_pts_ms
            &&& pts matches Some(time) ==> (time < u64::MAX ==> after.last_pts_ms == time + 1)
        }),
        progress::u64_sum(u64::MAX, 1) == 0,
{
}

/// Every stage has a counter of its own.
pub proof fn stages_are_counted_apart(state: MediaProgress)
    ensures
        progress::stage_counter(state, MediaStage::Rtp) == state.rtp,
        progress::stage_counter(state, MediaStage::Depay) == state.depay,
        progress::stage_counter(state, MediaStage::Parsed) == state.parsed,
        progress::stage_counter(state, MediaStage::Decoded) == state.decoded,
        progress::stage_counter(state, MediaStage::VideoSinkInput) == state.video_sink_input,
        progress::stage_counter(state, MediaStage::AudioRtp) == state.audio_rtp,
        progress::stage_counter(state, MediaStage::AudioDepay) == state.audio_depay,
        progress::stage_counter(state, MediaStage::AudioDecoded) == state.audio_decoded,
        progress::stage_counter(state, MediaStage::AudioSinkInput) == state.audio_sink_input,
{
}

/// The same buffer, by what a snapshot tells of it.
pub open spec fn told(counter: StageCounter, now: u64, stage: StageSnapshot) -> bool {
    &&& stage.buffers == counter.buffers && stage.bytes == counter.bytes
    &&& counter.last_ms == 0 <==> stage.silent_ms is None
    &&& 0 < counter.last_ms && counter.last_ms - 1 <= now ==> stage.silent_ms == Some(
        (now + 1 - counter.last_ms) as u64,
    )
    &&& counter.last_pts_ms == 0 <==> stage.pts_ms is None
    &&& counter.last_pts_ms > 0 ==> stage.pts_ms == Some((counter.last_pts_ms - 1) as u64)
}

/// A snapshot tells every stage by its own counter, and how far the picture is
/// ahead of the sound.
pub proof fn snapshot_tells_every_stage(state: MediaProgress, now: u64)
    ensures
        ({
            let seen = progress::snapshot_of(state, now);
            &&& told(state.rtp, now, seen.rtp)
            &&& told(state.depay, now, seen.depay)
            &&& told(state.parsed, now, seen.parsed)
            &&& told(state.decoded, now, seen.decoded)
            &&& told(state.video_sink_input, now, seen.video_sink_input)
            &&& told(state.audio_rtp, now, seen.audio_rtp)
            &&& told(state.audio_depay, now, seen.audio_depay)
            &&& told(state.audio_decoded, now, seen.audio_decoded)
            &&& told(state.audio_sink_input, now, seen.audio_sink_input)
            &&& seen.keyframes == state.keyframes
            &&& seen.queue_overruns == state.queue_overruns
            &&& 0 < state.video_sink_input.last_pts_ms <= 1_000_000_000_000_000 && 0
                < state.audio_sink_input.last_pts_ms <= 1_000_000_000_000_000
                ==> seen.av_offset_ms == Some(
                (state.video_sink_input.last_pts_ms - state.audio_sink_input.last_pts_ms) as i64,
            )
            &&& state.video_sink_input.last_pts_ms == 0 || state.audio_sink_input.last_pts_ms == 0
                ==> seen.av_offset_ms is None
        }),
{
}

/// Keyframes are counted of the parsed stream alone.
pub proof fn keyframes_are_counted_once(stage: MediaStage, flags: BufferFlags, keyframe: bool)
    requires
        call_ensures(progress::track_pad, (stage, flags), keyframe),
    ensures
        stage !is Parsed ==> !keyframe,
        stage is Parsed ==> keyframe == !flags.delta_unit,
{
}

/// The written snapshot tells each stage under its own name.
pub proof fn written_snapshot_tells_every_stage(seen: MediaSnapshot)
    ensures
        ({
            let text = progress::snapshot_json(seen);
            &&& text_ops::mentions(text, json::named("rtp"@, progress::stage_json(seen.rtp)))
            &&& text_ops::mentions(text, json::named("depay"@, progress::stage_json(seen.depay)))
            &&& text_ops::mentions(text, json::named("parsed"@, progress::stage_json(seen.parsed)))
            &&& text_ops::mentions(
                text,
                json::named("decoded"@, progress::stage_json(seen.decoded)),
            )
            &&& text_ops::mentions(
                text,
                json::named("video_sink_input"@, progress::stage_json(seen.video_sink_input)),
            )
            &&& text_ops::mentions(
                text,
                json::named("audio_rtp"@, progress::stage_json(seen.audio_rtp)),
            )
            &&& text_ops::mentions(
                text,
                json::named("audio_depay"@, progress::stage_json(seen.audio_depay)),
            )
            &&& text_ops::mentions(
                text,
                json::named("audio_decoded"@, progress::stage_json(seen.audio_decoded)),
            )
            &&& text_ops::mentions(
                text,
                json::named("audio_sink_input"@, progress::stage_json(seen.audio_sink_input)),
            )
            &&& text_ops::mentions(
                text,
                json::named("keyframes"@, text_ops::decimal(seen.keyframes as nat)),
            )
            &&& text_ops::mentions(
                text,
                json::named("queue_overruns"@, text_ops::decimal(seen.queue_overruns as nat)),
            )
            &&& seen.av_offset_ms matches Some(ms) ==> text_ops::mentions(
                text,
                json::named("av_offset_ms"@, text_ops::signed_decimal(ms as int)),
            )
        }),
{
    reveal_strlit("audio_decoded");
    reveal_strlit("audio_depay");
    reveal_strlit("audio_rtp");
    reveal_strlit("audio_sink_input");
    reveal_strlit("av_offset_ms");
    reveal_strlit("decoded");
    reveal_strlit("depay");
    reveal_strlit("keyframes");
    reveal_strlit("parsed");
    reveal_strlit("queue_overruns");
    reveal_strlit("rtp");
    reveal_strlit("video_sink_input");
    let members = seq![
        ("audio_decoded"@, progress::stage_json(seen.audio_decoded)),
        ("audio_depay"@, progress::stage_json(seen.audio_depay)),
        ("audio_rtp"@, progress::stage_json(seen.audio_rtp)),
        ("audio_sink_input"@, progress::stage_json(seen.audio_sink_input)),
        ("av_offset_ms"@, progress::offset_json(seen.av_offset_ms)),
        ("decoded"@, progress::stage_json(seen.decoded)),
        ("depay"@, progress::stage_json(seen.depay)),
        ("keyframes"@, text_ops::decimal(seen.keyframes as nat)),
        ("parsed"@, progress::stage_json(seen.parsed)),
        ("queue_overruns"@, text_ops::decimal(seen.queue_overruns as nat)),
        ("rtp"@, progress::stage_json(seen.rtp)),
        ("video_sink_input"@, progress::stage_json(seen.video_sink_input)),
    ];
    json::object_tells_its_members(members, 0);
    json::object_tells_its_members(members, 1);
    json::object_tells_its_members(members, 2);
    json::object_tells_its_members(members, 3);
    json::object_tells_its_members(members, 4);
    json::object_tells_its_members(members, 5);
    json::object_tells_its_members(members, 6);
    json::object_tells_its_members(members, 7);
    json::object_tells_its_members(members, 8);
    json::object_tells_its_members(members, 9);
    json::object_tells_its_members(members, 10);
    json::object_tells_its_members(members, 11);
}

/// The written stage tells its two counts and, where there are any, its times.
pub proof fn written_stage_tells_its_counts(stage: StageSnapshot)
    ensures
        ({
            let text = progress::stage_json(stage);
            &&& text_ops::mentions(
                text,
                json::named("buffers"@, text_ops::decimal(stage.buffers as nat)),
            )
            &&& text_ops::mentions(
                text,
                json::named("bytes"@, text_ops::decimal(stage.bytes as nat)),
            )
            &&& stage.pts_ms matches Some(ms) ==> text_ops::mentions(
                text,
                json::named("pts_ms"@, text_ops::decimal(ms as nat)),
            )
            &&& stage.silent_ms matches Some(ms) ==> text_ops::mentions(
                text,
                json::named("silent_ms"@, text_ops::decimal(ms as nat)),
            )
            &&& stage.pts_ms is None ==> text_ops::mentions(
                text,
                json::named("pts_ms"@, "null"@),
            )
        }),
{
    reveal_strlit("buffers");
    reveal_strlit("bytes");
    reveal_strlit("pts_ms");
    reveal_strlit("silent_ms");
    let members = seq![
        ("buffers"@, text_ops::decimal(stage.buffers as nat)),
        ("bytes"@, text_ops::decimal(stage.bytes as nat)),
        ("pts_ms"@, json::json_optional_number(stage.pts_ms)),
        ("silent_ms"@, json::json_optional_number(stage.silent_ms)),
    ];
    json::object_tells_its_members(members, 0);
    json::object_tells_its_members(members, 1);
    json::object_tells_its_members(members, 2);
    json::object_tells_its_members(members, 3);
}

/// A decoder that follows its input is not reported: its output moves on, and
/// is less than a quarter of a second behind.
pub proof fn healthy_decoder_is_not_reported(
    state: Timeline,
    input: u64,
    previous: Option<u64>,
    output: u64,
    now: u64,
)
    requires
        state.input_pts_ms == Some(input),
        state.output_pts_ms == previous,
        previous matches Some(last) ==> last < output,
        input < output + 250,
    ensures
        timeline::observed(state, Some(output), now).1 is None,
        timeline::observed(state, Some(output), now).0.output_pts_ms == Some(output),
{
}

/// A decoder that falls a quarter of a second behind, or whose output does not
/// move on, is reported, unless it was within the last second; the report tells
/// how far it is behind and what came since the last one.
pub proof fn stuck_decoder_is_reported(state: Timeline, input: u64, output: u64, now: u64)
    requires
        state.input_pts_ms == Some(input),
        state.outputs < u64::MAX,
        state.stalled < u64::MAX,
        input >= output + 250 || (state.output_pts_ms is Some && output
            <= state.output_pts_ms->Some_0),
        state.reported_at matches Some(at) ==> at + 1_000_000_000 <= now,
    ensures
        timeline::observed(state, Some(output), now).1 matches Some(report) && {
            &&& report.outputs == state.outputs + 1
            &&& input >= output ==> report.lag_ms == Some((input - output) as u64)
            &&& state.output_pts_ms is Some && output <= state.output_pts_ms->Some_0
                ==> report.stalled_outputs == state.stalled + 1
            &&& state.output_pts_ms is None || output > state.output_pts_ms->Some_0
                ==> report.stalled_outputs == state.stalled
        },
        timeline::observed(state, Some(output), now).0.outputs == 0,
        timeline::observed(state, Some(output), now).0.stalled == 0,
        timeline::observed(state, Some(output), now).0.reported_at == Some(now),
{
}

/// The input moves on with each timestamp that goes in, and nothing else does.
pub proof fn input_moves_on(state: Timeline, pts: u64)
    ensures
        timeline::fed(state, Some(pts)).input_pts_ms == Some(pts),
        timeline::fed(state, Some(pts)) == (Timeline { input_pts_ms: Some(pts), ..state }),
        timeline::fed(state, None) == state,
{
}

/// A written report tells its numbers and what is known of the buffer.
pub proof fn written_decode_report_tells_its_numbers(
    report: Report,
    input: Option<u64>,
    buffer: DecodedBuffer,
    payload: String,
)
    requires
        call_ensures(timeline::track_decode_timeline, (&report, input, &buffer), payload),
    ensures
        ({
            let text = payload@;
            &&& text_ops::mentions(
                text,
                json::named("outputs"@, text_ops::decimal(report.outputs as nat)),
            )
            &&& text_ops::mentions(
                text,
                json::named("stalled_outputs"@, text_ops::decimal(report.stalled_outputs as nat)),
            )
            &&& report.lag_ms matches Some(ms) ==> text_ops::mentions(
                text,
                json::named("lag_ms"@, text_ops::decimal(ms as nat)),
            )
            &&& input matches Some(ms) ==> text_ops::mentions(
                text,
                json::named("input_pts_ms"@, text_ops::decimal(ms as nat)),
            )
            &&& buffer.pts_ms matches Some(ms) ==> text_ops::mentions(
                text,
                json::named("output_pts_ms"@, text_ops::decimal(ms as nat)),
            )
            &&& buffer.duration_ms matches Some(ms) ==> text_ops::mentions(
                text,
                json::named("duration_ms"@, text_ops::decimal(ms as nat)),
            )
            &&& text_ops::mentions(text, json::named("gap"@, json::json_bool(buffer.gap)))
            &&& text_ops::mentions(text, json::named("discont"@, json::json_bool(buffer.discont)))
            &&& text_ops::mentions(text, json::named("resync"@, json::json_bool(buffer.resync)))
        }),
{
    reveal_strlit("discont");
    reveal_strlit("duration_ms");
    reveal_strlit("gap");
    reveal_strlit("input_pts_ms");
    reveal_strlit("lag_ms");
    reveal_strlit("output_pts_ms");
    reveal_strlit("outputs");
    reveal_strlit("resync");
    reveal_strlit("stalled_outputs");
    let members = seq![
        ("discont"@, json::json_bool(buffer.discont)),
        ("duration_ms"@, json::json_optional_number(buffer.duration_ms)),
        ("gap"@, json::json_bool(buffer.gap)),
        ("input_pts_ms"@, json::json_optional_number(input)),
        ("lag_ms"@, json::json_optional_number(report.lag_ms)),
        ("output_pts_ms"@, json::json_optional_number(buffer.pts_ms)),
        ("outputs"@, text_ops::decimal(report.outputs as nat)),
        ("resync"@, json::json_bool(buffer.resync)),
        ("stalled_outputs"@, text_ops::decimal(report.stalled_outputs as nat)),
    ];
    json::object_tells_its_members(members, 0);
    json::object_tells_its_members(members, 1);
    json::object_tells_its_members(members, 2);
    json::object_tells_its_members(members, 3);
    json::object_tells_its_members(members, 4);
    json::object_tells_its_members(members, 5);
    json::object_tells_its_members(members, 6);
    json::object_tells_its_members(members, 7);
    json::object_tells_its_members(members, 8);
}

/// Every counter of an inbound stream goes into the sum of its own name.
pub proof fn inbound_counters_add_up(stats: InboundRtpStats, c: StreamCounters)
    requires
        monitor::sums_at_most(stats, 1_000_000),
    ensures
        ({
            let sum = monitor::inbound_with(stats, c);
            &&& sum.packets_received == stats.packets_received + c.packets_received
            &&& sum.payload_bytes_received == stats.payload_bytes_received + c.bytes_received
            &&& sum.packets_lost == stats.packets_lost + c.packets_lost
            &&& sum.packets_repaired == stats.packets_repaired + c.packets_repaired
            &&& sum.packets_discarded == stats.packets_discarded + c.packets_discarded
            &&& sum.packets_duplicated == stats.packets_duplicated + c.packets_duplicated
            &&& sum.nack_sent == stats.nack_sent + c.nack_count
            &&& sum.pli_sent == stats.pli_sent + c.pli_count
            &&& sum.fir_sent == stats.fir_sent + c.fir_count
            &&& sum.jitter_bits == c.jitter_bits
            &&& c.jitterbuffer matches Some(j) ==> {
                &&& sum.rtx_requested == stats.rtx_requested + j.rtx_count
                &&& sum.rtx_succeeded == stats.rtx_succeeded + j.rtx_success_count
                &&& sum.packets_late == stats.packets_late + j.num_late
                &&& sum.jitterbuffer_packets_pushed == stats.jitterbuffer_packets_pushed
                    + j.num_pushed
                &&& sum.jitterbuffer_packets_lost == stats.jitterbuffer_packets_lost + j.num_lost
                &&& sum.jitterbuffer_packets_duplicated == stats.jitterbuffer_packets_duplicated
                    + j.num_duplicates
                &&& sum.jitterbuffer_avg_jitter_ns == j.avg_jitter_ns
                &&& sum.jitterbuffer_rtx_per_packet_bits == j.rtx_per_packet_bits
                &&& sum.jitterbuffer_rtx_rtt_ns == j.rtx_rtt_ns
            }
            &&& c.jitterbuffer is None ==> {
                &&& sum.rtx_requested == stats.rtx_requested
                &&& sum.rtx_succeeded == stats.rtx_succeeded
                &&& sum.packets_late == stats.packets_late
                &&& sum.jitterbuffer_packets_pushed == stats.jitterbuffer_packets_pushed
                &&& sum.jitterbuffer_rtx_rtt_ns == stats.jitterbuffer_rtx_rtt_ns
            }
        }),
{
}

/// Every counter of an outbound stream goes into the sum of its own name.
pub proof fn outbound_counters_add_up(stats: OutboundRtpStats, c: StreamCounters)
    requires
        monitor::outbound_at_most(stats, 1_000_000),
    ensures
        ({
            let sum = monitor::outbound_with(stats, c);
            &&& sum.packets_sent == stats.packets_sent + c.packets_sent
            &&& sum.payload_bytes_sent == stats.payload_bytes_sent + c.bytes_sent
            &&& sum.nack_received == stats.nack_received + c.nack_count
            &&& sum.pli_received == stats.pli_received + c.pli_count
            &&& sum.fir_received == stats.fir_received + c.fir_count
        }),
{
}

/// A stream is counted under its medium and its direction, and nowhere else; a
/// first one starts from zero, and an entry that is no stream counts nowhere.
pub proof fn streams_are_counted_by_medium(
    report: WebRtcReport,
    sample: StatsSample,
    samples: Seq<StatsSample>,
    kind: String,
)
    requires
        sample.kind == Some(kind),
        report.unclassified_streams < u64::MAX,
    ensures
        ({
            let after = monitor::report_with(report, sample, samples);
            let video = kind@ == "video"@;
            let audio = kind@ == "audio"@;
            let inward = sample.stats_type is InboundRtp;
            let outward = sample.stats_type is OutboundRtp;
            &&& !(video && inward) ==> after.inbound_video == report.inbound_video
            &&& !(audio && inward) ==> after.inbound_audio == report.inbound_audio
            &&& !(video && outward) ==> after.outbound_video == report.outbound_video
            &&& !(audio && outward) ==> after.outbound_audio == report.outbound_audio
            &&& video && inward ==> after.inbound_video is Some
            &&& audio && inward ==> after.inbound_audio is Some
            &&& video && outward ==> after.outbound_video is Some
            &&& audio && outward ==> after.outbound_audio is Some
            &&& video && inward && report.inbound_video is None
                ==> after.inbound_video->0.packets_received == sample.counters.packets_received
            &&& audio && inward && report.inbound_audio is None
                ==> after.inbound_audio->0.packets_received == sample.counters.packets_received
            &&& video && outward && report.outbound_video is None
                ==> after.outbound_video->0.packets_sent == sample.counters.packets_sent
            &&& audio && outward && report.outbound_audio is None
                ==> after.outbound_audio->0.packets_sent == sample.counters.packets_sent
            &&& (inward || outward) && !video && !audio ==> after.unclassified_streams
                == report.unclassified_streams + 1
            &&& sample.stats_type is Other || video || audio ==> after.unclassified_streams
                == report.unclassified_streams
        }),
{
    reveal_strlit("video");
    reveal_strlit("audio");
    assert("video"@[0] == 'v' && "audio"@[0] == 'a');
}

/// A stream that does not state its medium has that of its codec: the part of
/// the type before the slash, in lower case.
pub proof fn medium_is_read_from_the_codec(
    sample: StatsSample,
    samples: Seq<StatsSample>,
    at: int,
    codec: String,
    mime: String,
    medium: Seq<char>,
    name: Seq<char>,
)
    requires
        sample.kind is None,
        sample.codec_id == Some(codec),
        0 <= at < samples.len(),
        samples[at].key@ == codec@,
        forall|i: int| 0 <= i < at ==> (#[trigger] samples[i]).key@ != codec@,
        samples[at].mime_type == Some(mime),
        mime@ == medium + seq!['/'] + name,
        text_ops::whole(medium, Separator::Character('/')),
        text_ops::whole(name, Separator::Character('/')),
    ensures
        monitor::medium(sample, samples) == Some(text_ops::lower(medium)),
{
    lemma_entry(samples, codec@, at);
    let parts = seq![medium, name];
    text_ops::joined_texts_come_apart(parts, '/', Separator::Character('/'));
    assert(parts.drop_last() =~= seq![medium]);
    assert(text_ops::joined(parts.drop_last(), seq!['/']) == medium);
    assert(text_ops::joined(parts, seq!['/']) == medium + seq!['/'] + name);
}

proof fn lemma_entry(samples: Seq<StatsSample>, key: Seq<char>, at: int)
    requires
        0 <= at < samples.len(),
        samples[at].key@ == key,
        forall|i: int| 0 <= i < at ==> (#[trigger] samples[i]).key@ != key,
    ensures
        monitor::entry_at(samples, key) == Some(at),
    decreases at,
{
    if at > 0 {
        assert(samples[0].key@ != key);
        let rest = samples.drop_first();
        assert forall|i: int| 0 <= i < at - 1 implies (#[trigger] rest[i]).key@ != key by {
            assert(rest[i] == samples[i + 1]);
        }
        lemma_entry(rest, key, at - 1);
    }
}

/// A written report tells both media in both directions, and streams that it
/// could not place, where there are any.
pub proof fn written_report_tells_every_medium(
    report: WebRtcReport,
    video: InboundFractions,
    audio: InboundFractions,
    text: String,
)
    requires
        call_ensures(monitor::webrtc_report_json, (&report, &video, &audio), text),
    ensures
        text_ops::mentions(
            text@,
            json::named("inbound_video"@, monitor::inbound_json(report.inbound_video, video)),
        ),
        text_ops::mentions(
            text@,
            json::named("inbound_audio"@, monitor::inbound_json(report.inbound_audio, audio)),
        ),
        text_ops::mentions(
            text@,
            json::named("outbound_video"@, monitor::outbound_json(report.outbound_video)),
        ),
        text_ops::mentions(
            text@,
            json::named("outbound_audio"@, monitor::outbound_json(report.outbound_audio)),
        ),
        report.unclassified_streams > 0 ==> text_ops::mentions(
            text@,
            json::named(
                "unclassified_streams"@,
                text_ops::decimal(report.unclassified_streams as nat),
            ),
        ),
        monitor::inbound_json(None, video) == "null"@,
        monitor::outbound_json(None) == "null"@,
{
    reveal_strlit("inbound_video");
    reveal_strlit("inbound_audio");
    reveal_strlit("outbound_video");
    reveal_strlit("outbound_audio");
    reveal_strlit("unclassified_streams");
    let members = monitor::report_members(report, video, audio);
    json::object_tells_its_members(members, 0);
    json::object_tells_its_members(members, 1);
    json::object_tells_its_members(members, 2);
    json::object_tells_its_members(members, 3);
    if report.unclassified_streams > 0 {
        json::object_tells_its_members(members, 4);
    }
}

/// The sums of an inbound medium are written under their own names.
#[verifier::rlimit(40)]
pub proof fn written_inbound_sums_keep_their_names(stats: InboundRtpStats, f: InboundFractions)
    ensures
        ({
            let text = monitor::inbound_json(Some(stats), f);
            &&& text_ops::mentions(
                text,
                json::named("packets_received"@, text_ops::decimal(stats.packets_received as nat)),
            )
            &&& text_ops::mentions(
                text,
                json::named(
                    "payload_bytes_received"@,
                    text_ops::decimal(stats.payload_bytes_received as nat),
                ),
            )
            &&& text_ops::mentions(
                text,
                json::named("packets_lost"@, text_ops::signed_decimal(stats.packets_lost as int)),
            )
            &&& text_ops::mentions(
                text,
                json::named("nack_sent"@, text_ops::decimal(stats.nack_sent as nat)),
            )
            &&& text_ops::mentions(
                text,
                json::named("pli_sent"@, text_ops::decimal(stats.pli_sent as nat)),
            )
            &&& text_ops::mentions(
                text,
                json::named("rtx_requested"@, text_ops::decimal(stats.rtx_requested as nat)),
            )
            &&& text_ops::mentions(
                text,
                json::named("rtx_succeeded"@, text_ops::decimal(stats.rtx_succeeded as nat)),
            )
            &&& text_ops::mentions(
                text,
                json::named("packets_late"@, text_ops::decimal(stats.packets_late as nat)),
            )
            &&& text_ops::mentions(text, json::named("jitter_ms"@, f.jitter_ms@))
        }),
{
    reveal_strlit("packets_received");
    reveal_strlit("payload_bytes_received");
    reveal_strlit("packets_lost");
    reveal_strlit("jitter_ms");
    reveal_strlit("nack_sent");
    reveal_strlit("pli_sent");
    reveal_strlit("rtx_requested");
    reveal_strlit("rtx_succeeded");
    reveal_strlit("packets_late");
    let members = monitor::inbound_members(stats, f);
    json::object_tells_its_members(members, 0);
    json::object_tells_its_members(members, 1);
    json::object_tells_its_members(members, 2);
    json::object_tells_its_members(members, 6);
    json::object_tells_its_members(members, 7);
    json::object_tells_its_members(members, 8);
    json::object_tells_its_members(members, 10);
    json::object_tells_its_members(members, 11);
    json::object_tells_its_members(members, 12);
}

/// The sums of an outbound medium are written under their own names.
pub proof fn written_outbound_sums_keep_their_names(stats: OutboundRtpStats)
    ensures
        ({
            let text = monitor::outbound_json(Some(stats));
            &&& text_ops::mentions(
                text,
                json::named("packets_sent"@, text_ops::decimal(stats.packets_sent as nat)),
            )
            &&& text_ops::mentions(
                text,
                json::named(
                    "payload_bytes_sent"@,
                    text_ops::decimal(stats.payload_bytes_sent as nat),
                ),
            )
            &&& text_ops::mentions(
                text,
                json::named("nack_received"@, text_ops::decimal(stats.nack_received as nat)),
            )
            &&& text_ops::mentions(
                text,
                json::named("pli_received"@, text_ops::decimal(stats.pli_received as nat)),
            )
            &&& text_ops::mentions(
                text,
                json::named("fir_received"@, text_ops::decimal(stats.fir_received as nat)),
            )
        }),
{
    reveal_strlit("packets_sent");
    reveal_strlit("payload_bytes_sent");
    reveal_strlit("nack_received");
    reveal_strlit("pli_received");
    reveal_strlit("fir_received");
    let members = monitor::outbound_members(stats);
    json::object_tells_its_members(members, 0);
    json::object_tells_its_members(members, 1);
    json::object_tells_its_members(members, 2);
    json::object_tells_its_members(members, 3);
    json::object_tells_its_members(members, 4);
}

/// A field in its full width goes before one in half of it, and a field that
/// is not there is zero.
pub proof fn wide_fields_go_first(
    wide: u64,
    narrow: Option<u32>,
    half: u32,
    full: u64,
    small: u64,
    none: u64,
    signed: i64,
    short: Option<i32>,
    kept: i64,
)
    requires
        call_ensures(monitor::get_u64, (Some(wide), narrow), full),
        call_ensures(monitor::get_u64, (None::<u64>, Some(half)), small),
        call_ensures(monitor::get_u64, (None::<u64>, None::<u32>), none),
        call_ensures(monitor::get_i64, (Some(signed), short), kept),
    ensures
        full == wide,
        small == half,
        none == 0,
        kept == signed,
{
}

/// While its owner wants it and the connection is there, a monitor reports
/// progress at each tick where there is any, and asks for statistics whenever
/// no question is open.
pub proof fn monitor_asks_at_every_tick(state: Monitor, has_progress: bool)
    requires
        state.running,
    ensures
        ({
            let tick = MonitorEvent::Tick {
                active: true,
                connection_alive: true,
                has_progress,
            };
            let (next, done) = monitor::monitor_after(state, tick);
            let (freed, nothing) = monitor::monitor_after(next, MonitorEvent::Reply);
            &&& next.running && next.in_flight
            &&& done.report_progress == has_progress
            &&& done.request_stats == !state.in_flight
            &&& freed.running && !freed.in_flight
            &&& !nothing.request_stats && !nothing.report_progress
            &&& monitor::monitor_after(freed, tick).1.request_stats
            &&& !monitor::monitor_after(state, MonitorEvent::Stop).0.running
        }),
{
}

/// A monitor whose owner or connection is gone ends, without another word.
pub proof fn monitor_ends_with_its_owner(
    state: Monitor,
    active: bool,
    connection_alive: bool,
    has_progress: bool,
)
    requires
        !active || !connection_alive,
    ensures
        ({
            let tick = MonitorEvent::Tick { active, connection_alive, has_progress };
            let (next, done) = monitor::monitor_after(state, tick);
            !next.running && !done.report_progress && !done.request_stats
        }),
{
}

/// An operation is told by its name and, where it has them, its element and
/// factory; once finished, also by its time and its success.
pub proof fn operation_is_told(work: Operation, time: u64, success: bool)
    ensures
        ({
            let begun = json::json_object(operation::operation_members(work, None));
            let done = json::json_object(
                operation::operation_members(work, Some((time, success))),
            );
            let name = json::named("operation"@, json::json_string(work.operation@));
            &&& text_ops::mentions(begun, name)
            &&& text_ops::mentions(done, name)
            &&& work.element matches Some(element) ==> text_ops::mentions(
                begun,
                json::named("element"@, json::json_string(element@)),
            ) && text_ops::mentions(done, json::named("element"@, json::json_string(element@)))
            &&& work.factory matches Some(factory) ==> text_ops::mentions(
                begun,
                json::named("factory"@, json::json_string(factory@)),
            ) && text_ops::mentions(done, json::named("factory"@, json::json_string(factory@)))
            &&& text_ops::mentions(
                done,
                json::named("duration_ms"@, text_ops::decimal(time as nat)),
            )
            &&& text_ops::mentions(done, json::named("success"@, json::json_bool(success)))
        }),
{
    reveal_strlit("operation");
    reveal_strlit("element");
    reveal_strlit("factory");
    reveal_strlit("duration_ms");
    reveal_strlit("success");
    let begun = operation::operation_members(work, None);
    let done = operation::operation_members(work, Some((time, success)));
    json::object_tells_its_members(begun, 0);
    json::object_tells_its_members(done, 0);
    if work.element is Some {
        json::object_tells_its_members(begun, 1);
        json::object_tells_its_members(done, 1);
    }
    if work.factory is Some {
        json::object_tells_its_members(begun, begun.len() - 1);
        json::object_tells_its_members(done, begun.len() - 1);
    }
    json::object_tells_its_members(done, done.len() - 2);
    json::object_tells_its_members(done, done.len() - 1);
}

/// A start and an end are told as such; a time that can be held is kept.
pub proof fn start_and_end_are_told_apart(
    work: Operation,
    time: u128,
    success: bool,
    begun: OperationEvent,
    done: OperationEvent,
    kept: u64,
)
    requires
        call_ensures(operation::operation_started, (&work,), begun),
        call_ensures(operation::operation_finished, (&work, time, success), done),
        call_ensures(operation::clamp_ms, (time,), kept),
    ensures
        begun.event@ == "operation-started"@,
        done.event@ == "operation-finished"@,
        time <= u64::MAX ==> kept == time,
        time > u64::MAX ==> kept == u64::MAX,
{
}

/// A line of the file tells when, what and by whom, what is known of the run,
/// and the payload as it was given.
pub proof fn line_tells_its_record(
    data: DiagnosticMetadata,
    elapsed: u64,
    at: u128,
    event: Seq<char>,
    role: Seq<char>,
    payload: Seq<char>,
)
    ensures
        ({
            let line = json::json_object(
                writer::record_members(data, elapsed, at, event, role, payload),
            );
            &&& text_ops::mentions(line, json::named("at_unix_ms"@, text_ops::decimal(at as nat)))
            &&& text_ops::mentions(
                line,
                json::named("elapsed_ms"@, text_ops::decimal(elapsed as nat)),
            )
            &&& text_ops::mentions(line, json::named("event"@, json::json_string(event)))
            &&& text_ops::mentions(line, json::named("role"@, json::json_string(role)))
            &&& text_ops::mentions(line, json::named("payload"@, payload))
            &&& data.build matches Some(text) ==> text_ops::mentions(
                line,
                json::named("build"@, json::json_string(text@)),
            )
            &&& data.run matches Some(text) ==> text_ops::mentions(
                line,
                json::named("run"@, json::json_string(text@)),
            )
            &&& data.device matches Some(text) ==> text_ops::mentions(
                line,
                json::named("device"@, json::json_string(text@)),
            )
            &&& data.profile matches Some(text) ==> text_ops::mentions(
                line,
                json::named("profile"@, json::json_string(text@)),
            )
        }),
{
    reveal_strlit("at_unix_ms");
    reveal_strlit("elapsed_ms");
    reveal_strlit("event");
    reveal_strlit("role");
    reveal_strlit("payload");
    reveal_strlit("build");
    reveal_strlit("run");
    reveal_strlit("device");
    reveal_strlit("profile");
    let members = writer::record_members(data, elapsed, at, event, role, payload);
    json::object_tells_its_members(members, 0);
    json::object_tells_its_members(members, 1);
    json::object_tells_its_members(members, 2);
    json::object_tells_its_members(members, 3);
    json::object_tells_its_members(members, members.len() - 1);
    let b: int = if data.build is Some {
        1
    } else {
        0
    };
    let r: int = if data.run is Some {
        1
    } else {
        0
    };
    let d: int = if data.device is Some {
        1
    } else {
        0
    };
    if data.build is Some {
        json::object_tells_its_members(members, 4);
    }
    if data.run is Some {
        json::object_tells_its_members(members, 4 + b);
    }
    if data.device is Some {
        json::object_tells_its_members(members, 4 + b + r);
    }
    if data.profile is Some {
        json::object_tells_its_members(members, 4 + b + r + d);
    }
}

/// What is known of a run comes from the four names of its surroundings, each
/// field from its own.
pub proof fn metadata_comes_from_four_names<F: Fn(&str) -> Option<String>>(
    lookup: F,
    build: Option<String>,
    run: Option<String>,
    device: Option<String>,
    profile: Option<String>,
    data: DiagnosticMetadata,
)
    requires
        forall|found: Option<String>| #[trigger]
            call_ensures(lookup, ("ORANGE_BUILD_ID",), found) ==> found == build,
        forall|found: Option<String>| #[trigger]
            call_ensures(lookup, ("ORANGE_RUN_ID",), found) ==> found == run,
        forall|found: Option<String>| #[trigger]
            call_ensures(lookup, ("ORANGE_DEVICE_ID",), found) ==> found == device,
        forall|found: Option<String>| #[trigger]
            call_ensures(lookup, ("ORANGE_TEST_PROFILE",), found) ==> found == profile,
        call_ensures(DiagnosticMetadata::from_lookup::<F>, (lookup,), data),
    ensures
        data.build == build,
        data.run == run,
        data.device == device,
        data.profile == profile,
{
}

/// The file of a process lies in the directory, under a name with the process
/// in it.
pub proof fn file_lies_in_its_directory(directory: Seq<char>, pid: u32)
    requires
        directory.len() > 2,
        directory[0] != '\\',
        directory.last() != '\\',
        directory.last() != '/',
    ensures
        ({
            let name = "orange-media-"@ + text_ops::decimal(pid as nat) + ".jsonl"@;
            &&& writer::file_path(directory, pid) == directory + "\\"@ + name
            &&& writer::file_path(directory.push('\\'), pid) == directory + "\\"@ + name
            &&& writer::file_path(Seq::empty(), pid) == name
        }),
{
    reveal_strlit("\\");
    let name = "orange-media-"@ + text_ops::decimal(pid as nat) + ".jsonl"@;
    let open = directory.push('\\');
    assert(open[0] == directory[0]);
    assert(open + name =~= directory + "\\"@ + name);
    assert(Seq::<char>::empty() + name =~= name);
}

/// A file may grow to 64 mebibytes: what it holds and what is left are that
/// much together, until nothing is left.
pub proof fn file_may_grow_to_its_cap(size: u64, left: u64, whole: u64)
    requires
        call_ensures(writer::remaining_bytes, (Some(size),), left),
        call_ensures(writer::remaining_bytes, (None::<u64>,), whole),
    ensures
        whole == 64 * 1024 * 1024,
        size <= whole ==> size + left == whole,
        size > whole ==> left == 0,
{
}

/// A line is written where it fits with its end, and the file then holds as
/// much more; the first that does not fit is the last that is tried.
pub proof fn lines_are_written_while_they_fit(state: DrainState, bytes: int, max: u64)
    requires
        0 <= bytes,
        state.written <= max,
    ensures
        ({
            let next = writer::drained(state, bytes, max);
            &&& !state.capped && state.written + bytes < max ==> writer::line_fits(
                state,
                bytes,
                max,
            ) && next.written == state.written + bytes + 1 && !next.capped
            &&& state.capped || state.written + bytes >= max ==> !writer::line_fits(
                state,
                bytes,
                max,
            ) && next.written == state.written && next.capped
        }),
{
}

/// Diagnostics start with the first event and go on; one that fails to start,
/// or was shut down, never starts again. Only a running worker is joined.
pub proof fn diagnostics_start_with_the_first_event(started: bool)
    ensures
        ({
            let access = RuntimeEvent::Access { started };
            let first = writer::runtime_after(DiagnosticRuntime::Pending, access);
            let again = writer::runtime_after(DiagnosticRuntime::Running, access);
            let late = writer::runtime_after(DiagnosticRuntime::Stopped, access);
            let ended = writer::runtime_after(
                DiagnosticRuntime::Running,
                RuntimeEvent::Shutdown,
            );
            let unused = writer::runtime_after(
                DiagnosticRuntime::Pending,
                RuntimeEvent::Shutdown,
            );
            &&& first.1.start && first.1.usable == started
            &&& started <==> first.0 is Running
            &&& !started <==> first.0 is Stopped
            &&& again.0 is Running && again.1.usable && !again.1.start
            &&& late.0 is Stopped && !late.1.usable && !late.1.start
            &&& ended.0 is Stopped && ended.1.join
            &&& unused.0 is Stopped && !unused.1.join
            &&& !first.1.join && !again.1.join && !late.1.join
            &&& !ended.1.start && !ended.1.usable
            &&& !unused.1.start && !unused.1.usable
        }),
{
}

/// An event is recorded exactly where there is an open queue, a line and a
/// place for it; diagnostics are on exactly where there is a destination and
/// no other writer.
pub proof fn events_are_recorded_where_there_is_room(
    open: bool,
    made: bool,
    reply: QueueReply,
    recorded: bool,
    known: bool,
    free: bool,
    enabled: bool,
    shown: bool,
    active: bool,
    has_stats: bool,
)
    requires
        call_ensures(writer::emit, (open, made, reply), recorded),
        call_ensures(writer::new_with_destination, (known, free), enabled),
        call_ensures(monitor::reply_is_reported, (active, has_stats), shown),
    ensures
        recorded ==> open && made && reply is Accepted,
        open && made && reply is Accepted ==> recorded,
        enabled <==> known && free,
        shown <==> active && has_stats,
{
}

/// An operation hands on its own result, and what is reported at its end is
/// whether that result is a success.
pub proof fn measured_operation_is_reported<
    R: OperationOutcome,
    S,
    B: FnOnce(OperationEvent) -> S,
    A: FnOnce() -> R,
    T: FnOnce(S, &R) -> u128,
    F: FnOnce(OperationEvent),
>(subject: Operation, begin: B, action: A, elapsed_ms: T, finish: F, result: R)
    requires
        call_ensures(
            operation::measure_operation_with::<R, S, B, A, T, F>,
            (subject, begin, action, elapsed_ms, finish),
            result,
        ),
    ensures
        call_ensures(action, (), result),
        exists|event: OperationEvent| #[trigger]
            call_ensures(finish, (event,), ()) && event.event@ == "operation-finished"@
                && text_ops::mentions(
                event.payload@,
                json::named("success"@, json::json_bool(result.success())),
            ),
{
    let (event, time) = choose|event: OperationEvent, time: u128|
        #![trigger call_ensures(finish, (event,), ()),
            operation::took(begin, action, elapsed_ms, subject, result, time)]
        operation::took(begin, action, elapsed_ms, subject, result, time)
            && operation::tells_finish(event, subject, time, result.success()) && call_ensures(
            finish,
            (event,),
            (),
        );
    assert(call_ensures(finish, (event,), ()));
    operation_is_told(subject, operation::recorded_ms(time), result.success());
}

/// Keyframes are the buffers that build on no other, counted where the stream
/// has been parsed.
pub proof fn keyframes_build_on_nothing(
    stage: MediaStage,
    flags: BufferFlags,
    yes: bool,
    counted: bool,
)
    requires
        call_ensures(progress::is_keyframe, (flags,), yes),
        call_ensures(progress::track_pad, (stage, flags), counted),
    ensures
        yes <==> !flags.delta_unit,
        counted ==> yes,
        stage is Parsed ==> counted == yes,
        !(stage is Parsed) ==> !counted,
{
}

/// An overrun is counted, and nothing else.
pub proof fn overruns_are_counted(before: MediaProgress)
    requires
        before.queue_overruns < u64::MAX,
    ensures
        progress::overrun(before).queue_overruns == before.queue_overruns + 1,
        (MediaProgress {
            queue_overruns: before.queue_overruns,
            ..progress::overrun(before)
        }) == before,
{
}

/// A progress event tells whether the window answers, where that is known, and
/// the whole snapshot.
pub proof fn progress_tells_the_snapshot(
    responsive: Option<bool>,
    snapshot: MediaSnapshot,
    payload: String,
)
    requires
        call_ensures(monitor::progress_payload, (responsive, &snapshot), payload),
    ensures
        text_ops::mentions(
            payload@,
            json::named("progress"@, progress::snapshot_json(snapshot)),
        ),
        responsive is None ==> text_ops::mentions(
            payload@,
            json::named("ui_responsive"@, "null"@),
        ),
        responsive == Some(true) ==> text_ops::mentions(
            payload@,
            json::named("ui_responsive"@, "true"@),
        ),
        responsive == Some(false) ==> text_ops::mentions(
            payload@,
            json::named("ui_responsive"@, "false"@),
        ),
{
    let members = seq![
        ("progress"@, progress::snapshot_json(snapshot)),
        ("ui_responsive"@, monitor::responsive_json(responsive)),
    ];
    reveal_strlit("progress");
    reveal_strlit("ui_responsive");
    assert(payload@ == json::json_object(members));
    assert(members[0].0 == "progress"@ && members[1].0 == "ui_responsive"@);
    json::object_tells_its_members(members, 0);
    json::object_tells_its_members(members, 1);
}

/// Counting starts at zero: of a stage, of a stream in either direction, and of
/// a whole report.
pub proof fn counting_starts_at_zero()
    ensures
        ({
            let stage = progress::untouched();
            &&& stage.buffers == 0 && stage.bytes == 0
            &&& stage.last_ms == 0 && stage.last_pts_ms == 0
        }),
        ({
            let inbound = monitor::no_inbound();
            &&& inbound.packets_received == 0 && inbound.payload_bytes_received == 0
            &&& inbound.packets_lost == 0 && inbound.packets_repaired == 0
            &&& inbound.packets_discarded == 0 && inbound.packets_duplicated == 0
            &&& inbound.jitter_bits == 0
            &&& inbound.nack_sent == 0 && inbound.pli_sent == 0 && inbound.fir_sent == 0
            &&& inbound.rtx_requested == 0 && inbound.rtx_succeeded == 0
            &&& inbound.packets_late == 0
            &&& inbound.jitterbuffer_packets_pushed == 0
            &&& inbound.jitterbuffer_packets_lost == 0
            &&& inbound.jitterbuffer_packets_duplicated == 0
            &&& inbound.jitterbuffer_avg_jitter_ns == 0
            &&& inbound.jitterbuffer_rtx_per_packet_bits == 0
            &&& inbound.jitterbuffer_rtx_rtt_ns == 0
        }),
        ({
            let outbound = monitor::no_outbound();
            &&& outbound.packets_sent == 0 && outbound.payload_bytes_sent == 0
            &&& outbound.nack_received == 0 && outbound.pli_received == 0
            &&& outbound.fir_received == 0
        }),
        ({
            let report = monitor::empty_report();
            &&& report.inbound_video is None && report.inbound_audio is None
            &&& report.outbound_video is None && report.outbound_audio is None
            &&& report.unclassified_streams == 0
        }),
{
}

/// Every entry counts, from the first: a report on one more entry is the report
/// so far with that entry.
pub proof fn every_entry_counts(samples: Seq<StatsSample>, n: int)
    requires
        0 <= n < samples.len(),
    ensures
        monitor::report_on(samples, 0).unclassified_streams == 0,
        monitor::report_on(samples, 0).inbound_video is None,
        monitor::report_on(samples, n + 1) == monitor::report_with(
            monitor::report_on(samples, n),
            samples[n],
            samples,
        ),
{
}

/// The picture is ahead of the sound by the difference of their last
/// timestamps; without one of them nothing is said.
pub proof fn offset_is_the_difference(video: StageSnapshot, audio: StageSnapshot)
    ensures
        video.pts_ms is None || audio.pts_ms is None ==> progress::offset_of(video, audio) is None,
        video.pts_ms is Some && audio.pts_ms is Some && video.pts_ms->0 <= i64::MAX
            && audio.pts_ms->0 <= i64::MAX ==> (progress::offset_of(video, audio) matches Some(
            offset,
        ) && offset == video.pts_ms->0 - audio.pts_ms->0),
        video.pts_ms is Some && audio.pts_ms is Some && (video.pts_ms->0 > i64::MAX
            || audio.pts_ms->0 > i64::MAX) ==> progress::offset_of(video, audio) is None,
{
}

/// A new timeline and a new count know of nothing.
pub proof fn watching_starts_with_nothing(fresh: MediaProgress, stage: MediaStage)
    requires
        call_ensures(MediaProgress::new, (), fresh),
    ensures
        timeline::new_timeline().outputs == 0 && timeline::new_timeline().stalled == 0,
        timeline::new_timeline().input_pts_ms is None,
        timeline::new_timeline().output_pts_ms is None,
        timeline::new_timeline().reported_at is None,
        fresh.keyframes == 0 && fresh.queue_overruns == 0,
        progress::stage_counter(fresh, stage).buffers == 0,
        progress::stage_counter(fresh, stage).bytes == 0,
{
}

/// Streams of no known medium are told of exactly where there are any.
pub proof fn unclassified_streams_are_told(count: u64, told: Option<json::Member>)
    requires
        call_ensures(monitor::unclassified_member, (count,), told),
    ensures
        told is Some <==> count > 0,
        told matches Some(member) ==> (member.name@ == "unclassified_streams"@ && member.value@
            == text_ops::decimal(count as nat)),
{
    if let Some(member) = told {
        assert(seq![(member.name@, member.value@)][0] == monitor::unclassified_members(count)[0]);
    }
}

/// A path that goes word for word begins with two backslashes, a question mark
/// and a backslash; no other path does.
pub proof fn verbatim_paths_are_known_by_their_prefix(path: Seq<char>)
    ensures
        writer::word_for_word(path) <==> text_ops::begins_with(path, seq!['\\', '\\', '?', '\\']),
{
    let prefix = seq!['\\', '\\', '?', '\\'];
    if writer::word_for_word(path) {
        assert(path.take(4) =~= prefix);
    }
    if text_ops::begins_with(path, prefix) {
        assert(path.take(4)[0] == path[0] && path.take(4)[1] == path[1]);
        assert(path.take(4)[2] == path[2] && path.take(4)[3] == path[3]);
    }
}

/// A part of a path goes up to the next backslash, or to the end.
pub proof fn parts_end_at_backslashes(path: Seq<char>, from: int)
    requires
        0 <= from <= path.len(),
    ensures
        from <= writer::part_end(path, from) <= path.len(),
        forall|i: int|
            from <= i < writer::part_end(path, from) ==> #[trigger] path[i] != '\\',
        writer::part_end(path, from) < path.len() ==> path[writer::part_end(path, from)] == '\\',
    decreases path.len() - from,
{
    if from < path.len() && path[from] != '\\' {
        parts_end_at_backslashes(path, from + 1);
    }
}

} // verus!
