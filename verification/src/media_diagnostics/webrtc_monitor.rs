//! What is taken from a connection's statistics.

use vstd::prelude::*;
use vstd::string::*;

use super::progress::{self, media_snapshot_json, MediaSnapshot};
use crate::json::{self, number_member, object, raw_member, signed_member, Member};
use crate::text_ops::{self, chars_of, lower_string, same_text, split, string_of, Separator};

verus! {

#[derive(Debug, Clone, Copy, PartialEq, Eq, Structural)]
pub enum StatsType {
    InboundRtp,
    OutboundRtp,
    Other,
}

/// The counters of a jitter buffer. The ratio is kept as the bits of the
/// number that was reported; times are in nanoseconds.
#[derive(Debug, Clone, Copy, PartialEq, Eq, Structural)]
pub struct JitterSample {
    pub num_pushed: u64,
    pub num_lost: u64,
    pub num_duplicates: u64,
    pub avg_jitter_ns: u64,
    pub rtx_count: u64,
    pub rtx_success_count: u64,
    pub rtx_per_packet_bits: u64,
    pub rtx_rtt_ns: u64,
    pub num_late: u64,
}

/// The counters of a stream; one that was not reported is zero.
#[derive(Debug, Clone, Copy, PartialEq, Eq, Structural)]
pub struct StreamCounters {
    pub packets_received: u64,
    pub bytes_received: u64,
    pub packets_lost: i64,
    pub packets_repaired: u64,
    pub packets_discarded: u64,
    pub packets_duplicated: u64,
    pub jitter_bits: u64,
    pub packets_sent: u64,
    pub bytes_sent: u64,
    pub nack_count: u64,
    pub pli_count: u64,
    pub fir_count: u64,
    pub jitterbuffer: Option<JitterSample>,
}

/// One entry of the statistics, under its name.
#[derive(Debug)]
pub struct StatsSample {
    pub key: String,
    pub stats_type: StatsType,
    pub kind: Option<String>,
    pub codec_id: Option<String>,
    pub mime_type: Option<String>,
    pub counters: StreamCounters,
}

/// Sums over the inbound streams of one medium; the bits and times are those
/// of the last stream.
#[derive(Debug, Clone, Copy, PartialEq, Eq, Structural)]
pub struct InboundRtpStats {
    pub packets_received: u128,
    pub payload_bytes_received: u128,
    pub packets_lost: i128,
    pub packets_repaired: u128,
    pub packets_discarded: u128,
    pub packets_duplicated: u128,
    pub jitter_bits: u64,
    pub nack_sent: u128,
    pub pli_sent: u128,
    pub fir_sent: u128,
    pub rtx_requested: u128,
    pub rtx_succeeded: u128,
    pub packets_late: u128,
    pub jitterbuffer_packets_pushed: u128,
    pub jitterbuffer_packets_lost: u128,
    pub jitterbuffer_packets_duplicated: u128,
    pub jitterbuffer_avg_jitter_ns: u64,
    pub jitterbuffer_rtx_per_packet_bits: u64,
    pub jitterbuffer_rtx_rtt_ns: u64,
}

/// Sums over the outbound streams of one medium.
#[derive(Debug, Clone, Copy, PartialEq, Eq, Structural)]
pub struct OutboundRtpStats {
    pub packets_sent: u128,
    pub payload_bytes_sent: u128,
    pub nack_received: u128,
    pub pli_received: u128,
    pub fir_received: u128,
}

/// What is reported of the statistics: numbers only.
#[derive(Debug, Clone, Copy, PartialEq, Eq, Structural)]
pub struct WebRtcReport {
    pub inbound_video: Option<InboundRtpStats>,
    pub outbound_video: Option<OutboundRtpStats>,
    pub inbound_audio: Option<InboundRtpStats>,
    pub outbound_audio: Option<OutboundRtpStats>,
    /// Streams whose medium could not be established.
    pub unclassified_streams: u64,
}

/// The entry with this name.
pub open spec fn entry_at(samples: Seq<StatsSample>, key: Seq<char>) -> Option<int>
    decreases samples.len(),
{
    if samples.len() == 0 {
        None
    } else if samples[0].key@ == key {
        Some(0)
    } else {
        match entry_at(samples.drop_first(), key) {
            Some(i) => Some(i + 1),
            None => None,
        }
    }
}

/// The medium of a stream: the one it states, or else the first part of the
/// type of the codec it refers to.
pub open spec fn medium(sample: StatsSample, samples: Seq<StatsSample>) -> Option<Seq<char>> {
    match sample.kind {
        Some(kind) => Some(kind@),
        None => match sample.codec_id {
            Some(codec_id) => match entry_at(samples, codec_id@) {
                Some(i) => match samples[i].mime_type {
                    Some(mime) => Some(
                        text_ops::lower(text_ops::pieces(mime@, Separator::Character('/'))[0]),
                    ),
                    None => None,
                },
                None => None,
            },
            None => None,
        },
    }
}

fn find_entry(samples: &Vec<StatsSample>, key: &str) -> (at: Option<usize>)
    ensures
        match entry_at(samples@, key@) {
            Some(i) => 0 <= i < samples@.len() && (at matches Some(k) && k == i),
            None => at is None,
        },
{
    let mut i: usize = 0;
    proof {
        assert(samples@.skip(0) =~= samples@);
    }
    while i < samples.len()
        invariant
            i <= samples@.len(),
            match entry_at(samples@.skip(i as int), key@) {
                Some(rest) => entry_at(samples@, key@) == Some(rest + i),
                None => entry_at(samples@, key@) is None,
            },
        decreases samples@.len() - i,
    {
        if same_text(samples[i].key.as_str(), key) {
            return Some(i);
        }
        proof {
            assert(samples@.skip(i as int).drop_first() =~= samples@.skip(i + 1));
        }
        i += 1;
    }
    None
}

/// Establishes whether a stream is sound or picture.
pub fn media_kind(sample: &StatsSample, samples: &Vec<StatsSample>) -> (kind: Option<String>)
    ensures
        json::optional_text(kind) == medium(*sample, samples@),
{
    if let Some(kind) = &sample.kind {
        return Some(kind.as_str().to_owned());
    }
    if let Some(codec_id) = &sample.codec_id {
        if let Some(i) = find_entry(samples, codec_id.as_str()) {
            if let Some(mime) = &samples[i].mime_type {
                let chars = chars_of(mime.as_str());
                let parts = split(&chars, 0, chars.len(), Separator::Character('/'));
                proof {
                    assert(chars@.subrange(0, chars@.len() as int) =~= mime@);
                    assert(text_ops::vectors(parts@)[0] == parts@[0]@);
                    assert(parts@[0]@.subrange(0, parts@[0]@.len() as int) =~= parts@[0]@);
                }
                let first = string_of(&parts[0], 0, parts[0].len());
                return Some(lower_string(first.as_str()));
            }
        }
    }
    None
}

pub open spec fn no_inbound() -> InboundRtpStats {
    InboundRtpStats {
        packets_received: 0,
        payload_bytes_received: 0,
        packets_lost: 0,
        packets_repaired: 0,
        packets_discarded: 0,
        packets_duplicated: 0,
        jitter_bits: 0,
        nack_sent: 0,
        pli_sent: 0,
        fir_sent: 0,
        rtx_requested: 0,
        rtx_succeeded: 0,
        packets_late: 0,
        jitterbuffer_packets_pushed: 0,
        jitterbuffer_packets_lost: 0,
        jitterbuffer_packets_duplicated: 0,
        jitterbuffer_avg_jitter_ns: 0,
        jitterbuffer_rtx_per_packet_bits: 0,
        jitterbuffer_rtx_rtt_ns: 0,
    }
}

pub open spec fn no_outbound() -> OutboundRtpStats {
    OutboundRtpStats {
        packets_sent: 0,
        payload_bytes_sent: 0,
        nack_received: 0,
        pli_received: 0,
        fir_received: 0,
    }
}

/// A sum.
pub open spec fn plus(sum: u128, more: u64) -> u128 {
    (sum + more) as u128
}

/// The sums with one more inbound stream.
pub open spec fn inbound_with(stats: InboundRtpStats, counters: StreamCounters) -> InboundRtpStats {
    let base = InboundRtpStats {
        packets_received: plus(stats.packets_received, counters.packets_received),
        payload_bytes_received: plus(stats.payload_bytes_received, counters.bytes_received),
        packets_lost: (stats.packets_lost + counters.packets_lost) as i128,
        packets_repaired: plus(stats.packets_repaired, counters.packets_repaired),
        packets_discarded: plus(stats.packets_discarded, counters.packets_discarded),
        packets_duplicated: plus(stats.packets_duplicated, counters.packets_duplicated),
        jitter_bits: counters.jitter_bits,
        nack_sent: plus(stats.nack_sent, counters.nack_count),
        pli_sent: plus(stats.pli_sent, counters.pli_count),
        fir_sent: plus(stats.fir_sent, counters.fir_count),
        ..stats
    };
    match counters.jitterbuffer {
        Some(jitter) => InboundRtpStats {
            jitterbuffer_packets_pushed: plus(stats.jitterbuffer_packets_pushed, jitter.num_pushed),
            jitterbuffer_packets_lost: plus(stats.jitterbuffer_packets_lost, jitter.num_lost),
            jitterbuffer_packets_duplicated: plus(
                stats.jitterbuffer_packets_duplicated,
                jitter.num_duplicates,
            ),
            jitterbuffer_avg_jitter_ns: jitter.avg_jitter_ns,
            rtx_requested: plus(stats.rtx_requested, jitter.rtx_count),
            rtx_succeeded: plus(stats.rtx_succeeded, jitter.rtx_success_count),
            jitterbuffer_rtx_per_packet_bits: jitter.rtx_per_packet_bits,
            jitterbuffer_rtx_rtt_ns: jitter.rtx_rtt_ns,
            packets_late: plus(stats.packets_late, jitter.num_late),
            ..base
        },
        None => base,
    }
}

/// The sums with one more outbound stream.
pub open spec fn outbound_with(stats: OutboundRtpStats, counters: StreamCounters) ->
    OutboundRtpStats {
    OutboundRtpStats {
        packets_sent: plus(stats.packets_sent, counters.packets_sent),
        payload_bytes_sent: plus(stats.payload_bytes_sent, counters.bytes_sent),
        nack_received: plus(stats.nack_received, counters.nack_count),
        pli_received: plus(stats.pli_received, counters.pli_count),
        fir_received: plus(stats.fir_received, counters.fir_count),
    }
}

/// A sum over at most `n` streams.
pub open spec fn sums_at_most(stats: InboundRtpStats, n: int) -> bool {
    let most = n * 0xffff_ffff_ffff_ffff;
    &&& stats.packets_received <= most
    &&& stats.payload_bytes_received <= most
    &&& -n * 0x8000_0000_0000_0000 <= stats.packets_lost <= n * 0x8000_0000_0000_0000
    &&& stats.packets_repaired <= most
    &&& stats.packets_discarded <= most
    &&& stats.packets_duplicated <= most
    &&& stats.nack_sent <= most
    &&& stats.pli_sent <= most
    &&& stats.fir_sent <= most
    &&& stats.rtx_requested <= most
    &&& stats.rtx_succeeded <= most
    &&& stats.packets_late <= most
    &&& stats.jitterbuffer_packets_pushed <= most
    &&& stats.jitterbuffer_packets_lost <= most
    &&& stats.jitterbuffer_packets_duplicated <= most
}

pub open spec fn outbound_at_most(stats: OutboundRtpStats, n: int) -> bool {
    let most = n * 0xffff_ffff_ffff_ffff;
    &&& stats.packets_sent <= most
    &&& stats.payload_bytes_sent <= most
    &&& stats.nack_received <= most
    &&& stats.pli_received <= most
    &&& stats.fir_received <= most
}

/// The number of streams after which sums have room for one more.
pub open spec fn room() -> int {
    0xffff_ffff_ffff_fffe
}

pub fn accumulate_inbound(inbound: &mut InboundRtpStats, counters: &StreamCounters)
    requires
        sums_at_most(*old(inbound), room()),
    ensures
        *final(inbound) == inbound_with(*old(inbound), *counters),
{
    inbound.packets_received = inbound.packets_received + counters.packets_received as u128;
    inbound.payload_bytes_received = inbound.payload_bytes_received
        + counters.bytes_received as u128;
    inbound.packets_lost = inbound.packets_lost + counters.packets_lost as i128;
    inbound.packets_repaired = inbound.packets_repaired + counters.packets_repaired as u128;
    inbound.packets_discarded = inbound.packets_discarded + counters.packets_discarded as u128;
    inbound.packets_duplicated = inbound.packets_duplicated + counters.packets_duplicated as u128;
    inbound.jitter_bits = counters.jitter_bits;
    inbound.nack_sent = inbound.nack_sent + counters.nack_count as u128;
    inbound.pli_sent = inbound.pli_sent + counters.pli_count as u128;
    inbound.fir_sent = inbound.fir_sent + counters.fir_count as u128;
    if let Some(jitter) = counters.jitterbuffer {
        inbound.jitterbuffer_packets_pushed = inbound.jitterbuffer_packets_pushed
            + jitter.num_pushed as u128;
        inbound.jitterbuffer_packets_lost = inbound.jitterbuffer_packets_lost
            + jitter.num_lost as u128;
        inbound.jitterbuffer_packets_duplicated = inbound.jitterbuffer_packets_duplicated
            + jitter.num_duplicates as u128;
        inbound.jitterbuffer_avg_jitter_ns = jitter.avg_jitter_ns;
        inbound.rtx_requested = inbound.rtx_requested + jitter.rtx_count as u128;
        inbound.rtx_succeeded = inbound.rtx_succeeded + jitter.rtx_success_count as u128;
        inbound.jitterbuffer_rtx_per_packet_bits = jitter.rtx_per_packet_bits;
        inbound.jitterbuffer_rtx_rtt_ns = jitter.rtx_rtt_ns;
        inbound.packets_late = inbound.packets_late + jitter.num_late as u128;
    }
}

pub fn accumulate_outbound(outbound: &mut OutboundRtpStats, counters: &StreamCounters)
    requires
        outbound_at_most(*old(outbound), room()),
    ensures
        *final(outbound) == outbound_with(*old(outbound), *counters),
{
    outbound.packets_sent = outbound.packets_sent + counters.packets_sent as u128;
    outbound.payload_bytes_sent = outbound.payload_bytes_sent + counters.bytes_sent as u128;
    outbound.nack_received = outbound.nack_received + counters.nack_count as u128;
    outbound.pli_received = outbound.pli_received + counters.pli_count as u128;
    outbound.fir_received = outbound.fir_received + counters.fir_count as u128;
}

/// The inbound sums of a medium with one more entry.
pub open spec fn inbound_or_new(stats: Option<InboundRtpStats>, counters: StreamCounters) ->
    Option<InboundRtpStats> {
    match stats {
        Some(stats) => Some(inbound_with(stats, counters)),
        None => Some(inbound_with(no_inbound(), counters)),
    }
}

pub open spec fn outbound_or_new(stats: Option<OutboundRtpStats>, counters: StreamCounters) ->
    Option<OutboundRtpStats> {
    match stats {
        Some(stats) => Some(outbound_with(stats, counters)),
        None => Some(outbound_with(no_outbound(), counters)),
    }
}

/// A report with one more entry of the statistics taken in. Entries that are
/// not streams change nothing; a stream of another or unknown medium is
/// counted.
pub open spec fn report_with(
    report: WebRtcReport,
    sample: StatsSample,
    samples: Seq<StatsSample>,
) -> WebRtcReport {
    if sample.stats_type is Other {
        report
    } else {
        let media = medium(sample, samples);
        let inbound = sample.stats_type is InboundRtp;
        if media == Some("video"@) {
            if inbound {
                WebRtcReport {
                    inbound_video: inbound_or_new(report.inbound_video, sample.counters),
                    ..report
                }
            } else {
                WebRtcReport {
                    outbound_video: outbound_or_new(report.outbound_video, sample.counters),
                    ..report
                }
            }
        } else if media == Some("audio"@) {
            if inbound {
                WebRtcReport {
                    inbound_audio: inbound_or_new(report.inbound_audio, sample.counters),
                    ..report
                }
            } else {
                WebRtcReport {
                    outbound_audio: outbound_or_new(report.outbound_audio, sample.counters),
                    ..report
                }
            }
        } else {
            WebRtcReport {
                unclassified_streams: (report.unclassified_streams + 1) as u64,
                ..report
            }
        }
    }
}

pub open spec fn empty_report() -> WebRtcReport {
    WebRtcReport {
        inbound_video: None,
        outbound_video: None,
        inbound_audio: None,
        outbound_audio: None,
        unclassified_streams: 0,
    }
}

/// The report on the first `n` entries.
pub open spec fn report_on(samples: Seq<StatsSample>, n: int) -> WebRtcReport
    decreases n,
{
    if n <= 0 {
        empty_report()
    } else {
        report_with(report_on(samples, n - 1), samples[n - 1], samples)
    }
}

/// No sum of a report over `n` entries is too large.
pub open spec fn report_at_most(report: WebRtcReport, n: int) -> bool {
    &&& report.inbound_video matches Some(stats) ==> sums_at_most(stats, n)
    &&& report.inbound_audio matches Some(stats) ==> sums_at_most(stats, n)
    &&& report.outbound_video matches Some(stats) ==> outbound_at_most(stats, n)
    &&& report.outbound_audio matches Some(stats) ==> outbound_at_most(stats, n)
    &&& report.unclassified_streams <= n
}

fn add_inbound(stats: Option<InboundRtpStats>, counters: &StreamCounters, n: Ghost<int>) -> (out:
    Option<InboundRtpStats>)
    requires
        stats matches Some(stats) ==> sums_at_most(stats, n@),
        0 <= n@ <= room(),
    ensures
        out == inbound_or_new(stats, *counters),
        out matches Some(stats) && sums_at_most(stats, n@ + 1),
{
    let mut inbound = match stats {
        Some(stats) => stats,
        None => InboundRtpStats {
            packets_received: 0,
            payload_bytes_received: 0,
            packets_lost: 0,
            packets_repaired: 0,
            packets_discarded: 0,
            packets_duplicated: 0,
            jitter_bits: 0,
            nack_sent: 0,
            pli_sent: 0,
            fir_sent: 0,
            rtx_requested: 0,
            rtx_succeeded: 0,
            packets_late: 0,
            jitterbuffer_packets_pushed: 0,
            jitterbuffer_packets_lost: 0,
            jitterbuffer_packets_duplicated: 0,
            jitterbuffer_avg_jitter_ns: 0,
            jitterbuffer_rtx_per_packet_bits: 0,
            jitterbuffer_rtx_rtt_ns: 0,
        },
    };
    accumulate_inbound(&mut inbound, counters);
    Some(inbound)
}

fn add_outbound(stats: Option<OutboundRtpStats>, counters: &StreamCounters, n: Ghost<int>) -> (out:
    Option<OutboundRtpStats>)
    requires
        stats matches Some(stats) ==> outbound_at_most(stats, n@),
        0 <= n@ <= room(),
    ensures
        out == outbound_or_new(stats, *counters),
        out matches Some(stats) && outbound_at_most(stats, n@ + 1),
{
    let mut outbound = match stats {
        Some(stats) => stats,
        None => OutboundRtpStats {
            packets_sent: 0,
            payload_bytes_sent: 0,
            nack_received: 0,
            pli_received: 0,
            fir_received: 0,
        },
    };
    accumulate_outbound(&mut outbound, counters);
    Some(outbound)
}

/// Takes the numbers of a connection's streams out of its statistics.
pub fn parse_webrtc_stats(samples: &Vec<StatsSample>) -> (report: WebRtcReport)
    ensures
        report == report_on(samples@, samples@.len() as int),
{
    let mut report = WebRtcReport {
        inbound_video: None,
        outbound_video: None,
        inbound_audio: None,
        outbound_audio: None,
        unclassified_streams: 0,
    };
    let count: usize = samples.len();
    let mut i: usize = 0;
    while i < count
        invariant
            i <= count == samples@.len(),
            report == report_on(samples@, i as int),
            report_at_most(report, i as int),
        decreases samples@.len() - i,
    {
        let sample = &samples[i];
        let inbound = match sample.stats_type {
            StatsType::InboundRtp => Some(true),
            StatsType::OutboundRtp => Some(false),
            StatsType::Other => None,
        };
        if let Some(inbound) = inbound {
            let media = media_kind(sample, samples);
            let video = match &media {
                Some(kind) => same_text(kind.as_str(), "video"),
                None => false,
            };
            let audio = match &media {
                Some(kind) => same_text(kind.as_str(), "audio"),
                None => false,
            };
            proof {
                reveal_strlit("video");
                reveal_strlit("audio");
                assert("video"@[0] != "audio"@[0]);
            }
            if video {
                if inbound {
                    report.inbound_video = add_inbound(
                        report.inbound_video,
                        &sample.counters,
                        Ghost(i as int),
                    );
                } else {
                    report.outbound_video = add_outbound(
                        report.outbound_video,
                        &sample.counters,
                        Ghost(i as int),
                    );
                }
            } else if audio {
                if inbound {
                    report.inbound_audio = add_inbound(
                        report.inbound_audio,
                        &sample.counters,
                        Ghost(i as int),
                    );
                } else {
                    report.outbound_audio = add_outbound(
                        report.outbound_audio,
                        &sample.counters,
                        Ghost(i as int),
                    );
                }
            } else {
                report.unclassified_streams = report.unclassified_streams + 1;
            }
        }
        i += 1;
    }
    report
}

/// A stream either belongs to a medium or is counted: the count of the rest is
/// zero exactly where every stream has a medium that is reported.
pub proof fn no_stream_is_dropped(samples: Seq<StatsSample>, n: int)
    requires
        0 <= n <= samples.len() < u64::MAX,
    ensures
        report_on(samples, n).unclassified_streams <= n,
        report_on(samples, n).unclassified_streams == 0 <==> forall|i: int|
            #![trigger samples[i]]
            0 <= i < n && !(samples[i].stats_type is Other) ==> medium(samples[i], samples) == Some(
                "video"@,
            ) || medium(samples[i], samples) == Some("audio"@),
    decreases n,
{
    if n > 0 {
        no_stream_is_dropped(samples, n - 1);
        assert forall|i: int|
            #![trigger samples[i]]
            0 <= i < n && !(samples[i].stats_type is Other) && report_on(
                samples,
                n,
            ).unclassified_streams == 0 implies medium(samples[i], samples) == Some("video"@)
            || medium(samples[i], samples) == Some("audio"@) by {
            if i == n - 1 {
            } else {
                assert(report_on(samples, n - 1).unclassified_streams == 0);
            }
        }
        if report_on(samples, n).unclassified_streams != 0 && report_on(
            samples,
            n - 1,
        ).unclassified_streams == 0 {
            assert(!(samples[n - 1].stats_type is Other));
        }
    }
}

/// What is told of an inbound medium in numbers that are not whole, each as
/// JSON text.
#[derive(Debug)]
pub struct InboundFractions {
    pub jitter_ms: String,
    pub jitterbuffer_avg_jitter_ms: String,
    pub jitterbuffer_rtx_per_packet: String,
    pub jitterbuffer_rtx_rtt_ms: String,
}

pub open spec fn inbound_members(stats: InboundRtpStats, fractions: InboundFractions) -> Seq<
    (Seq<char>, Seq<char>),
> {
    seq![
        ("packets_received"@, text_ops::decimal(stats.packets_received as nat)),
        ("payload_bytes_received"@, text_ops::decimal(stats.payload_bytes_received as nat)),
        ("packets_lost"@, text_ops::signed_decimal(stats.packets_lost as int)),
        ("packets_repaired"@, text_ops::decimal(stats.packets_repaired as nat)),
        ("packets_discarded"@, text_ops::decimal(stats.packets_discarded as nat)),
        ("packets_duplicated"@, text_ops::decimal(stats.packets_duplicated as nat)),
        ("jitter_ms"@, fractions.jitter_ms@),
        ("nack_sent"@, text_ops::decimal(stats.nack_sent as nat)),
        ("pli_sent"@, text_ops::decimal(stats.pli_sent as nat)),
        ("fir_sent"@, text_ops::decimal(stats.fir_sent as nat)),
        ("rtx_requested"@, text_ops::decimal(stats.rtx_requested as nat)),
        ("rtx_succeeded"@, text_ops::decimal(stats.rtx_succeeded as nat)),
        ("packets_late"@, text_ops::decimal(stats.packets_late as nat)),
        ("jitterbuffer_packets_pushed"@, text_ops::decimal(stats.jitterbuffer_packets_pushed as nat)),
        ("jitterbuffer_packets_lost"@, text_ops::decimal(stats.jitterbuffer_packets_lost as nat)),
        ("jitterbuffer_packets_duplicated"@, text_ops::decimal(stats.jitterbuffer_packets_duplicated as nat)),
        ("jitterbuffer_avg_jitter_ms"@, fractions.jitterbuffer_avg_jitter_ms@),
        ("jitterbuffer_rtx_per_packet"@, fractions.jitterbuffer_rtx_per_packet@),
        ("jitterbuffer_rtx_rtt_ms"@, fractions.jitterbuffer_rtx_rtt_ms@),
    ]
}

pub open spec fn inbound_json(stats: Option<InboundRtpStats>, fractions: InboundFractions) -> Seq<
    char,
> {
    match stats {
        Some(stats) => json::json_object(inbound_members(stats, fractions)),
        None => "null"@,
    }
}

fn inbound_text(stats: &Option<InboundRtpStats>, fractions: &InboundFractions) -> (text: String)
    ensures
        text@ == inbound_json(*stats, *fractions),
{
    match stats {
        Some(stats) => {
            let members = vec![
                number_member("packets_received", stats.packets_received),
                number_member("payload_bytes_received", stats.payload_bytes_received),
                signed_member("packets_lost", stats.packets_lost),
                number_member("packets_repaired", stats.packets_repaired),
                number_member("packets_discarded", stats.packets_discarded),
                number_member("packets_duplicated", stats.packets_duplicated),
                raw_member("jitter_ms", fractions.jitter_ms.as_str()),
                number_member("nack_sent", stats.nack_sent),
                number_member("pli_sent", stats.pli_sent),
                number_member("fir_sent", stats.fir_sent),
                number_member("rtx_requested", stats.rtx_requested),
                number_member("rtx_succeeded", stats.rtx_succeeded),
                number_member("packets_late", stats.packets_late),
                number_member("jitterbuffer_packets_pushed", stats.jitterbuffer_packets_pushed),
                number_member("jitterbuffer_packets_lost", stats.jitterbuffer_packets_lost),
                number_member("jitterbuffer_packets_duplicated", stats.jitterbuffer_packets_duplicated),
                raw_member("jitterbuffer_avg_jitter_ms", fractions.jitterbuffer_avg_jitter_ms.as_str()),
                raw_member("jitterbuffer_rtx_per_packet", fractions.jitterbuffer_rtx_per_packet.as_str()),
                raw_member("jitterbuffer_rtx_rtt_ms", fractions.jitterbuffer_rtx_rtt_ms.as_str()),
            ];
            proof {
                assert(json::member_texts(members@) =~= inbound_members(*stats, *fractions));
            }
            object(&members)
        },
        None => "null".to_owned(),
    }
}

pub open spec fn outbound_members(stats: OutboundRtpStats) -> Seq<(Seq<char>, Seq<char>)> {
    seq![
        ("packets_sent"@, text_ops::decimal(stats.packets_sent as nat)),
        ("payload_bytes_sent"@, text_ops::decimal(stats.payload_bytes_sent as nat)),
        ("nack_received"@, text_ops::decimal(stats.nack_received as nat)),
        ("pli_received"@, text_ops::decimal(stats.pli_received as nat)),
        ("fir_received"@, text_ops::decimal(stats.fir_received as nat)),
    ]
}

pub open spec fn outbound_json(stats: Option<OutboundRtpStats>) -> Seq<char> {
    match stats {
        Some(stats) => json::json_object(outbound_members(stats)),
        None => "null"@,
    }
}

fn outbound_text(stats: &Option<OutboundRtpStats>) -> (text: String)
    ensures
        text@ == outbound_json(*stats),
{
    match stats {
        Some(stats) => {
            let members = vec![
                number_member("packets_sent", stats.packets_sent),
                number_member("payload_bytes_sent", stats.payload_bytes_sent),
                number_member("nack_received", stats.nack_received),
                number_member("pli_received", stats.pli_received),
                number_member("fir_received", stats.fir_received),
            ];
            proof {
                assert(json::member_texts(members@) =~= outbound_members(*stats));
            }
            object(&members)
        },
        None => "null".to_owned(),
    }
}

/// The member that tells of unclassified streams: there is one exactly where
/// there are any.
pub open spec fn unclassified_members(count: u64) -> Seq<(Seq<char>, Seq<char>)> {
    if count == 0 {
        Seq::empty()
    } else {
        seq![("unclassified_streams"@, text_ops::decimal(count as nat))]
    }
}

pub fn unclassified_member(count: u64) -> (member: Option<Member>)
    ensures
        member is Some <==> count != 0,
        member matches Some(member) ==> seq![(member.name@, member.value@)]
            == unclassified_members(count),
{
    if count == 0 {
        None
    } else {
        Some(number_member("unclassified_streams", count as u128))
    }
}

pub open spec fn report_members(
    report: WebRtcReport,
    video: InboundFractions,
    audio: InboundFractions,
) -> Seq<(Seq<char>, Seq<char>)> {
    seq![
        ("inbound_video"@, inbound_json(report.inbound_video, video)),
        ("outbound_video"@, outbound_json(report.outbound_video)),
        ("inbound_audio"@, inbound_json(report.inbound_audio, audio)),
        ("outbound_audio"@, outbound_json(report.outbound_audio)),
    ] + unclassified_members(report.unclassified_streams)
}

/// The report as JSON text, its members in their own order. `video` and
/// `audio` count where the report has an inbound stream of that medium.
pub fn webrtc_report_json(
    report: &WebRtcReport,
    video: &InboundFractions,
    audio: &InboundFractions,
) -> (text: String)
    ensures
        text@ == json::json_object(report_members(*report, *video, *audio)),
{
    let inbound_video = inbound_text(&report.inbound_video, video);
    let outbound_video = outbound_text(&report.outbound_video);
    let inbound_audio = inbound_text(&report.inbound_audio, audio);
    let outbound_audio = outbound_text(&report.outbound_audio);
    let mut members = vec![
        raw_member("inbound_video", inbound_video.as_str()),
        raw_member("outbound_video", outbound_video.as_str()),
        raw_member("inbound_audio", inbound_audio.as_str()),
        raw_member("outbound_audio", outbound_audio.as_str()),
    ];
    let ghost media = json::member_texts(members@);
    if let Some(member) = unclassified_member(report.unclassified_streams) {
        members.push(member);
        proof {
            let told = (member.name@, member.value@);
            assert(seq![told][0] == unclassified_members(report.unclassified_streams)[0]);
            assert(json::member_texts(members@) =~= media.push(told));
        }
    }
    proof {
        assert(json::member_texts(members@) =~= report_members(*report, *video, *audio));
    }
    object(&members)
}

/// A field that may be reported in either width.
pub fn get_u64(wide: Option<u64>, narrow: Option<u32>) -> (value: u64)
    ensures
        value == match (wide, narrow) {
            (Some(value), _) => value,
            (None, Some(value)) => value as u64,
            (None, None) => 0,
        },
{
    match (wide, narrow) {
        (Some(value), _) => value,
        (None, Some(value)) => value as u64,
        (None, None) => 0,
    }
}

/// A signed field that may be reported in either width.
pub fn get_i64(wide: Option<i64>, narrow: Option<i32>) -> (value: i64)
    ensures
        value == match (wide, narrow) {
            (Some(value), _) => value,
            (None, Some(value)) => value as i64,
            (None, None) => 0,
        },
{
    match (wide, narrow) {
        (Some(value), _) => value,
        (None, Some(value)) => value as i64,
        (None, None) => 0,
    }
}

pub open spec fn responsive_json(ui_responsive: Option<bool>) -> Seq<char> {
    match ui_responsive {
        Some(yes) => json::json_bool(yes),
        None => "null"@,
    }
}

/// The payload of a progress event.
pub fn progress_payload(ui_responsive: Option<bool>, snapshot: &MediaSnapshot) -> (payload: String)
    ensures
        payload@ == json::json_object(
            seq![
                ("progress"@, progress::snapshot_json(*snapshot)),
                ("ui_responsive"@, responsive_json(ui_responsive)),
            ],
        ),
{
    let text = media_snapshot_json(snapshot);
    let responsive = match ui_responsive {
        Some(yes) => if yes {
            "true"
        } else {
            "false"
        },
        None => "null",
    };
    let mut members: Vec<Member> = Vec::new();
    members.push(raw_member("progress", text.as_str()));
    members.push(raw_member("ui_responsive", responsive));
    proof {
        assert(json::member_texts(members@) =~= seq![
            ("progress"@, progress::snapshot_json(*snapshot)),
            ("ui_responsive"@, responsive@),
        ]);
    }
    object(&members)
}

/// The state of the worker that asks for statistics.
#[derive(Debug, Clone, Copy, PartialEq, Eq, Structural)]
pub struct Monitor {
    pub running: bool,
    pub in_flight: bool,
}

/// What the worker does at a tick.
#[derive(Debug, Clone, Copy, PartialEq, Eq, Structural)]
pub struct MonitorTick {
    pub report_progress: bool,
    pub request_stats: bool,
}

/// What the worker meets: the interval passed, an answer came, or its owner
/// stops it.
#[derive(Debug, Clone, Copy, PartialEq, Eq, Structural)]
pub enum MonitorEvent {
    Tick { active: bool, connection_alive: bool, has_progress: bool },
    Reply,
    Stop,
}

pub open spec fn monitor_after(monitor: Monitor, event: MonitorEvent) -> (Monitor, MonitorTick) {
    let nothing = MonitorTick { report_progress: false, request_stats: false };
    match event {
        MonitorEvent::Tick { active, connection_alive, has_progress } => if !monitor.running {
            (monitor, nothing)
        } else if !active || !connection_alive {
            (Monitor { running: false, ..monitor }, nothing)
        } else {
            (
                Monitor { running: true, in_flight: true },
                MonitorTick { report_progress: has_progress, request_stats: !monitor.in_flight },
            )
        },
        MonitorEvent::Reply => (Monitor { in_flight: false, ..monitor }, nothing),
        MonitorEvent::Stop => (Monitor { running: false, ..monitor }, nothing),
    }
}

/// One step of the worker that asks for statistics.
pub fn start_webrtc_diagnostics(monitor: Monitor, event: MonitorEvent) -> (out: (
    Monitor,
    MonitorTick,
))
    ensures
        out == monitor_after(monitor, event),
{
    let nothing = MonitorTick { report_progress: false, request_stats: false };
    match event {
        MonitorEvent::Tick { active, connection_alive, has_progress } => if !monitor.running {
            (monitor, nothing)
        } else if !active || !connection_alive {
            (Monitor { running: false, in_flight: monitor.in_flight }, nothing)
        } else {
            (
                Monitor { running: true, in_flight: true },
                MonitorTick { report_progress: has_progress, request_stats: !monitor.in_flight },
            )
        },
        MonitorEvent::Reply => (
            Monitor { running: monitor.running, in_flight: false },
            nothing,
        ),
        MonitorEvent::Stop => (
            Monitor { running: false, in_flight: monitor.in_flight },
            nothing,
        ),
    }
}

/// An answer is reported while the monitor is active and it holds statistics.
pub fn reply_is_reported(active: bool, has_stats: bool) -> (yes: bool)
    ensures
        yes == (active && has_stats),
{
    active && has_stats
}

/// Statistics are asked for again only after the last request was answered,
/// and a stopped worker asks no more.
pub proof fn one_request_at_a_time(monitor: Monitor, event: MonitorEvent)
    ensures
        monitor_after(monitor, event).1.request_stats ==> !monitor.in_flight && monitor_after(
            monitor,
            event,
        ).0.in_flight,
        monitor.in_flight && !(event is Reply) ==> monitor_after(monitor, event).0.in_flight,
        !monitor.running ==> !monitor_after(monitor, event).0.running && !monitor_after(
            monitor,
            event,
        ).1.request_stats && !monitor_after(monitor, event).1.report_progress,
{
}

} // verus!
