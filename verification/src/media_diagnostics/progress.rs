//! How far media has come through each stage.

use vstd::prelude::*;
use vstd::string::*;

use crate::json::{self, number_member, object, optional_number_member, raw_member, Member};
use crate::text_ops::{self, signed_decimal_string};

verus! {

#[derive(Debug, Clone, Copy, PartialEq, Eq, Structural)]
pub enum MediaStage {
    Rtp,
    Depay,
    Parsed,
    Decoded,
    VideoSinkInput,
    AudioRtp,
    AudioDepay,
    AudioDecoded,
    AudioSinkInput,
}

/// What went through one stage. The two times are stored one higher, so that
/// zero means that there was none.
#[derive(Debug, Clone, Copy, PartialEq, Eq, Structural)]
pub struct StageCounter {
    pub buffers: u64,
    pub bytes: u64,
    pub last_ms: u64,
    pub last_pts_ms: u64,
}

#[derive(Debug, Clone, Copy, PartialEq, Eq, Structural)]
pub struct MediaProgress {
    pub rtp: StageCounter,
    pub depay: StageCounter,
    pub parsed: StageCounter,
    pub decoded: StageCounter,
    pub video_sink_input: StageCounter,
    pub audio_rtp: StageCounter,
    pub audio_depay: StageCounter,
    pub audio_decoded: StageCounter,
    pub audio_sink_input: StageCounter,
    pub keyframes: u64,
    pub queue_overruns: u64,
}

#[derive(Debug, Clone, Copy, PartialEq, Eq, Structural)]
pub struct StageSnapshot {
    pub buffers: u64,
    pub bytes: u64,
    pub silent_ms: Option<u64>,
    pub pts_ms: Option<u64>,
}

#[derive(Debug, Clone, Copy, PartialEq, Eq, Structural)]
pub struct MediaSnapshot {
    pub rtp: StageSnapshot,
    pub depay: StageSnapshot,
    pub parsed: StageSnapshot,
    pub decoded: StageSnapshot,
    pub video_sink_input: StageSnapshot,
    pub audio_rtp: StageSnapshot,
    pub audio_depay: StageSnapshot,
    pub audio_decoded: StageSnapshot,
    pub audio_sink_input: StageSnapshot,
    /// Difference of the last timestamps at the two sinks' inputs.
    pub av_offset_ms: Option<i64>,
    pub keyframes: u64,
    pub queue_overruns: u64,
}

pub open spec fn untouched() -> StageCounter {
    StageCounter { buffers: 0, bytes: 0, last_ms: 0, last_pts_ms: 0 }
}

pub open spec fn stage_counter(progress: MediaProgress, stage: MediaStage) -> StageCounter {
    match stage {
        MediaStage::Rtp => progress.rtp,
        MediaStage::Depay => progress.depay,
        MediaStage::Parsed => progress.parsed,
        MediaStage::Decoded => progress.decoded,
        MediaStage::VideoSinkInput => progress.video_sink_input,
        MediaStage::AudioRtp => progress.audio_rtp,
        MediaStage::AudioDepay => progress.audio_depay,
        MediaStage::AudioDecoded => progress.audio_decoded,
        MediaStage::AudioSinkInput => progress.audio_sink_input,
    }
}

/// A time as it is stored.
pub open spec fn stored(ms: u64) -> u64 {
    if ms < u64::MAX {
        (ms + 1) as u64
    } else {
        u64::MAX
    }
}

/// A counter after one more buffer. Counts wrap at the end of their range; a
/// buffer without a timestamp keeps the one before it.
pub open spec fn counter_after(
    counter: StageCounter,
    bytes: u64,
    at_ms: u64,
    pts_ms: Option<u64>,
) -> StageCounter {
    StageCounter {
        buffers: u64_sum(counter.buffers, 1),
        bytes: u64_sum(counter.bytes, bytes),
        last_ms: stored(at_ms),
        last_pts_ms: match pts_ms {
            Some(pts) => stored(pts),
            None => counter.last_pts_ms,
        },
    }
}

/// A sum that wraps round.
pub open spec fn u64_sum(a: u64, b: u64) -> u64 {
    ((a + b) % 0x1_0000_0000_0000_0000) as u64
}

/// What is counted once a queue has overrun.
pub open spec fn overrun(progress: MediaProgress) -> MediaProgress {
    MediaProgress { queue_overruns: u64_sum(progress.queue_overruns, 1), ..progress }
}

fn recorded(counter: StageCounter, bytes: u64, at_ms: u64, pts_ms: Option<u64>) -> (next:
    StageCounter)
    ensures
        next == counter_after(counter, bytes, at_ms, pts_ms),
{
    StageCounter {
        buffers: counter.buffers.wrapping_add(1),
        bytes: counter.bytes.wrapping_add(bytes),
        last_ms: at_ms.saturating_add(1),
        last_pts_ms: match pts_ms {
            Some(pts) => pts.saturating_add(1),
            None => counter.last_pts_ms,
        },
    }
}

impl MediaProgress {
    pub fn new() -> (progress: MediaProgress)
        ensures
            forall|stage: MediaStage| #[trigger] stage_counter(progress, stage) == untouched(),
            progress.keyframes == 0,
            progress.queue_overruns == 0,
    {
        let none = StageCounter { buffers: 0, bytes: 0, last_ms: 0, last_pts_ms: 0 };
        MediaProgress {
            rtp: none,
            depay: none,
            parsed: none,
            decoded: none,
            video_sink_input: none,
            audio_rtp: none,
            audio_depay: none,
            audio_decoded: none,
            audio_sink_input: none,
            keyframes: 0,
            queue_overruns: 0,
        }
    }

    /// Takes one buffer at a stage into account.
    pub fn record_at(
        &mut self,
        stage: MediaStage,
        bytes: u64,
        at_ms: u64,
        keyframe: bool,
        pts_ms: Option<u64>,
    )
        ensures
            stage_counter(*final(self), stage) == counter_after(
                stage_counter(*old(self), stage),
                bytes,
                at_ms,
                pts_ms,
            ),
            forall|other: MediaStage|
                other != stage ==> #[trigger] stage_counter(*final(self), other) == stage_counter(
                    *old(self),
                    other,
                ),
            final(self).keyframes == if keyframe {
                u64_sum(old(self).keyframes, 1)
            } else {
                old(self).keyframes
            },
            final(self).queue_overruns == old(self).queue_overruns,
    {
        match stage {
            MediaStage::Rtp => self.rtp = recorded(self.rtp, bytes, at_ms, pts_ms),
            MediaStage::Depay => self.depay = recorded(self.depay, bytes, at_ms, pts_ms),
            MediaStage::Parsed => self.parsed = recorded(self.parsed, bytes, at_ms, pts_ms),
            MediaStage::Decoded => self.decoded = recorded(self.decoded, bytes, at_ms, pts_ms),
            MediaStage::VideoSinkInput => self.video_sink_input = recorded(
                self.video_sink_input,
                bytes,
                at_ms,
                pts_ms,
            ),
            MediaStage::AudioRtp => self.audio_rtp = recorded(
                self.audio_rtp,
                bytes,
                at_ms,
                pts_ms,
            ),
            MediaStage::AudioDepay => self.audio_depay = recorded(
                self.audio_depay,
                bytes,
                at_ms,
                pts_ms,
            ),
            MediaStage::AudioDecoded => self.audio_decoded = recorded(
                self.audio_decoded,
                bytes,
                at_ms,
                pts_ms,
            ),
            MediaStage::AudioSinkInput => self.audio_sink_input = recorded(
                self.audio_sink_input,
                bytes,
                at_ms,
                pts_ms,
            ),
        }
        if keyframe {
            self.keyframes = self.keyframes.wrapping_add(1);
        }
    }

    pub fn record_queue_overrun(&mut self)
        ensures
            *final(self) == overrun(*old(self)),
            *final(self) == (MediaProgress {
                queue_overruns: u64_sum(old(self).queue_overruns, 1),
                ..*old(self)
            }),
    {
        self.queue_overruns = self.queue_overruns.wrapping_add(1);
    }

    pub fn snapshot_at(&self, now_ms: u64) -> (snapshot: MediaSnapshot)
        ensures
            snapshot == snapshot_of(*self, now_ms),
    {
        let video_sink_input = snapshot_stage(&self.video_sink_input, now_ms);
        let audio_sink_input = snapshot_stage(&self.audio_sink_input, now_ms);
        MediaSnapshot {
            rtp: snapshot_stage(&self.rtp, now_ms),
            depay: snapshot_stage(&self.depay, now_ms),
            parsed: snapshot_stage(&self.parsed, now_ms),
            decoded: snapshot_stage(&self.decoded, now_ms),
            video_sink_input,
            audio_rtp: snapshot_stage(&self.audio_rtp, now_ms),
            audio_depay: snapshot_stage(&self.audio_depay, now_ms),
            audio_decoded: snapshot_stage(&self.audio_decoded, now_ms),
            audio_sink_input,
            av_offset_ms: av_offset_ms(&video_sink_input, &audio_sink_input),
            keyframes: self.keyframes,
            queue_overruns: self.queue_overruns,
        }
    }
}

/// A stage as it is at a time.
pub open spec fn stage_at(counter: StageCounter, now_ms: u64) -> StageSnapshot {
    StageSnapshot {
        buffers: counter.buffers,
        bytes: counter.bytes,
        silent_ms: if counter.last_ms == 0 {
            None
        } else if now_ms > counter.last_ms - 1 {
            Some((now_ms - (counter.last_ms - 1)) as u64)
        } else {
            Some(0)
        },
        pts_ms: if counter.last_pts_ms == 0 {
            None
        } else {
            Some((counter.last_pts_ms - 1) as u64)
        },
    }
}

pub fn snapshot_stage(counter: &StageCounter, now_ms: u64) -> (snapshot: StageSnapshot)
    ensures
        snapshot == stage_at(*counter, now_ms),
{
    StageSnapshot {
        buffers: counter.buffers,
        bytes: counter.bytes,
        silent_ms: if counter.last_ms == 0 {
            None
        } else {
            Some(now_ms.saturating_sub(counter.last_ms - 1))
        },
        pts_ms: if counter.last_pts_ms == 0 {
            None
        } else {
            Some(counter.last_pts_ms - 1)
        },
    }
}

/// How far the picture is ahead of the sound; there is no offset while one of
/// them has not arrived.
pub open spec fn offset_of(video: StageSnapshot, audio: StageSnapshot) -> Option<i64> {
    match (video.pts_ms, audio.pts_ms) {
        (Some(video), Some(audio)) => if video <= i64::MAX && audio <= i64::MAX {
            Some((video - audio) as i64)
        } else {
            None
        },
        _ => None,
    }
}

pub fn av_offset_ms(video: &StageSnapshot, audio: &StageSnapshot) -> (offset: Option<i64>)
    ensures
        offset == offset_of(*video, *audio),
{
    match (video.pts_ms, audio.pts_ms) {
        (Some(video), Some(audio)) => {
            if video > 0x7fff_ffff_ffff_ffff || audio > 0x7fff_ffff_ffff_ffff {
                return None;
            }
            Some(video as i64 - audio as i64)
        },
        _ => None,
    }
}

pub open spec fn snapshot_of(progress: MediaProgress, now_ms: u64) -> MediaSnapshot {
    MediaSnapshot {
        rtp: stage_at(progress.rtp, now_ms),
        depay: stage_at(progress.depay, now_ms),
        parsed: stage_at(progress.parsed, now_ms),
        decoded: stage_at(progress.decoded, now_ms),
        video_sink_input: stage_at(progress.video_sink_input, now_ms),
        audio_rtp: stage_at(progress.audio_rtp, now_ms),
        audio_depay: stage_at(progress.audio_depay, now_ms),
        audio_decoded: stage_at(progress.audio_decoded, now_ms),
        audio_sink_input: stage_at(progress.audio_sink_input, now_ms),
        av_offset_ms: offset_of(
            stage_at(progress.video_sink_input, now_ms),
            stage_at(progress.audio_sink_input, now_ms),
        ),
        keyframes: progress.keyframes,
        queue_overruns: progress.queue_overruns,
    }
}

/// A snapshot gives back the timestamp of the buffer that was recorded last,
/// zero included, and the time since then. The largest number there is stands
/// for the one before it, so it is left out.
pub proof fn snapshot_gives_back_what_was_recorded(
    counter: StageCounter,
    bytes: u64,
    at_ms: u64,
    pts_ms: u64,
    now_ms: u64,
)
    requires
        pts_ms < u64::MAX,
        at_ms <= now_ms,
        at_ms < u64::MAX,
    ensures
        stage_at(counter_after(counter, bytes, at_ms, Some(pts_ms)), now_ms).pts_ms == Some(
            pts_ms,
        ),
        stage_at(counter_after(counter, bytes, at_ms, Some(pts_ms)), now_ms).silent_ms == Some(
            (now_ms - at_ms) as u64,
        ),
        stage_at(untouched(), now_ms).pts_ms is None,
        stage_at(untouched(), now_ms).silent_ms is None,
{
}

/// The flags of a media buffer that diagnostics look at.
#[derive(Debug, Clone, Copy, PartialEq, Eq, Structural)]
pub struct BufferFlags {
    pub delta_unit: bool,
    pub header: bool,
    pub marker: bool,
}

/// A buffer that does not build on another one.
pub fn is_keyframe(flags: BufferFlags) -> (yes: bool)
    ensures
        yes == !flags.delta_unit,
{
    !flags.delta_unit
}

/// Keyframes are counted where the stream has been parsed, and only there.
pub fn track_pad(stage: MediaStage, flags: BufferFlags) -> (keyframe: bool)
    ensures
        keyframe == (stage == MediaStage::Parsed && !flags.delta_unit),
{
    let parsed = match stage {
        MediaStage::Parsed => true,
        _ => false,
    };
    parsed && is_keyframe(flags)
}

pub open spec fn stage_json(stage: StageSnapshot) -> Seq<char> {
    json::json_object(
        seq![
            ("buffers"@, text_ops::decimal(stage.buffers as nat)),
            ("bytes"@, text_ops::decimal(stage.bytes as nat)),
            ("pts_ms"@, json::json_optional_number(stage.pts_ms)),
            ("silent_ms"@, json::json_optional_number(stage.silent_ms)),
        ],
    )
}

fn stage_member(name: &'static str, stage: &StageSnapshot) -> (out: Member)
    ensures
        out.name@ == name@,
        out.value@ == stage_json(*stage),
{
    let mut members: Vec<Member> = Vec::new();
    members.push(number_member("buffers", stage.buffers as u128));
    members.push(number_member("bytes", stage.bytes as u128));
    members.push(optional_number_member("pts_ms", stage.pts_ms));
    members.push(optional_number_member("silent_ms", stage.silent_ms));
    proof {
        assert(json::member_texts(members@) =~= seq![
            ("buffers"@, text_ops::decimal(stage.buffers as nat)),
            ("bytes"@, text_ops::decimal(stage.bytes as nat)),
            ("pts_ms"@, json::json_optional_number(stage.pts_ms)),
            ("silent_ms"@, json::json_optional_number(stage.silent_ms)),
        ]);
    }
    Member { name, value: object(&members) }
}

pub open spec fn offset_json(offset: Option<i64>) -> Seq<char> {
    match offset {
        Some(ms) => text_ops::signed_decimal(ms as int),
        None => "null"@,
    }
}

pub open spec fn snapshot_json(snapshot: MediaSnapshot) -> Seq<char> {
    json::json_object(
        seq![
            ("audio_decoded"@, stage_json(snapshot.audio_decoded)),
            ("audio_depay"@, stage_json(snapshot.audio_depay)),
            ("audio_rtp"@, stage_json(snapshot.audio_rtp)),
            ("audio_sink_input"@, stage_json(snapshot.audio_sink_input)),
            ("av_offset_ms"@, offset_json(snapshot.av_offset_ms)),
            ("decoded"@, stage_json(snapshot.decoded)),
            ("depay"@, stage_json(snapshot.depay)),
            ("keyframes"@, text_ops::decimal(snapshot.keyframes as nat)),
            ("parsed"@, stage_json(snapshot.parsed)),
            ("queue_overruns"@, text_ops::decimal(snapshot.queue_overruns as nat)),
            ("rtp"@, stage_json(snapshot.rtp)),
            ("video_sink_input"@, stage_json(snapshot.video_sink_input)),
        ],
    )
}

/// A snapshot as JSON text.
pub fn media_snapshot_json(snapshot: &MediaSnapshot) -> (out: String)
    ensures
        out@ == snapshot_json(*snapshot),
{
    let offset = match snapshot.av_offset_ms {
        Some(ms) => signed_decimal_string(ms as i128),
        None => "null".to_owned(),
    };
    let mut members: Vec<Member> = Vec::new();
    members.push(stage_member("audio_decoded", &snapshot.audio_decoded));
    members.push(stage_member("audio_depay", &snapshot.audio_depay));
    members.push(stage_member("audio_rtp", &snapshot.audio_rtp));
    members.push(stage_member("audio_sink_input", &snapshot.audio_sink_input));
    members.push(raw_member("av_offset_ms", offset.as_str()));
    members.push(stage_member("decoded", &snapshot.decoded));
    members.push(stage_member("depay", &snapshot.depay));
    members.push(number_member("keyframes", snapshot.keyframes as u128));
    members.push(stage_member("parsed", &snapshot.parsed));
    members.push(number_member("queue_overruns", snapshot.queue_overruns as u128));
    members.push(stage_member("rtp", &snapshot.rtp));
    members.push(stage_member("video_sink_input", &snapshot.video_sink_input));
    proof {
        assert(json::member_texts(members@) =~= seq![
            ("audio_decoded"@, stage_json(snapshot.audio_decoded)),
            ("audio_depay"@, stage_json(snapshot.audio_depay)),
            ("audio_rtp"@, stage_json(snapshot.audio_rtp)),
            ("audio_sink_input"@, stage_json(snapshot.audio_sink_input)),
            ("av_offset_ms"@, offset_json(snapshot.av_offset_ms)),
            ("decoded"@, stage_json(snapshot.decoded)),
            ("depay"@, stage_json(snapshot.depay)),
            ("keyframes"@, text_ops::decimal(snapshot.keyframes as nat)),
            ("parsed"@, stage_json(snapshot.parsed)),
            ("queue_overruns"@, text_ops::decimal(snapshot.queue_overruns as nat)),
            ("rtp"@, stage_json(snapshot.rtp)),
            ("video_sink_input"@, stage_json(snapshot.video_sink_input)),
        ]);
    }
    object(&members)
}

} // verus!
