//! What the command line decides: capture settings from quality options, sizes
//! from text, and the lines that are printed about them.

pub mod laws;

use crate::json::{self, number_member, object, quoted, signed_member, text_member};
use crate::pipeline::{
    self, recommended_video_bitrate, select_encoder_with, CaptureSettings, Codec, MAX_FPS,
};
use crate::targets::CaptureTarget;
use crate::text_ops::{
    self, chars_of, decimal_string, join, lower_string, parse_unsigned, same_text,
    signed_decimal_string, string_of, trim_bounds,
};
use vstd::prelude::*;
use vstd::string::*;

verus! {

/// The title of a viewer's window. It is the same for every room.
pub fn watch_window_title() -> (title: &'static str)
    ensures
        title@ == "orange - viewer"@,
{
    "orange - viewer"
}

/// The capture rate: what was asked for, or 60, and never more than the cap.
/// Zero is refused.
pub fn capture_fps(requested: Option<u32>) -> (fps: Result<u32, &'static str>)
    ensures
        ({
            let wanted = match requested {
                Some(wanted) => wanted,
                None => 60u32,
            };
            &&& fps is Ok <==> wanted != 0
            &&& fps is Ok ==> fps->Ok_0 == (if wanted < 120 {
                wanted
            } else {
                120u32
            })
            &&& fps is Err ==> fps->Err_0@ == "fps must be greater than zero"@
        }),
{
    let wanted: u32 = match requested {
        Some(wanted) => wanted,
        None => 60,
    };
    if wanted == 0 {
        Err("fps must be greater than zero")
    } else if wanted < MAX_FPS {
        Ok(wanted)
    } else {
        Ok(MAX_FPS)
    }
}

/// Why a text is no size.
#[derive(Debug, Clone, Copy, PartialEq, Eq, Structural)]
pub enum ScaleError {
    /// There is no `x` between two numbers.
    NoSeparator,
    /// What stands before the `x` is no number that fits.
    BadWidth,
    /// What stands behind the `x` is no number that fits.
    BadHeight,
}

/// The position of the first `x` or `X`, or the length where there is none.
pub open spec fn separator_at(text: Seq<char>) -> int
    decreases text.len(),
{
    if text.len() == 0 || text[0] == 'x' || text[0] == 'X' {
        0
    } else {
        1 + separator_at(text.drop_first())
    }
}

/// The number that a text holds between white space.
pub open spec fn spaced_number(text: Seq<char>) -> Option<nat> {
    text_ops::unsigned(text_ops::trimmed(text), u32::MAX as nat)
}

/// The size that a text such as `1920x1080` stands for.
pub open spec fn scale_read(text: Seq<char>) -> Result<(u32, u32), ScaleError> {
    let at = separator_at(text);
    if at >= text.len() {
        Err(ScaleError::NoSeparator)
    } else {
        match (spaced_number(text.take(at)), spaced_number(text.skip(at + 1))) {
            (None, _) => Err(ScaleError::BadWidth),
            (_, None) => Err(ScaleError::BadHeight),
            (Some(width), Some(height)) => Ok((width as u32, height as u32)),
        }
    }
}

proof fn lemma_separator(text: Seq<char>, at: int)
    requires
        0 <= at <= text.len(),
        forall|i: int| 0 <= i < at ==> #[trigger] text[i] != 'x' && text[i] != 'X',
        at < text.len() ==> text[at] == 'x' || text[at] == 'X',
    ensures
        separator_at(text) == at,
    decreases at,
{
    if at > 0 {
        let rest = text.drop_first();
        assert forall|i: int| 0 <= i < at - 1 implies #[trigger] rest[i] != 'x' && rest[i]
            != 'X' by {
            assert(rest[i] == text[i + 1]);
        }
        lemma_separator(rest, at - 1);
    }
}

pub fn parse_scale(s: &str) -> (size: Result<(u32, u32), ScaleError>)
    ensures
        size == scale_read(s@),
{
    let chars = chars_of(s);
    let n: usize = chars.len();
    let mut at: usize = 0;
    while at < n && chars[at] != 'x' && chars[at] != 'X'
        invariant
            at <= n == chars@.len(),
            forall|i: int| 0 <= i < at ==> #[trigger] chars@[i] != 'x' && chars@[i] != 'X',
        decreases n - at,
    {
        at += 1;
    }
    proof {
        lemma_separator(chars@, at as int);
    }
    if at == n {
        return Err(ScaleError::NoSeparator);
    }
    let (a, b) = trim_bounds(&chars, 0, at);
    let (c, d) = trim_bounds(&chars, at + 1, n);
    proof {
        assert(chars@.subrange(0, at as int) =~= s@.take(at as int));
        assert(chars@.subrange(at + 1, n as int) =~= s@.skip(at + 1));
    }
    match parse_unsigned(&chars, a, b, u32::MAX as u64) {
        None => Err(ScaleError::BadWidth),
        Some(width) => match parse_unsigned(&chars, c, d, u32::MAX as u64) {
            None => Err(ScaleError::BadHeight),
            Some(height) => Ok((width as u32, height as u32)),
        },
    }
}

/// The options that decide quality.
#[derive(Debug)]
pub struct QualityArgs {
    /// Capture no audio.
    pub no_audio: bool,
    /// A codec's name, or `auto`.
    pub codec: String,
    /// Kilobits per second, in place of what the size and rate call for.
    pub bitrate: Option<u32>,
    pub fps: Option<u32>,
    pub scale: Option<String>,
}

/// Why no settings could be made.
#[derive(Debug)]
pub enum SettingsError {
    ZeroFps(&'static str),
    UnknownCodec(String),
    NoEncoder(String),
    Scale(ScaleError),
}

/// A bitrate that was derived and not asked for.
#[derive(Debug, Clone, Copy, PartialEq, Eq, Structural)]
pub struct AutomaticBitrate {
    pub kbps: u32,
    pub width: u32,
    pub height: u32,
    pub fps: u32,
    /// The ceiling cut it short.
    pub constrained: bool,
}

/// The settings, and what is to be said about them.
#[derive(Debug)]
pub struct QualityPlan {
    pub settings: CaptureSettings,
    /// No codec was asked for, and the first choice was not to be had.
    pub fallback: bool,
    pub automatic: Option<AutomaticBitrate>,
}

/// What the system knows about the window that is to be captured.
#[derive(Debug, Clone, Copy)]
pub struct WindowFacts {
    pub hwnd: isize,
    /// The refresh rate of the display that shows it.
    pub refresh_rate: Option<u32>,
    pub dimensions: Option<(u32, u32)>,
    pub pid: Option<u32>,
}

impl QualityArgs {
    /// The rate that is asked for, by option or else by the display.
    pub open spec fn wanted_fps(&self, window: WindowFacts) -> Option<u32> {
        if self.fps is Some {
            self.fps
        } else {
            window.refresh_rate
        }
    }

    pub open spec fn wants_auto(&self) -> bool {
        text_ops::lower(self.codec@) == "auto"@
    }

    /// The size to scale to, or why it cannot be read.
    pub open spec fn wanted_scale(&self) -> Result<Option<(u32, u32)>, ScaleError> {
        match self.scale {
            None => Ok(None),
            Some(text) => match scale_read(text@) {
                Ok(size) => Ok(Some(size)),
                Err(error) => Err(error),
            },
        }
    }

    /// The size that the bitrate is derived from.
    pub open spec fn coded_size(&self, window: WindowFacts) -> (u32, u32) {
        match self.wanted_scale() {
            Ok(Some(size)) => size,
            _ => match window.dimensions {
                Some(size) => size,
                None => (1920u32, 1080u32),
            },
        }
    }

    /// The process whose sound is captured: none, everything for the whole
    /// screen, or that of the window.
    pub open spec fn audio_target(&self, window: WindowFacts) -> Option<u32> {
        if self.no_audio {
            None
        } else if window.hwnd == 0 {
            Some(0u32)
        } else {
            window.pid
        }
    }

    /// The rate that is asked for, capped.
    pub open spec fn capped_fps(&self, window: WindowFacts) -> u32 {
        let wanted = match self.wanted_fps(window) {
            Some(wanted) => wanted,
            None => 60u32,
        };
        if wanted < 120 {
            wanted
        } else {
            120u32
        }
    }

    /// The options can be followed, if an encoder is to be had.
    pub open spec fn well_said(&self, window: WindowFacts) -> bool {
        &&& self.wanted_fps(window) != Some(0u32)
        &&& self.wants_auto() || pipeline::codec_named(self.codec@) is Some
        &&& self.wanted_scale() is Ok
    }

    /// The plan follows the options, for the encoder and the number of bitrate
    /// steps that were found.
    pub open spec fn planned(
        &self,
        plan: QualityPlan,
        window: WindowFacts,
        codec: Codec,
        encoder: Seq<char>,
        steps: u64,
    ) -> bool {
        let size = self.coded_size(window);
        let fps = self.capped_fps(window);
        let recommended: int = if steps * 500 < 500 {
            500
        } else if steps * 500 > 80_000 {
            80_000
        } else {
            steps * 500
        };
        &&& plan.settings.hwnd == window.hwnd
        &&& plan.settings.codec == codec
        &&& plan.settings.encoder@ == encoder
        &&& plan.settings.fps == fps
        &&& plan.settings.scale == self.wanted_scale()->Ok_0
        &&& plan.settings.audio_pid == self.audio_target(window)
        &&& plan.settings.bitrate == (match self.bitrate {
            Some(kbps) => kbps as int,
            None => recommended,
        })
        &&& plan.fallback == (self.wants_auto() && encoder != "mfh265enc"@)
        &&& plan.automatic == (if self.bitrate is Some {
            None::<AutomaticBitrate>
        } else {
            Some(
                AutomaticBitrate {
                    kbps: recommended as u32,
                    width: size.0,
                    height: size.1,
                    fps,
                    constrained: steps * 500 > 80_000,
                },
            )
        })
    }

    /// Makes the capture settings. The rate is capped before the bitrate is
    /// derived from it, so that no bitrate is spent on frames that are never
    /// encoded. `is_compatible` asks whether an encoder can be used, and
    /// `bitrate_steps` how many steps of bitrate a size and rate call for.
    pub fn settings<F: Fn(&str) -> bool, G: Fn(u32, u32, u32) -> u64>(
        &self,
        window: WindowFacts,
        is_compatible: F,
        bitrate_steps: G,
    ) -> (plan: Result<QualityPlan, SettingsError>)
        requires
            self.wanted_fps(window) != Some(0u32) && self.wants_auto() ==> pipeline::askable(
                is_compatible,
            ),
            self.well_said(window) ==> call_requires(
                bitrate_steps,
                (
                    self.coded_size(window).0,
                    self.coded_size(window).1,
                    self.capped_fps(window),
                ),
            ),
        ensures
            self.wanted_fps(window) == Some(0u32) ==> (plan matches Err(SettingsError::ZeroFps(
                text,
            )) && text@ == "fps must be greater than zero"@),
            self.wanted_fps(window) != Some(0u32) ==> {
                if !self.wants_auto() && pipeline::codec_named(self.codec@) is None {
                    plan matches Err(SettingsError::UnknownCodec(text)) && text@
                        == pipeline::unknown_codec_text(self.codec@)
                } else if self.wants_auto() {
                    match plan {
                        Err(SettingsError::NoEncoder(text)) => text@ == pipeline::no_encoder_text()
                            && forall|j: int|
                            0 <= j < 4 ==> pipeline::answered(
                                is_compatible,
                                (#[trigger] pipeline::auto_encoder(j)).1,
                                false,
                            ),
                        Err(SettingsError::Scale(error)) => self.wanted_scale() == Err::<
                            Option<(u32, u32)>,
                            ScaleError,
                        >(error) && exists|index: int| #[trigger]
                            pipeline::first_compatible(is_compatible, index),
                        Err(_) => false,
                        Ok(plan) => self.wanted_scale() is Ok && exists|index: int, steps: u64|
                            #[trigger] pipeline::first_compatible(is_compatible, index)
                                && #[trigger] call_ensures(
                                bitrate_steps,
                                (
                                    self.coded_size(window).0,
                                    self.coded_size(window).1,
                                    plan.settings.fps,
                                ),
                                steps,
                            ) && self.planned(
                                plan,
                                window,
                                pipeline::auto_encoder(index).0,
                                pipeline::auto_encoder(index).1,
                                steps,
                            ),
                    }
                } else {
                    let codec = pipeline::codec_named(self.codec@).unwrap();
                    match plan {
                        Err(SettingsError::Scale(error)) => self.wanted_scale() == Err::<
                            Option<(u32, u32)>,
                            ScaleError,
                        >(error),
                        Err(_) => false,
                        Ok(plan) => self.wanted_scale() is Ok && exists|steps: u64| #[trigger]
                            call_ensures(
                                bitrate_steps,
                                (
                                    self.coded_size(window).0,
                                    self.coded_size(window).1,
                                    plan.settings.fps,
                                ),
                                steps,
                            ) && self.planned(
                                plan,
                                window,
                                codec,
                                pipeline::encoder_text(codec),
                                steps,
                            ),
                    }
                }
            },
    {
        let wanted = match self.fps {
            Some(fps) => Some(fps),
            None => window.refresh_rate,
        };
        let fps: u32 = match capture_fps(wanted) {
            Ok(fps) => fps,
            Err(text) => return Err(SettingsError::ZeroFps(text)),
        };
        let automatic_codec = same_text(lower_string(self.codec.as_str()).as_str(), "auto");
        let requested = if automatic_codec {
            None
        } else {
            match Codec::parse(self.codec.as_str()) {
                Ok(codec) => Some(codec),
                Err(text) => return Err(SettingsError::UnknownCodec(text)),
            }
        };
        let (codec, encoder) = match select_encoder_with(requested, is_compatible) {
            Ok(selected) => selected,
            Err(text) => return Err(SettingsError::NoEncoder(text)),
        };
        let ghost index: int = if automatic_codec {
            choose|index: int|
                pipeline::first_compatible(is_compatible, index) && (codec, encoder@)
                    == #[trigger] pipeline::auto_encoder(index)
        } else {
            0
        };
        proof {
            if automatic_codec {
                assert(pipeline::first_compatible(is_compatible, index));
            }
        }
        let fallback = automatic_codec && !same_text(encoder, "mfh265enc");
        let scale = match &self.scale {
            None => None,
            Some(text) => match parse_scale(text.as_str()) {
                Ok(size) => Some(size),
                Err(error) => return Err(SettingsError::Scale(error)),
            },
        };
        let (width, height) = match scale {
            Some(size) => size,
            None => match window.dimensions {
                Some(size) => size,
                None => (1920, 1080),
            },
        };
        let steps: u64 = bitrate_steps(width, height, fps);
        let (recommended, constrained) = recommended_video_bitrate(steps);
        let (bitrate, automatic) = match self.bitrate {
            Some(kbps) => (kbps, None),
            None => (
                recommended,
                Some(AutomaticBitrate { kbps: recommended, width, height, fps, constrained }),
            ),
        };
        let audio_pid = if self.no_audio {
            None
        } else if window.hwnd == 0 {
            Some(0u32)
        } else {
            window.pid
        };
        let plan = QualityPlan {
            settings: CaptureSettings {
                hwnd: window.hwnd,
                codec,
                encoder,
                bitrate,
                fps,
                scale,
                audio_pid,
            },
            fallback,
            automatic,
        };
        proof {
            assert(self.planned(plan, window, codec, encoder@, steps));
        }
        Ok(plan)
    }
}

/// `width x height`, as it is printed.
pub open spec fn size_text(width: u32, height: u32) -> Seq<char> {
    text_ops::decimal(width as nat) + "x"@ + text_ops::decimal(height as nat)
}

fn size_string(width: u32, height: u32) -> (text: String)
    ensures
        text@ == size_text(width, height),
{
    let mut text = decimal_string(width as u128);
    text.append("x");
    text.append(decimal_string(height as u128).as_str());
    text
}

/// Tells that the first choice of encoder was not to be had.
pub fn fallback_line(codec: Codec, encoder: &str) -> (line: String)
    ensures
        line@ == "Encoder auto-selected "@ + pipeline::codec_text(codec) + " via "@ + encoder@
            + " zero-copy fallback."@,
{
    let mut line = "Encoder auto-selected ".to_owned();
    line.append(codec.display_name());
    line.append(" via ");
    line.append(encoder);
    line.append(" zero-copy fallback.");
    line
}

/// Tells which bitrate was derived, and from what.
pub fn automatic_bitrate_line(auto: &AutomaticBitrate) -> (line: String)
    ensures
        line@ == "Video bitrate set automatically to "@ + text_ops::decimal(auto.kbps as nat)
            + " kbps for "@ + size_text(auto.width, auto.height) + " at "@ + text_ops::decimal(
            auto.fps as nat,
        ) + " fps."@,
{
    let mut line = "Video bitrate set automatically to ".to_owned();
    line.append(decimal_string(auto.kbps as u128).as_str());
    line.append(" kbps for ");
    line.append(size_string(auto.width, auto.height).as_str());
    line.append(" at ");
    line.append(decimal_string(auto.fps as u128).as_str());
    line.append(" fps.");
    line
}

/// The message about a bitrate that the ceiling cut short.
pub open spec fn constrained_text(auto: AutomaticBitrate) -> Seq<char> {
    "Automatic quality is limited to "@ + text_ops::decimal((auto.kbps / 1_000) as nat)
        + " Mbps at "@ + size_text(auto.width, auto.height) + " and "@ + text_ops::decimal(
        auto.fps as nat,
    ) + " fps"@
}

/// The line by which a supervising program learns of it.
pub fn quality_status_line(auto: &AutomaticBitrate) -> (line: String)
    ensures
        line@
            == "[quality-status] {\"event\":\"automatic-bitrate-constrained\",\"message\":"@
            + json::json_string(constrained_text(*auto)) + "}"@,
{
    let mut message = "Automatic quality is limited to ".to_owned();
    message.append(decimal_string((auto.kbps / 1_000) as u128).as_str());
    message.append(" Mbps at ");
    message.append(size_string(auto.width, auto.height).as_str());
    message.append(" and ");
    message.append(decimal_string(auto.fps as u128).as_str());
    message.append(" fps");
    let mut line =
        "[quality-status] {\"event\":\"automatic-bitrate-constrained\",\"message\":".to_owned();
    line.append(quoted(message.as_str()).as_str());
    line.append("}");
    line
}

/// The warning about it.
pub fn quality_warning_line(auto: &AutomaticBitrate) -> (line: String)
    ensures
        line@ == "[quality] automatic video bitrate capped at "@ + text_ops::decimal(
            auto.kbps as nat,
        ) + " kbps; "@ + size_text(auto.width, auto.height) + " at "@ + text_ops::decimal(
            auto.fps as nat,
        ) + " fps is quality-constrained"@,
{
    let mut line = "[quality] automatic video bitrate capped at ".to_owned();
    line.append(decimal_string(auto.kbps as u128).as_str());
    line.append(" kbps; ");
    line.append(size_string(auto.width, auto.height).as_str());
    line.append(" at ");
    line.append(decimal_string(auto.fps as u128).as_str());
    line.append(" fps is quality-constrained");
    line
}

/// `text` with every line break replaced by a space.
pub open spec fn on_one_line(text: Seq<char>) -> Seq<char> {
    text.map_values(
        |c: char|
            if c == '\r' || c == '\n' {
                ' '
            } else {
                c
            },
    )
}

/// An error with its causes, told on one line.
pub fn format_error_chain(chain: &str) -> (line: String)
    ensures
        line@ == "Error: "@ + on_one_line(chain@),
{
    let chars = chars_of(chain);
    let mut line = "Error: ".to_owned();
    let mut i: usize = 0;
    while i < chars.len()
        invariant
            i <= chars@.len(),
            chars@ == chain@,
            line@ == "Error: "@ + on_one_line(chain@.take(i as int)),
        decreases chars@.len() - i,
    {
        if chars[i] == '\r' || chars[i] == '\n' {
            line.push(' ');
        } else {
            line.push(chars[i]);
        }
        i += 1;
        proof {
            assert(line@ =~= "Error: "@ + on_one_line(chain@.take(i as int)));
        }
    }
    proof {
        assert(chain@.take(chain@.len() as int) =~= chain@);
    }
    line
}

/// The line about an error holds no line break.
pub proof fn error_line_is_one_line(chain: Seq<char>)
    ensures
        forall|i: int|
            0 <= i < ("Error: "@ + on_one_line(chain)).len() ==> #[trigger] ("Error: "@
                + on_one_line(chain))[i] != '\n' && ("Error: "@ + on_one_line(chain))[i] != '\r',
{
    reveal_strlit("Error: ");
    let line = "Error: "@ + on_one_line(chain);
    assert forall|i: int| 0 <= i < line.len() implies #[trigger] line[i] != '\n' && line[i]
        != '\r' by {
        if i >= 7 {
            assert(line[i] == on_one_line(chain)[i - 7]);
        }
    }
}

/// A path with forward slashes, which the description syntax does not read as
/// escapes.
pub open spec fn forward_slashes(path: Seq<char>) -> Seq<char> {
    path.map_values(
        |c: char|
            if c == '\\' {
                '/'
            } else {
                c
            },
    )
}

/// The source of a preview: a still image, or a test pattern.
pub open spec fn preview_source(pattern: Seq<char>, image: Option<Seq<char>>) -> Seq<char> {
    match image {
        Some(path) => "filesrc location=\""@ + forward_slashes(path)
            + "\" ! decodebin ! imagefreeze"@,
        None => "videotestsrc pattern="@ + pattern,
    }
}

/// The description of a preview's synthetic stream.
pub open spec fn preview_text(
    stream: (u32, u32),
    fps: u32,
    pattern: Seq<char>,
    image: Option<Seq<char>>,
) -> Seq<char> {
    preview_source(pattern, image) + " ! videoconvert ! videoscale ! video/x-raw,width="@
        + text_ops::decimal(stream.0 as nat) + ",height="@ + text_ops::decimal(stream.1 as nat)
        + ",framerate="@ + text_ops::decimal(fps as nat)
        + "/1,pixel-aspect-ratio=1/1 ! d3d11upload"@
}

pub fn preview_description(
    width: u32,
    height: u32,
    fps: u32,
    pattern: &str,
    image: Option<&str>,
) -> (description: String)
    ensures
        description@ == preview_text(
            (width, height),
            fps,
            pattern@,
            match image {
                Some(path) => Some(path@),
                None => None,
            },
        ),
{
    let mut text = match image {
        Some(path) => {
            let chars = chars_of(path);
            let mut slashed = String::new();
            let mut i: usize = 0;
            while i < chars.len()
                invariant
                    i <= chars@.len(),
                    chars@ == path@,
                    slashed@ == forward_slashes(path@.take(i as int)),
                decreases chars@.len() - i,
            {
                if chars[i] == '\\' {
                    slashed.push('/');
                } else {
                    slashed.push(chars[i]);
                }
                i += 1;
                proof {
                    assert(slashed@ =~= forward_slashes(path@.take(i as int)));
                }
            }
            proof {
                assert(path@.take(path@.len() as int) =~= path@);
            }
            let mut source = "filesrc location=\"".to_owned();
            source.append(slashed.as_str());
            source.append("\" ! decodebin ! imagefreeze");
            source
        },
        None => {
            let mut source = "videotestsrc pattern=".to_owned();
            source.append(pattern);
            source
        },
    };
    text.append(" ! videoconvert ! videoscale ! video/x-raw,width=");
    text.append(decimal_string(width as u128).as_str());
    text.append(",height=");
    text.append(decimal_string(height as u128).as_str());
    text.append(",framerate=");
    text.append(decimal_string(fps as u128).as_str());
    text.append("/1,pixel-aspect-ratio=1/1 ! d3d11upload");
    text
}

/// A recording that holds nothing is an error.
pub fn report_file(path: &str, size: u64) -> (result: Result<(), String>)
    ensures
        result is Ok <==> size > 0,
        result is Err ==> result->Err_0@ == "captured nothing ("@ + path@
            + " is empty or missing). Windows Graphics Capture only produces frames when the window redraws - is it minimised or idle?"@,
{
    if size == 0 {
        let mut text = "captured nothing (".to_owned();
        text.append(path);
        text.append(
            " is empty or missing). Windows Graphics Capture only produces frames when the window redraws - is it minimised or idle?",
        );
        return Err(text);
    }
    Ok(())
}

/// `count` spaces.
pub open spec fn spaces(count: int) -> Seq<char> {
    Seq::new(
        if count > 0 {
            count as nat
        } else {
            0
        },
        |i: int| ' ',
    )
}

/// `text` followed by spaces up to `width` characters.
pub open spec fn padded_right(text: Seq<char>, width: int) -> Seq<char> {
    text + spaces(width - text.len())
}

/// `text` preceded by spaces up to `width` characters.
pub open spec fn padded_left(text: Seq<char>, width: int) -> Seq<char> {
    spaces(width - text.len()) + text
}

fn space_string(count: usize) -> (out: String)
    ensures
        out@ == spaces(count as int),
{
    let mut out = String::new();
    let mut i: usize = 0;
    while i < count
        invariant
            i <= count,
            out@ == spaces(i as int),
        decreases count - i,
    {
        out.push(' ');
        i += 1;
        proof {
            assert(out@ =~= spaces(i as int));
        }
    }
    out
}

fn missing_width(text: &str, width: usize) -> (count: usize)
    ensures
        count == (if width > text@.len() {
            width - text@.len()
        } else {
            0
        }),
{
    let n: usize = text.unicode_len();
    if width > n {
        width - n
    } else {
        0
    }
}

/// The row of one window in the list: handle, size, process and the first
/// characters of its title.
pub open spec fn list_row(target: CaptureTarget) -> Seq<char> {
    let title = if target.title@.len() > 48 {
        target.title@.take(48)
    } else {
        target.title@
    };
    padded_right(text_ops::signed_decimal(target.hwnd as int), 12) + " "@ + padded_left(
        text_ops::signed_decimal(target.width as int) + "x"@ + text_ops::signed_decimal(
            target.height as int,
        ),
        11,
    ) + "  "@ + padded_right(target.process@, 24) + " "@ + title
}

fn list_row_string(target: &CaptureTarget) -> (row: String)
    ensures
        row@ == list_row(*target),
{
    let mut row = signed_decimal_string(target.hwnd as i128);
    let pad: usize = missing_width(row.as_str(), 12);
    row.append(space_string(pad).as_str());
    proof {
        assert(row@ =~= padded_right(text_ops::signed_decimal(target.hwnd as int), 12));
    }
    row.append(" ");
    let mut size = signed_decimal_string(target.width as i128);
    size.append("x");
    size.append(signed_decimal_string(target.height as i128).as_str());
    let mut sized = space_string(missing_width(size.as_str(), 11));
    sized.append(size.as_str());
    proof {
        assert(sized@ =~= padded_left(size@, 11));
    }
    row.append(sized.as_str());
    row.append("  ");
    let mut process = target.process.as_str().to_owned();
    let pad: usize = missing_width(process.as_str(), 24);
    process.append(space_string(pad).as_str());
    proof {
        assert(process@ =~= padded_right(target.process@, 24));
    }
    row.append(process.as_str());
    row.append(" ");
    let title = chars_of(target.title.as_str());
    let shown: usize = if title.len() > 48 {
        48
    } else {
        title.len()
    };
    row.append(string_of(&title, 0, shown).as_str());
    proof {
        assert(title@.subrange(0, shown as int) =~= (if target.title@.len() > 48 {
            target.title@.take(48)
        } else {
            target.title@
        }));
    }
    row
}

/// One window as a JSON object.
pub open spec fn target_json(target: CaptureTarget) -> Seq<char> {
    json::json_object(
        seq![
            ("height"@, text_ops::signed_decimal(target.height as int)),
            ("hwnd"@, text_ops::signed_decimal(target.hwnd as int)),
            ("pid"@, text_ops::decimal(target.pid as nat)),
            ("process"@, json::json_string(target.process@)),
            ("title"@, json::json_string(target.title@)),
            ("width"@, text_ops::signed_decimal(target.width as int)),
        ],
    )
}

fn target_json_string(target: &CaptureTarget) -> (out: String)
    ensures
        out@ == target_json(*target),
{
    let members = vec![
        signed_member("height", target.height as i128),
        signed_member("hwnd", target.hwnd as i128),
        number_member("pid", target.pid as u128),
        text_member("process", target.process.as_str()),
        text_member("title", target.title.as_str()),
        signed_member("width", target.width as i128),
    ];
    proof {
        assert(json::member_texts(members@) =~= seq![
            ("height"@, text_ops::signed_decimal(target.height as int)),
            ("hwnd"@, text_ops::signed_decimal(target.hwnd as int)),
            ("pid"@, text_ops::decimal(target.pid as nat)),
            ("process"@, json::json_string(target.process@)),
            ("title"@, json::json_string(target.title@)),
            ("width"@, text_ops::signed_decimal(target.width as int)),
        ]);
    }
    object(&members)
}

/// Each window as a JSON object.
pub open spec fn target_jsons(windows: Seq<CaptureTarget>) -> Seq<Seq<char>> {
    Seq::new(windows.len(), |i: int| target_json(windows[i]))
}

/// The rows of the list of windows.
pub open spec fn list_rows(windows: Seq<CaptureTarget>) -> Seq<Seq<char>> {
    Seq::new(windows.len(), |i: int| list_row(windows[i]))
}

/// The list of windows as JSON text.
pub open spec fn targets_json(windows: Seq<CaptureTarget>) -> Seq<char> {
    "["@ + text_ops::joined(target_jsons(windows), ","@) + "]"@
}

/// The heading of the list of windows.
pub open spec fn list_heading() -> Seq<char> {
    "HWND                SIZE  PROCESS                  TITLE"@
}

/// What the list of windows prints, line by line: one line of JSON for other
/// programs, or a heading and a row for each window.
pub open spec fn list_lines(windows: Seq<CaptureTarget>, json: bool) -> Seq<Seq<char>> {
    if json {
        seq![targets_json(windows)]
    } else if windows.len() == 0 {
        seq!["No capturable windows found."@]
    } else {
        seq![list_heading()] + list_rows(windows)
    }
}

pub fn cmd_list(windows: &Vec<CaptureTarget>, json: bool) -> (lines: Vec<String>)
    ensures
        text_ops::texts(lines@) == list_lines(windows@, json),
{
    let mut lines: Vec<String> = Vec::new();
    if json {
        let mut items: Vec<String> = Vec::new();
        let mut i: usize = 0;
        while i < windows.len()
            invariant
                i <= windows@.len(),
                text_ops::texts(items@) == target_jsons(windows@.take(i as int)),
            decreases windows@.len() - i,
        {
            let ghost before = items@;
            let item = target_json_string(&windows[i]);
            items.push(item);
            i += 1;
            proof {
                assert(text_ops::texts(items@) =~= text_ops::texts(before).push(item@));
                assert(target_jsons(windows@.take(i as int)) =~= target_jsons(
                    windows@.take(i - 1),
                ).push(target_json(windows@[i - 1])));
            }
        }
        proof {
            assert(windows@.take(windows@.len() as int) =~= windows@);
        }
        let mut text = "[".to_owned();
        text.append(join(&items, ",").as_str());
        text.append("]");
        lines.push(text);
        proof {
            assert(text_ops::texts(lines@) =~= seq![targets_json(windows@)]);
        }
        return lines;
    }
    if windows.len() == 0 {
        lines.push("No capturable windows found.".to_owned());
        proof {
            assert(text_ops::texts(lines@) =~= seq!["No capturable windows found."@]);
        }
        return lines;
    }
    lines.push("HWND                SIZE  PROCESS                  TITLE".to_owned());
    let mut i: usize = 0;
    proof {
        assert(text_ops::texts(lines@) =~= seq![list_heading()] + list_rows(windows@.take(0)));
    }
    while i < windows.len()
        invariant
            i <= windows@.len(),
            text_ops::texts(lines@) == seq![list_heading()] + list_rows(windows@.take(i as int)),
        decreases windows@.len() - i,
    {
        let ghost before = lines@;
        let row = list_row_string(&windows[i]);
        lines.push(row);
        i += 1;
        proof {
            assert(text_ops::texts(lines@) =~= text_ops::texts(before).push(row@));
            assert(list_rows(windows@.take(i as int)) =~= list_rows(windows@.take(i - 1)).push(
                list_row(windows@[i - 1]),
            ));
            assert(text_ops::texts(lines@) =~= seq![list_heading()] + list_rows(
                windows@.take(i as int),
            ));
        }
    }
    proof {
        assert(windows@.take(windows@.len() as int) =~= windows@);
    }
    lines
}

/// The commands that capture a window.
#[derive(Debug, Clone, Copy, PartialEq, Eq, Structural)]
pub enum CaptureCommand {
    Record,
    Loopback,
    Host,
}

pub open spec fn command_word(command: CaptureCommand) -> Seq<char> {
    match command {
        CaptureCommand::Record => "Recording"@,
        CaptureCommand::Loopback => "Loopback"@,
        CaptureCommand::Host => "Hosting"@,
    }
}

/// What a command says of its settings before it starts; a recording names its
/// file as well.
pub open spec fn opening_text(
    command: CaptureCommand,
    settings: CaptureSettings,
    out: Seq<char>,
) -> Seq<char> {
    let told = command_word(command) + " hwnd "@ + text_ops::signed_decimal(settings.hwnd as int)
        + " as "@ + pipeline::codec_text(settings.codec) + " at "@ + text_ops::decimal(
        settings.bitrate as nat,
    ) + " kbps / "@ + text_ops::decimal(settings.fps as nat) + " fps"@;
    if command is Record {
        told + " -> "@ + out
    } else {
        told
    }
}

pub fn opening_line(command: CaptureCommand, settings: &CaptureSettings, out: &str) -> (line:
    String)
    ensures
        line@ == opening_text(command, *settings, out@),
{
    let mut line = match command {
        CaptureCommand::Record => "Recording".to_owned(),
        CaptureCommand::Loopback => "Loopback".to_owned(),
        CaptureCommand::Host => "Hosting".to_owned(),
    };
    line.append(" hwnd ");
    line.append(signed_decimal_string(settings.hwnd as i128).as_str());
    line.append(" as ");
    line.append(settings.codec.display_name());
    line.append(" at ");
    line.append(decimal_string(settings.bitrate as u128).as_str());
    line.append(" kbps / ");
    line.append(decimal_string(settings.fps as u128).as_str());
    line.append(" fps");
    match command {
        CaptureCommand::Record => {
            line.append(" -> ");
            line.append(out);
        },
        _ => {},
    }
    line
}

/// Who watches: a friend, or the host's own monitor.
#[derive(Debug, Clone, Copy, PartialEq, Eq, Structural)]
pub enum PlaybackKind {
    Friend,
    Monitor,
}

/// How a window plays; a friend's window stands offset from earlier ones.
#[derive(Debug, Clone, Copy, PartialEq, Eq, Structural)]
pub enum PlaybackProfile {
    FriendViewer { cascade: u32 },
    LiveMonitor,
}

/// Where a watched stream ends up.
#[derive(Debug)]
pub enum WatchTarget {
    File(String),
    Window(PlaybackProfile),
}

/// A stream that is written to a file needs no window.
pub fn watch_target(out: Option<String>, kind: PlaybackKind, cascade: u32) -> (target: WatchTarget)
    ensures
        match out {
            Some(path) => target matches WatchTarget::File(file) && file@ == path@,
            None => target == WatchTarget::Window(
                match kind {
                    PlaybackKind::Friend => PlaybackProfile::FriendViewer { cascade },
                    PlaybackKind::Monitor => PlaybackProfile::LiveMonitor,
                },
            ),
        },
{
    match out {
        Some(path) => WatchTarget::File(path),
        None => WatchTarget::Window(
            match kind {
                PlaybackKind::Friend => PlaybackProfile::FriendViewer { cascade },
                PlaybackKind::Monitor => PlaybackProfile::LiveMonitor,
            },
        ),
    }
}

/// Why no preview can be shown.
#[derive(Debug, Clone, Copy, PartialEq, Eq)]
pub enum PreviewError {
    Stream(ScaleError),
    Window(ScaleError),
    ZeroFps(&'static str),
}

/// A preview: the sizes of the stream and of its window, the stream's
/// description, and what is said about it.
#[derive(Debug)]
pub struct PreviewPlan {
    pub stream: (u32, u32),
    pub window: (u32, u32),
    pub description: String,
    pub lines: Vec<String>,
}

pub open spec fn preview_lines(
    stream: (u32, u32),
    window: (u32, u32),
    fps: u32,
    pinned: bool,
) -> Seq<Seq<char>> {
    seq![
        "Preview: "@ + size_text(stream.0, stream.1) + " at "@ + text_ops::decimal(fps as nat)
            + " fps in a "@ + size_text(window.0, window.1) + " window."@,
        "Move the mouse to wake the controls"@ + (if pinned {
            " (pinned open)"@
        } else {
            ""@
        }) + ". Esc or the X closes."@,
    ]
}

/// Plans a preview. The stream's size is read first, then the window's, and
/// a rate of zero is refused last.
pub fn preview_plan(
    size: &str,
    window: &str,
    fps: u32,
    pattern: &str,
    image: Option<&str>,
    pinned: bool,
) -> (plan: Result<PreviewPlan, PreviewError>)
    ensures
        match (scale_read(size@), scale_read(window@)) {
            (Err(error), _) => plan matches Err(PreviewError::Stream(told)) && told == error,
            (_, Err(error)) => plan matches Err(PreviewError::Window(told)) && told == error,
            (Ok(stream), Ok(shown)) => if fps == 0 {
                plan matches Err(PreviewError::ZeroFps(text)) && text@
                    == "fps must be greater than zero"@
            } else {
                &&& plan matches Ok(found)
                &&& found.stream == stream
                &&& found.window == shown
                &&& found.description@ == preview_text(
                    stream,
                    fps,
                    pattern@,
                    match image {
                        Some(path) => Some(path@),
                        None => None,
                    },
                )
                &&& text_ops::texts(found.lines@) == preview_lines(stream, shown, fps, pinned)
            },
        },
{
    let stream = match parse_scale(size) {
        Ok(stream) => stream,
        Err(error) => return Err(PreviewError::Stream(error)),
    };
    let shown = match parse_scale(window) {
        Ok(shown) => shown,
        Err(error) => return Err(PreviewError::Window(error)),
    };
    if fps == 0 {
        return Err(PreviewError::ZeroFps("fps must be greater than zero"));
    }
    let description = preview_description(stream.0, stream.1, fps, pattern, image);
    let mut first = "Preview: ".to_owned();
    first.append(size_string(stream.0, stream.1).as_str());
    first.append(" at ");
    first.append(decimal_string(fps as u128).as_str());
    first.append(" fps in a ");
    first.append(size_string(shown.0, shown.1).as_str());
    first.append(" window.");
    let mut second = "Move the mouse to wake the controls".to_owned();
    second.append(
        if pinned {
            " (pinned open)"
        } else {
            ""
        },
    );
    second.append(". Esc or the X closes.");
    let lines = vec![first, second];
    proof {
        assert(text_ops::texts(lines@) =~= preview_lines(stream, shown, fps, pinned));
    }
    Ok(PreviewPlan { stream, window: shown, description, lines })
}

} // verus!
