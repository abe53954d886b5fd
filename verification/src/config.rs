//! Resolving a timelapse configuration: which of the timing quantities are
//! given, which are derived and from what, which defaults apply, and which
//! error a request is refused with.
//!
//! The quantities themselves are real numbers; the library decides the
//! plan and the caller carries out the arithmetic it names.
use vstd::prelude::*;

use crate::text::{owned, push_str, same_text};

verus! {

/// Why a configuration request was refused.
#[derive(Debug)]
pub enum ConfigError {
    /// `window_secs` is absent, not finite, or not positive.
    MissingWindow,
    /// The timing inputs do not determine every quantity.
    NotEnoughInputs,
    /// An input is out of range; the text says which and why.
    Invalid(String),
}

/// A `ConfigError` with its text as a sequence of characters.
pub enum ConfigErrorView {
    MissingWindow,
    NotEnoughInputs,
    Invalid(Seq<char>),
}

impl View for ConfigError {
    type V = ConfigErrorView;

    open spec fn view(&self) -> ConfigErrorView {
        match self {
            ConfigError::MissingWindow => ConfigErrorView::MissingWindow,
            ConfigError::NotEnoughInputs => ConfigErrorView::NotEnoughInputs,
            ConfigError::Invalid(s) => ConfigErrorView::Invalid(s@),
        }
    }
}

/// The text of each error, as the daemon reports it.
pub open spec fn config_error_text(e: ConfigErrorView) -> Seq<char> {
    match e {
        ConfigErrorView::MissingWindow => "window_secs is required and must be positive"@,
        ConfigErrorView::NotEnoughInputs =>
            "not enough timing inputs; provide capture_interval_secs, output_duration_secs, playback_fps, or frame_count"@,
        ConfigErrorView::Invalid(s) => s,
    }
}

impl ConfigError {
    /// The error's text.
    pub fn message(&self) -> (r: String)
        ensures
            r@ == config_error_text(self@),
    {
        match self {
            ConfigError::MissingWindow => owned("window_secs is required and must be positive"),
            ConfigError::NotEnoughInputs => owned(
                "not enough timing inputs; provide capture_interval_secs, output_duration_secs, playback_fps, or frame_count",
            ),
            ConfigError::Invalid(s) => owned(s.as_str()),
        }
    }
}

/// What is known of a real-valued input before any arithmetic on it.
#[derive(Debug, Clone, Copy, PartialEq, Eq, Structural)]
pub enum InputCheck {
    /// The input was not given.
    Missing,
    /// The input is a finite number above zero.
    Positive,
    /// The input is zero, negative, infinite or not a number.
    NotPositive,
}

impl InputCheck {
    pub open spec fn given(self) -> bool {
        !(self is Missing)
    }
}

/// How the capture interval is obtained.
#[derive(Debug, Clone, Copy, PartialEq, Eq, Structural)]
pub enum IntervalSource {
    Given,
    /// `window_secs / frame_count`.
    WindowPerFrame,
    /// `window_secs / (output_duration_secs * playback_fps)`.
    WindowPerOutputFrame,
}

/// How the frame count is obtained.
#[derive(Debug, Clone, Copy, PartialEq, Eq, Structural)]
pub enum FrameCountSource {
    Given,
    /// `ceil(window_secs / capture_interval_secs)`, at least 1.
    WindowOverInterval,
    /// `round(output_duration_secs * playback_fps)`, at least 1.
    OutputTimesFps,
}

/// How the playback rate is obtained.
#[derive(Debug, Clone, Copy, PartialEq, Eq, Structural)]
pub enum FpsSource {
    Given,
    /// `frame_count / output_duration_secs`.
    FramesOverOutput,
    /// 30 frames per second, with a warning.
    Default,
}

/// How the output duration is obtained.
#[derive(Debug, Clone, Copy, PartialEq, Eq, Structural)]
pub enum OutputSource {
    Given,
    /// `frame_count / playback_fps`.
    FramesOverFps,
}

/// The timing inputs of a request, each reduced to what the plan needs.
#[derive(Debug, Clone, Copy, PartialEq, Eq, Structural)]
pub struct TimingInputs {
    pub window_secs: InputCheck,
    pub capture_interval_secs: InputCheck,
    pub playback_fps: InputCheck,
    pub output_duration_secs: InputCheck,
    pub frame_count: Option<u64>,
}

/// Where each timing quantity of a resolved configuration comes from.
#[derive(Debug, Clone, Copy, PartialEq, Eq, Structural)]
pub struct TimingPlan {
    pub capture_interval: IntervalSource,
    pub frame_count: FrameCountSource,
    pub playback_fps: FpsSource,
    pub output_duration: OutputSource,
}

/// The text of the error for a non-positive input.
pub open spec fn positive_error_text(name: Seq<char>) -> Seq<char> {
    name + " must be positive"@
}

/// The text of the error for a value outside `[min, max]`, the bounds
/// already written with three decimals.
pub open spec fn range_error_text(name: Seq<char>, min: Seq<char>, max: Seq<char>) -> Seq<char> {
    name + " must be between "@ + min + " and "@ + max
}

/// Refuses a given input that is not a finite positive number.
pub fn validate_positive(name: &str, value: InputCheck) -> (r: Result<(), ConfigError>)
    ensures
        match r {
            Ok(()) => !(value is NotPositive),
            Err(e) => value is NotPositive && e@ == ConfigErrorView::Invalid(
                positive_error_text(name@),
            ),
        },
{
    match value {
        InputCheck::NotPositive => {
            let mut s = owned(name);
            push_str(&mut s, " must be positive");
            Err(ConfigError::Invalid(s))
        },
        _ => Ok(()),
    }
}

/// Refuses a value that is not finite or lies outside `[min, max]`;
/// `within` says whether it is finite and inside, `min` and `max` are the
/// bounds written with three decimals.
pub fn validate_range(name: &str, within: bool, min: &str, max: &str) -> (r: Result<
    (),
    ConfigError,
>)
    ensures
        match r {
            Ok(()) => within,
            Err(e) => !within && e@ == ConfigErrorView::Invalid(range_error_text(name@, min@, max@)),
        },
{
    if !within {
        let mut s = owned(name);
        push_str(&mut s, " must be between ");
        push_str(&mut s, min);
        push_str(&mut s, " and ");
        push_str(&mut s, max);
        return Err(ConfigError::Invalid(s));
    }
    Ok(())
}

pub open spec fn interval_source(i: TimingInputs) -> Option<IntervalSource> {
    if i.capture_interval_secs.given() {
        Some(IntervalSource::Given)
    } else if i.frame_count is Some {
        Some(IntervalSource::WindowPerFrame)
    } else if i.output_duration_secs.given() && i.playback_fps.given() {
        Some(IntervalSource::WindowPerOutputFrame)
    } else {
        None
    }
}

pub open spec fn frame_count_source(i: TimingInputs) -> Option<FrameCountSource> {
    if i.frame_count is Some {
        Some(FrameCountSource::Given)
    } else if interval_source(i) is Some {
        Some(FrameCountSource::WindowOverInterval)
    } else if i.output_duration_secs.given() && i.playback_fps.given() {
        Some(FrameCountSource::OutputTimesFps)
    } else {
        None
    }
}

pub open spec fn fps_source(i: TimingInputs) -> FpsSource {
    if i.playback_fps.given() {
        FpsSource::Given
    } else if frame_count_source(i) is Some && i.output_duration_secs.given() {
        FpsSource::FramesOverOutput
    } else {
        FpsSource::Default
    }
}

pub open spec fn output_source(i: TimingInputs) -> Option<OutputSource> {
    if i.output_duration_secs.given() {
        Some(OutputSource::Given)
    } else if frame_count_source(i) is Some {
        Some(OutputSource::FramesOverFps)
    } else {
        None
    }
}

/// How many of the four timing inputs are given.
pub open spec fn provided_count(i: TimingInputs) -> int {
    (if i.capture_interval_secs.given() { 1int } else { 0 }) + (if i.playback_fps.given() {
        1int
    } else {
        0
    }) + (if i.output_duration_secs.given() { 1int } else { 0 }) + (if i.frame_count is Some {
        1int
    } else {
        0
    })
}

/// The plan for a set of timing inputs, or the error they are refused
/// with: the window is checked first, then that some timing input is given,
/// then each given input in turn, then whether the quantities are
/// determined.
pub open spec fn timing_plan(i: TimingInputs) -> Result<TimingPlan, ConfigErrorView> {
    if !(i.window_secs is Positive) {
        Err(ConfigErrorView::MissingWindow)
    } else if provided_count(i) < 1 {
        Err(ConfigErrorView::NotEnoughInputs)
    } else if i.capture_interval_secs is NotPositive {
        Err(ConfigErrorView::Invalid(positive_error_text("capture_interval_secs"@)))
    } else if i.playback_fps is NotPositive {
        Err(ConfigErrorView::Invalid(positive_error_text("playback_fps"@)))
    } else if i.output_duration_secs is NotPositive {
        Err(ConfigErrorView::Invalid(positive_error_text("output_duration_secs"@)))
    } else if i.frame_count == Some(0u64) {
        Err(ConfigErrorView::Invalid("frame_count must be positive"@))
    } else if interval_source(i) is None || frame_count_source(i) is None || output_source(
        i,
    ) is None {
        Err(ConfigErrorView::NotEnoughInputs)
    } else {
        Ok(
            TimingPlan {
                capture_interval: interval_source(i)->0,
                frame_count: frame_count_source(i)->0,
                playback_fps: fps_source(i),
                output_duration: output_source(i)->0,
            },
        )
    }
}

/// The plan for a set of timing inputs; see `timing_plan`.
pub fn plan_timing(i: TimingInputs) -> (r: Result<TimingPlan, ConfigError>)
    ensures
        match r {
            Ok(p) => timing_plan(i) == Ok::<TimingPlan, ConfigErrorView>(p),
            Err(e) => timing_plan(i) == Err::<TimingPlan, ConfigErrorView>(e@),
        },
{
    if !matches!(i.window_secs, InputCheck::Positive) {
        return Err(ConfigError::MissingWindow);
    }
    let interval_given = !matches!(i.capture_interval_secs, InputCheck::Missing);
    let fps_given = !matches!(i.playback_fps, InputCheck::Missing);
    let output_given = !matches!(i.output_duration_secs, InputCheck::Missing);
    let frames_given = i.frame_count.is_some();
    if !(interval_given || fps_given || output_given || frames_given) {
        return Err(ConfigError::NotEnoughInputs);
    }
    validate_positive("capture_interval_secs", i.capture_interval_secs)?;
    validate_positive("playback_fps", i.playback_fps)?;
    validate_positive("output_duration_secs", i.output_duration_secs)?;
    if matches!(i.frame_count, Some(0)) {
        return Err(ConfigError::Invalid(owned("frame_count must be positive")));
    }
    let interval = if interval_given {
        Some(IntervalSource::Given)
    } else if frames_given {
        Some(IntervalSource::WindowPerFrame)
    } else if output_given && fps_given {
        Some(IntervalSource::WindowPerOutputFrame)
    } else {
        None
    };
    let frames = if frames_given {
        Some(FrameCountSource::Given)
    } else if interval.is_some() {
        Some(FrameCountSource::WindowOverInterval)
    } else if output_given && fps_given {
        Some(FrameCountSource::OutputTimesFps)
    } else {
        None
    };
    let fps = if fps_given {
        FpsSource::Given
    } else if frames.is_some() && output_given {
        FpsSource::FramesOverOutput
    } else {
        FpsSource::Default
    };
    let output = if output_given {
        Some(OutputSource::Given)
    } else if frames.is_some() {
        Some(OutputSource::FramesOverFps)
    } else {
        None
    };
    match (interval, frames, output) {
        (Some(capture_interval), Some(frame_count), Some(output_duration)) => Ok(
            TimingPlan {
                capture_interval,
                frame_count,
                playback_fps: fps,
                output_duration,
            },
        ),
        _ => Err(ConfigError::NotEnoughInputs),
    }
}

/// The bitrate, in kbit/s, that a codec gets when none is asked for.
pub open spec fn default_bitrate_for(codec: Seq<char>) -> u32 {
    if codec == "hevc"@ || codec == "h265"@ || codec == "auto"@ {
        1_200
    } else if codec == "av1"@ {
        900
    } else {
        1_800
    }
}

/// The bitrate, in kbit/s, that a codec gets when none is asked for.
pub fn default_bitrate(codec: &str) -> (r: u32)
    ensures
        r == default_bitrate_for(codec@),
{
    if same_text(codec, "hevc") || same_text(codec, "h265") || same_text(codec, "auto") {
        1_200
    } else if same_text(codec, "av1") {
        900
    } else {
        1_800
    }
}

/// The default bitrates: 1200 kbit/s for `hevc`, `h265` and `auto`, 900
/// for `av1`, and 1800 for any other codec name.
pub proof fn default_bitrates(codec: Seq<char>)
    ensures
        (codec == "hevc"@ || codec == "h265"@ || codec == "auto"@) ==> default_bitrate_for(codec)
            == 1_200,
        codec == "av1"@ ==> default_bitrate_for(codec) == 900,
        codec != "hevc"@ && codec != "h265"@ && codec != "auto"@ && codec != "av1"@
            ==> default_bitrate_for(codec) == 1_800,
{
    reveal_strlit("hevc");
    reveal_strlit("h265");
    reveal_strlit("auto");
    reveal_strlit("av1");
    assert("av1"@.len() != "hevc"@.len());
    assert("av1"@.len() != "h265"@.len());
    assert("av1"@.len() != "auto"@.len());
}

/// The encoding choices of a request with their defaults applied.
pub struct EncodingChoice {
    pub rolling: bool,
    pub codec: String,
    pub bitrate_kbps: u32,
}

/// Applies the defaults: a rolling window, the `auto` codec, and the
/// codec's default bitrate.
pub fn resolve_encoding(rolling: Option<bool>, codec: Option<String>, bitrate_kbps: Option<u32>) -> (r:
    EncodingChoice)
    ensures
        r.rolling == match rolling {
            Some(b) => b,
            None => true,
        },
        r.codec@ == match codec {
            Some(c) => c@,
            None => "auto"@,
        },
        r.bitrate_kbps == match bitrate_kbps {
            Some(b) => b,
            None => default_bitrate_for(r.codec@),
        },
{
    let rolling = match rolling {
        Some(b) => b,
        None => true,
    };
    let codec = match codec {
        Some(c) => c,
        None => owned("auto"),
    };
    let bitrate_kbps = match bitrate_kbps {
        Some(b) => b,
        None => default_bitrate(codec.as_str()),
    };
    EncodingChoice { rolling, codec, bitrate_kbps }
}

/// The warnings a resolved configuration carries, in the order they are
/// raised.
pub open spec fn warning_texts(
    fps_defaulted: bool,
    interval_below_100ms: bool,
    fps_above_60: bool,
    output_above_hour: bool,
) -> Seq<Seq<char>> {
    let a = if fps_defaulted {
        seq!["playback_fps defaulted to 30 because no framerate was provided"@]
    } else {
        Seq::empty()
    };
    let b = if interval_below_100ms {
        seq!["capture interval is below 100ms; CPU and storage use may be high"@]
    } else {
        Seq::empty()
    };
    let c = if fps_above_60 {
        seq!["playback FPS is above 60; many players will not show additional detail"@]
    } else {
        Seq::empty()
    };
    let d = if output_above_hour {
        seq!["output duration is longer than one hour"@]
    } else {
        Seq::empty()
    };
    a + b + c + d
}

/// The warnings for a resolved configuration: the playback rate was
/// defaulted, the capture interval is below 0.1 s, the playback rate is
/// above 60 frames per second, the output is longer than an hour.
pub fn config_warnings(
    fps_defaulted: bool,
    interval_below_100ms: bool,
    fps_above_60: bool,
    output_above_hour: bool,
) -> (r: Vec<String>)
    ensures
        r@.map_values(|s: String| s@) == warning_texts(
            fps_defaulted,
            interval_below_100ms,
            fps_above_60,
            output_above_hour,
        ),
{
    let mut w: Vec<String> = Vec::new();
    if fps_defaulted {
        w.push(owned("playback_fps defaulted to 30 because no framerate was provided"));
    }
    let ghost w1 = w@.map_values(|s: String| s@);
    if interval_below_100ms {
        w.push(owned("capture interval is below 100ms; CPU and storage use may be high"));
    }
    let ghost w2 = w@.map_values(|s: String| s@);
    if fps_above_60 {
        w.push(owned("playback FPS is above 60; many players will not show additional detail"));
    }
    let ghost w3 = w@.map_values(|s: String| s@);
    if output_above_hour {
        w.push(owned("output duration is longer than one hour"));
    }
    proof {
        let a = if fps_defaulted {
            seq!["playback_fps defaulted to 30 because no framerate was provided"@]
        } else {
            Seq::empty()
        };
        let b = if interval_below_100ms {
            seq!["capture interval is below 100ms; CPU and storage use may be high"@]
        } else {
            Seq::empty()
        };
        let c = if fps_above_60 {
            seq!["playback FPS is above 60; many players will not show additional detail"@]
        } else {
            Seq::empty()
        };
        let d = if output_above_hour {
            seq!["output duration is longer than one hour"@]
        } else {
            Seq::empty()
        };
        assert(w1 =~= a);
        assert(w2 =~= a + b);
        assert(w3 =~= a + b + c);
        assert(w@.map_values(|s: String| s@) =~= a + b + c + d);
    }
    w
}

/// A request is planned exactly when its window is a finite positive
/// number, no given input is out of range, the frame count is not zero, and
/// the capture interval, the frame count, or both the output duration and
/// the playback rate are given.
pub proof fn timing_plan_succeeds_exactly_when(i: TimingInputs)
    ensures
        timing_plan(i) is Ok <==> {
            &&& i.window_secs is Positive
            &&& !(i.capture_interval_secs is NotPositive)
            &&& !(i.playback_fps is NotPositive)
            &&& !(i.output_duration_secs is NotPositive)
            &&& i.frame_count != Some(0u64)
            &&& (i.capture_interval_secs.given() || i.frame_count is Some || (
            i.output_duration_secs.given() && i.playback_fps.given()))
        },
{
}

/// A planned configuration keeps every timing input that was given, and
/// derives only those that were not.
pub proof fn timing_plan_keeps_given_inputs(i: TimingInputs)
    requires
        timing_plan(i) is Ok,
    ensures
        (timing_plan(i)->Ok_0.capture_interval is Given) == i.capture_interval_secs.given(),
        (timing_plan(i)->Ok_0.frame_count is Given) == (i.frame_count is Some),
        (timing_plan(i)->Ok_0.playback_fps is Given) == i.playback_fps.given(),
        (timing_plan(i)->Ok_0.output_duration is Given) == i.output_duration_secs.given(),
{
}

/// The playback rate falls back to 30 frames per second exactly when
/// neither it nor the output duration is given.
pub proof fn timing_plan_defaults_fps_exactly_when(i: TimingInputs)
    requires
        timing_plan(i) is Ok,
    ensures
        (timing_plan(i)->Ok_0.playback_fps is Default) == (!i.playback_fps.given()
            && !i.output_duration_secs.given()),
{
}

/// How each quantity that is not given is derived, once a request is
/// planned: the interval from the frame count when that is given, else from
/// the output duration and the playback rate; the frame count always from
/// the window and the interval (never from the output duration and the
/// playback rate, since the interval is known by then); the playback rate
/// from the frame count and the output duration when the latter is given,
/// else 30 frames per second; and the output duration from the frame count
/// and the playback rate.
pub proof fn timing_plan_derivations(i: TimingInputs)
    requires
        timing_plan(i) is Ok,
    ensures
        ({
            let p = timing_plan(i)->Ok_0;
            &&& !i.capture_interval_secs.given() && i.frame_count is Some ==> p.capture_interval
                == IntervalSource::WindowPerFrame
            &&& !i.capture_interval_secs.given() && i.frame_count is None ==> p.capture_interval
                == IntervalSource::WindowPerOutputFrame && i.output_duration_secs.given()
                && i.playback_fps.given()
            &&& i.frame_count is None ==> p.frame_count == FrameCountSource::WindowOverInterval
            &&& p.frame_count != FrameCountSource::OutputTimesFps
            &&& !i.playback_fps.given() && i.output_duration_secs.given() ==> p.playback_fps
                == FpsSource::FramesOverOutput
            &&& !i.playback_fps.given() && !i.output_duration_secs.given() ==> p.playback_fps
                == FpsSource::Default
            &&& !i.output_duration_secs.given() ==> p.output_duration
                == OutputSource::FramesOverFps
        }),
{
}

/// Which error a request is refused with: a window that is not a finite
/// positive number first; then a request with no timing input; then the
/// first non-positive input among the capture interval, the playback rate
/// and the output duration, named in the text; then a zero frame count;
/// and a request that gives only the playback rate or only the output
/// duration does not determine its timing.
pub proof fn timing_plan_refusals(i: TimingInputs)
    ensures
        !(i.window_secs is Positive) ==> timing_plan(i) == Err::<TimingPlan, ConfigErrorView>(
            ConfigErrorView::MissingWindow,
        ),
        i.window_secs is Positive && !i.capture_interval_secs.given() && !i.playback_fps.given()
            && !i.output_duration_secs.given() && i.frame_count is None ==> timing_plan(i)
            == Err::<TimingPlan, ConfigErrorView>(ConfigErrorView::NotEnoughInputs),
        i.window_secs is Positive && i.capture_interval_secs is NotPositive ==> timing_plan(i)
            == Err::<TimingPlan, ConfigErrorView>(
            ConfigErrorView::Invalid("capture_interval_secs must be positive"@),
        ),
        i.window_secs is Positive && !(i.capture_interval_secs is NotPositive)
            && i.playback_fps is NotPositive ==> timing_plan(i) == Err::<
            TimingPlan,
            ConfigErrorView,
        >(ConfigErrorView::Invalid("playback_fps must be positive"@)),
        i.window_secs is Positive && !(i.capture_interval_secs is NotPositive)
            && !(i.playback_fps is NotPositive) && i.output_duration_secs is NotPositive
            ==> timing_plan(i) == Err::<TimingPlan, ConfigErrorView>(
            ConfigErrorView::Invalid("output_duration_secs must be positive"@),
        ),
        i.window_secs is Positive && !(i.capture_interval_secs is NotPositive)
            && !(i.playback_fps is NotPositive) && !(i.output_duration_secs is NotPositive)
            && i.frame_count == Some(0u64) ==> timing_plan(i) == Err::<TimingPlan, ConfigErrorView>(
            ConfigErrorView::Invalid("frame_count must be positive"@),
        ),
        i.window_secs is Positive && !i.capture_interval_secs.given() && i.frame_count is None
            && (i.playback_fps.given() != i.output_duration_secs.given()) && !(
        i.playback_fps is NotPositive) && !(i.output_duration_secs is NotPositive)
            ==> timing_plan(i) == Err::<TimingPlan, ConfigErrorView>(
            ConfigErrorView::NotEnoughInputs,
        ),
{
    reveal_strlit("capture_interval_secs");
    reveal_strlit("playback_fps");
    reveal_strlit("output_duration_secs");
    reveal_strlit(" must be positive");
    reveal_strlit("capture_interval_secs must be positive");
    reveal_strlit("playback_fps must be positive");
    reveal_strlit("output_duration_secs must be positive");
    assert("capture_interval_secs"@ + " must be positive"@ =~= "capture_interval_secs must be positive"@);
    assert("playback_fps"@ + " must be positive"@ =~= "playback_fps must be positive"@);
    assert("output_duration_secs"@ + " must be positive"@ =~= "output_duration_secs must be positive"@);
}

/// Each warning is carried exactly when its own condition holds, and
/// there are as many warnings as conditions that hold, in the order: the
/// defaulted playback rate, the short capture interval, the high playback
/// rate, the long output.
pub proof fn warnings_follow_their_conditions(
    fps_defaulted: bool,
    interval_below_100ms: bool,
    fps_above_60: bool,
    output_above_hour: bool,
)
    ensures
        ({
            let w = warning_texts(fps_defaulted, interval_below_100ms, fps_above_60, output_above_hour);
            &&& w.contains("playback_fps defaulted to 30 because no framerate was provided"@)
                == fps_defaulted
            &&& w.contains("capture interval is below 100ms; CPU and storage use may be high"@)
                == interval_below_100ms
            &&& w.contains("playback FPS is above 60; many players will not show additional detail"@)
                == fps_above_60
            &&& w.contains("output duration is longer than one hour"@) == output_above_hour
            &&& w.len() == (if fps_defaulted { 1int } else { 0 }) + (if interval_below_100ms {
                1int
            } else {
                0
            }) + (if fps_above_60 { 1int } else { 0 }) + (if output_above_hour { 1int } else { 0 })
            &&& fps_defaulted ==> w[0] == "playback_fps defaulted to 30 because no framerate was provided"@
            &&& output_above_hour ==> w.last() == "output duration is longer than one hour"@
        }),
{
    let a = "playback_fps defaulted to 30 because no framerate was provided"@;
    let b = "capture interval is below 100ms; CPU and storage use may be high"@;
    let c = "playback FPS is above 60; many players will not show additional detail"@;
    let d = "output duration is longer than one hour"@;
    reveal_strlit("playback_fps defaulted to 30 because no framerate was provided");
    reveal_strlit("capture interval is below 100ms; CPU and storage use may be high");
    reveal_strlit("playback FPS is above 60; many players will not show additional detail");
    reveal_strlit("output duration is longer than one hour");
    assert(a.len() == 62 && b.len() == 64 && c.len() == 70 && d.len() == 39);
    let w = warning_texts(fps_defaulted, interval_below_100ms, fps_above_60, output_above_hour);
    assert forall|x: Seq<char>| w.contains(x) implies (x == a && fps_defaulted) || (x == b
        && interval_below_100ms) || (x == c && fps_above_60) || (x == d && output_above_hour) by {
        let k = choose|k: int| 0 <= k < w.len() && w[k] == x;
    }
    if fps_defaulted {
        assert(w[0] == a);
    }
    if interval_below_100ms {
        let k = if fps_defaulted { 1int } else { 0 };
        assert(w[k] == b);
    }
    if fps_above_60 {
        let k = (if fps_defaulted { 1int } else { 0 }) + (if interval_below_100ms { 1int } else { 0 });
        assert(w[k] == c);
    }
    if output_above_hour {
        assert(w[w.len() - 1] == d);
    }
}

} // verus!
