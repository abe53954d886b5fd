use flowlapse::config::{
    config_warnings, default_bitrate, plan_timing, resolve_encoding, validate_positive,
    validate_range, ConfigError, FpsSource, FrameCountSource, InputCheck, IntervalSource,
    OutputSource, TimingInputs, TimingPlan,
};

fn window_only() -> TimingInputs {
    TimingInputs {
        window_secs: InputCheck::Positive,
        capture_interval_secs: InputCheck::Missing,
        playback_fps: InputCheck::Missing,
        output_duration_secs: InputCheck::Missing,
        frame_count: None,
    }
}

fn invalid_text(e: ConfigError) -> String {
    match e {
        ConfigError::Invalid(s) => s,
        other => panic!("expected an invalid input, got {:?}", other),
    }
}

#[test]
fn plans_output_duration_from_interval_and_fps() {
    let mut input = window_only();
    input.capture_interval_secs = InputCheck::Positive;
    input.playback_fps = InputCheck::Positive;
    let plan = plan_timing(input).unwrap();
    assert_eq!(
        plan,
        TimingPlan {
            capture_interval: IntervalSource::Given,
            frame_count: FrameCountSource::WindowOverInterval,
            playback_fps: FpsSource::Given,
            output_duration: OutputSource::FramesOverFps,
        }
    );
}

#[test]
fn plans_capture_interval_from_output_duration_and_fps() {
    let mut input = window_only();
    input.output_duration_secs = InputCheck::Positive;
    input.playback_fps = InputCheck::Positive;
    let plan = plan_timing(input).unwrap();
    assert_eq!(
        plan,
        TimingPlan {
            capture_interval: IntervalSource::WindowPerOutputFrame,
            frame_count: FrameCountSource::WindowOverInterval,
            playback_fps: FpsSource::Given,
            output_duration: OutputSource::Given,
        }
    );
}

#[test]
fn plans_fps_from_interval_and_output_duration() {
    let mut input = window_only();
    input.capture_interval_secs = InputCheck::Positive;
    input.output_duration_secs = InputCheck::Positive;
    let plan = plan_timing(input).unwrap();
    assert_eq!(
        plan,
        TimingPlan {
            capture_interval: IntervalSource::Given,
            frame_count: FrameCountSource::WindowOverInterval,
            playback_fps: FpsSource::FramesOverOutput,
            output_duration: OutputSource::Given,
        }
    );
}

#[test]
fn plans_from_frame_count_alone_with_default_fps() {
    let mut input = window_only();
    input.frame_count = Some(100);
    let plan = plan_timing(input).unwrap();
    assert_eq!(
        plan,
        TimingPlan {
            capture_interval: IntervalSource::WindowPerFrame,
            frame_count: FrameCountSource::Given,
            playback_fps: FpsSource::Default,
            output_duration: OutputSource::FramesOverFps,
        }
    );
}

#[test]
fn refuses_missing_or_bad_window() {
    let mut input = window_only();
    input.capture_interval_secs = InputCheck::Positive;
    input.window_secs = InputCheck::Missing;
    assert!(matches!(plan_timing(input), Err(ConfigError::MissingWindow)));
    input.window_secs = InputCheck::NotPositive;
    assert!(matches!(plan_timing(input), Err(ConfigError::MissingWindow)));
}

#[test]
fn refuses_without_timing_inputs() {
    assert!(matches!(
        plan_timing(window_only()),
        Err(ConfigError::NotEnoughInputs)
    ));
}

#[test]
fn refuses_fps_alone_and_output_alone() {
    let mut fps_only = window_only();
    fps_only.playback_fps = InputCheck::Positive;
    assert!(matches!(
        plan_timing(fps_only),
        Err(ConfigError::NotEnoughInputs)
    ));
    let mut output_only = window_only();
    output_only.output_duration_secs = InputCheck::Positive;
    assert!(matches!(
        plan_timing(output_only),
        Err(ConfigError::NotEnoughInputs)
    ));
}

#[test]
fn refuses_non_positive_inputs_in_order() {
    let mut input = window_only();
    input.capture_interval_secs = InputCheck::NotPositive;
    input.playback_fps = InputCheck::NotPositive;
    assert_eq!(
        invalid_text(plan_timing(input).unwrap_err()),
        "capture_interval_secs must be positive"
    );
    input.capture_interval_secs = InputCheck::Positive;
    assert_eq!(
        invalid_text(plan_timing(input).unwrap_err()),
        "playback_fps must be positive"
    );
    input.playback_fps = InputCheck::Positive;
    input.output_duration_secs = InputCheck::NotPositive;
    assert_eq!(
        invalid_text(plan_timing(input).unwrap_err()),
        "output_duration_secs must be positive"
    );
}

#[test]
fn refuses_zero_frame_count() {
    let mut input = window_only();
    input.frame_count = Some(0);
    assert_eq!(
        invalid_text(plan_timing(input).unwrap_err()),
        "frame_count must be positive"
    );
}

#[test]
fn error_texts() {
    assert_eq!(
        ConfigError::MissingWindow.message(),
        "window_secs is required and must be positive"
    );
    assert_eq!(
        ConfigError::NotEnoughInputs.message(),
        "not enough timing inputs; provide capture_interval_secs, output_duration_secs, playback_fps, or frame_count"
    );
    assert_eq!(
        ConfigError::Invalid("x must be positive".to_string()).message(),
        "x must be positive"
    );
}

#[test]
fn validate_positive_accepts_missing_and_positive() {
    assert!(validate_positive("playback_fps", InputCheck::Missing).is_ok());
    assert!(validate_positive("playback_fps", InputCheck::Positive).is_ok());
    assert_eq!(
        invalid_text(validate_positive("playback_fps", InputCheck::NotPositive).unwrap_err()),
        "playback_fps must be positive"
    );
}

#[test]
fn validate_range_text() {
    assert!(validate_range("segment_duration_secs", true, "1.000", "60.000").is_ok());
    assert_eq!(
        invalid_text(
            validate_range("segment_duration_secs", false, "10.000", "20.000").unwrap_err()
        ),
        "segment_duration_secs must be between 10.000 and 20.000"
    );
}

#[test]
fn default_bitrates_by_codec() {
    assert_eq!(default_bitrate("auto"), 1_200);
    assert_eq!(default_bitrate("hevc"), 1_200);
    assert_eq!(default_bitrate("h265"), 1_200);
    assert_eq!(default_bitrate("av1"), 900);
    assert_eq!(default_bitrate("h264"), 1_800);
    assert_eq!(default_bitrate(""), 1_800);
}

#[test]
fn encoding_defaults() {
    let e = resolve_encoding(None, None, None);
    assert!(e.rolling);
    assert_eq!(e.codec, "auto");
    assert_eq!(e.bitrate_kbps, 1_200);

    let e = resolve_encoding(Some(false), Some("av1".to_string()), None);
    assert!(!e.rolling);
    assert_eq!(e.codec, "av1");
    assert_eq!(e.bitrate_kbps, 900);

    let e = resolve_encoding(None, Some("h264".to_string()), Some(5_000));
    assert_eq!(e.bitrate_kbps, 5_000);
}

#[test]
fn warnings_in_order() {
    assert!(config_warnings(false, false, false, false).is_empty());
    assert_eq!(
        config_warnings(true, true, true, true),
        vec![
            "playback_fps defaulted to 30 because no framerate was provided".to_string(),
            "capture interval is below 100ms; CPU and storage use may be high".to_string(),
            "playback FPS is above 60; many players will not show additional detail".to_string(),
            "output duration is longer than one hour".to_string(),
        ]
    );
    assert_eq!(
        config_warnings(false, false, true, false),
        vec!["playback FPS is above 60; many players will not show additional detail".to_string()]
    );
}
