use flowlapse::media::{
    add_source_args, capture_args, capture_filter, concat_list, encoder_args,
    escape_concat_path, export_args, frame_file_name, frame_pattern, latest_frame_args,
    preview_encode_args, preview_frame_args, require_segments, segment_file_names, starts_with,
    PreviewFrames, SegmentUse,
};
use flowlapse::models::{Source, SourceKind, SourceStatus};

fn source(kind: SourceKind, url: &str, transport: Option<&str>) -> Source {
    Source {
        id: 7,
        name: "synthetic".to_string(),
        kind,
        url: url.to_string(),
        rtsp_transport: transport.map(|t| t.to_string()),
        status: SourceStatus::Unknown,
        last_error: None,
        latest_frame_path: None,
    }
}

fn strs(v: &[String]) -> Vec<&str> {
    v.iter().map(|s| s.as_str()).collect()
}

#[test]
fn lavfi_source_is_read_as_a_filter_graph() {
    let s = source(SourceKind::Ffmpeg, "lavfi:testsrc2=size=320x180:rate=30", None);
    let mut args = Vec::new();
    add_source_args(&mut args, &s, "20.000000");
    assert_eq!(
        strs(&args),
        vec!["-t", "20.000000", "-f", "lavfi", "-i", "testsrc2=size=320x180:rate=30"]
    );
}

#[test]
fn rtsp_source_defaults_to_tcp_transport() {
    let s = source(SourceKind::Ffmpeg, "rtsp://cam.local/stream", None);
    let mut args = Vec::new();
    add_source_args(&mut args, &s, "10.000000");
    assert_eq!(
        strs(&args),
        vec![
            "-rtsp_transport",
            "tcp",
            "-t",
            "10.000000",
            "-i",
            "rtsp://cam.local/stream"
        ]
    );
    let s = source(SourceKind::Frigate, "rtsp://cam.local/stream", Some("udp"));
    let mut args = Vec::new();
    add_source_args(&mut args, &s, "10.000000");
    assert_eq!(args[1], "udp");
}

#[test]
fn file_and_http_sources_are_passed_as_they_are() {
    let s = source(SourceKind::File, "/videos/garden.mp4", None);
    let mut args = Vec::new();
    add_source_args(&mut args, &s, "5.000000");
    assert_eq!(strs(&args), vec!["-t", "5.000000", "-i", "/videos/garden.mp4"]);
    let s = source(SourceKind::Ffmpeg, "http://cam/stream.m3u8", None);
    let mut args = Vec::new();
    add_source_args(&mut args, &s, "5.000000");
    assert_eq!(strs(&args), vec!["-t", "5.000000", "-i", "http://cam/stream.m3u8"]);
}

#[test]
fn capture_filter_without_and_with_scaling() {
    assert_eq!(
        capture_filter("10.000000", "30.000000", None, None),
        "select='isnan(prev_selected_t)+gte(t-prev_selected_t\\,10.000000)',setpts=N/(30.000000*TB)"
    );
    assert_eq!(
        capture_filter("2.000000", "60.000000", Some(1280), None),
        "select='isnan(prev_selected_t)+gte(t-prev_selected_t\\,2.000000)',setpts=N/(60.000000*TB),scale=1280:-2"
    );
    assert_eq!(
        capture_filter("2.000000", "60.000000", None, Some(720)),
        "select='isnan(prev_selected_t)+gte(t-prev_selected_t\\,2.000000)',setpts=N/(60.000000*TB),scale=-2:720"
    );
    assert_eq!(
        capture_filter("1.000000", "24.000000", Some(0), Some(4294967295)),
        "select='isnan(prev_selected_t)+gte(t-prev_selected_t\\,1.000000)',setpts=N/(24.000000*TB),scale=0:4294967295"
    );
}

#[test]
fn encoder_for_each_codec() {
    let x265 = vec![
        "-c:v", "libx265", "-preset", "fast", "-crf", "30", "-pix_fmt", "yuv420p",
    ];
    let x264 = vec![
        "-c:v",
        "libx264",
        "-preset",
        "veryfast",
        "-crf",
        "28",
        "-pix_fmt",
        "yuv420p",
        "-movflags",
        "+faststart",
    ];
    assert_eq!(strs(&encoder_args("hevc")), x265);
    assert_eq!(strs(&encoder_args("h265")), x265);
    assert_eq!(strs(&encoder_args("auto")), x264);
    assert_eq!(strs(&encoder_args("h264")), x264);
    assert_eq!(strs(&encoder_args("av1")), x264);
}

#[test]
fn sparse_capture_command() {
    let s = source(SourceKind::Ffmpeg, "lavfi:testsrc2=size=320x180:rate=30", None);
    let filter = capture_filter("10.000000", "30.000000", None, None);
    let args = capture_args(&s, "20.000000", &filter, "h264", "/tmp/segment.tmp.mp4");
    assert_eq!(
        strs(&args),
        vec![
            "-hide_banner",
            "-loglevel",
            "error",
            "-nostdin",
            "-y",
            "-t",
            "20.000000",
            "-f",
            "lavfi",
            "-i",
            "testsrc2=size=320x180:rate=30",
            "-an",
            "-vf",
            filter.as_str(),
            "-fps_mode",
            "passthrough",
            "-c:v",
            "libx264",
            "-preset",
            "veryfast",
            "-crf",
            "28",
            "-pix_fmt",
            "yuv420p",
            "-movflags",
            "+faststart",
            "/tmp/segment.tmp.mp4",
        ]
    );
}

#[test]
fn frame_extraction_commands() {
    assert_eq!(
        strs(&latest_frame_args("seg.mp4", "latest.jpg")),
        vec![
            "-hide_banner", "-loglevel", "error", "-nostdin", "-y", "-sseof", "-1", "-i",
            "seg.mp4", "-frames:v", "1", "latest.jpg",
        ]
    );
    assert_eq!(
        strs(&preview_frame_args("seg.mp4", "frame_000000.jpg")),
        vec![
            "-hide_banner", "-loglevel", "error", "-nostdin", "-y", "-i", "seg.mp4", "-map",
            "0:v:0", "-an", "-frames:v", "1", "frame_000000.jpg",
        ]
    );
}

#[test]
fn export_commands() {
    assert_eq!(
        strs(&export_args("out.concat.txt", "mp4", false, "out.mp4.tmp")),
        vec![
            "-hide_banner", "-loglevel", "error", "-nostdin", "-y", "-f", "concat", "-safe",
            "0", "-i", "out.concat.txt", "-c", "copy", "-f", "mp4", "out.mp4.tmp",
        ]
    );
    assert_eq!(
        strs(&export_args("p.concat.txt", "mp4", true, "p.mp4.tmp")),
        vec![
            "-hide_banner",
            "-loglevel",
            "error",
            "-nostdin",
            "-y",
            "-f",
            "concat",
            "-safe",
            "0",
            "-i",
            "p.concat.txt",
            "-vf",
            "scale='min(960,iw)':-2",
            "-c:v",
            "libx264",
            "-preset",
            "veryfast",
            "-crf",
            "30",
            "-pix_fmt",
            "yuv420p",
            "-movflags",
            "+faststart",
            "-f",
            "mp4",
            "p.mp4.tmp",
        ]
    );
}

#[test]
fn preview_encode_command() {
    assert_eq!(
        strs(&preview_encode_args("60.000000", "/tmp/f/frame_%06d.jpg", "preview.mp4.tmp")),
        vec![
            "-hide_banner",
            "-loglevel",
            "error",
            "-nostdin",
            "-y",
            "-framerate",
            "60.000000",
            "-start_number",
            "0",
            "-i",
            "/tmp/f/frame_%06d.jpg",
            "-vf",
            "scale='min(960,iw)':-2",
            "-c:v",
            "libx264",
            "-preset",
            "veryfast",
            "-crf",
            "30",
            "-pix_fmt",
            "yuv420p",
            "-movflags",
            "+faststart",
            "-f",
            "mp4",
            "preview.mp4.tmp",
        ]
    );
}

#[test]
fn escapes_single_quotes() {
    assert_eq!(escape_concat_path("/data/a.mp4"), "/data/a.mp4");
    assert_eq!(escape_concat_path("/data/it's.mp4"), "/data/it'\\''s.mp4");
    assert_eq!(escape_concat_path("''"), "'\\'''\\''");
    assert_eq!(escape_concat_path(""), "");
}

#[test]
fn concat_list_lines() {
    let paths = vec!["/d/a.mp4".to_string(), "/d/b'c.mp4".to_string()];
    assert_eq!(
        concat_list(&paths),
        "file '/d/a.mp4'\nfile '/d/b'\\''c.mp4'\n"
    );
    assert_eq!(concat_list(&Vec::new()), "");
}

#[test]
fn frame_names_are_zero_padded() {
    assert_eq!(frame_file_name(0), "frame_000000.jpg");
    assert_eq!(frame_file_name(7), "frame_000007.jpg");
    assert_eq!(frame_file_name(123456), "frame_123456.jpg");
    assert_eq!(frame_file_name(1234567), "frame_1234567.jpg");
    assert_eq!(frame_pattern(), "frame_%06d.jpg");
}

#[test]
fn preview_frames_are_numbered_without_gaps() {
    let mut frames = PreviewFrames::new();
    assert_eq!(frames.count(), 0);
    assert_eq!(frames.next_file_name(), "frame_000000.jpg");
    frames.record(true);
    assert_eq!(frames.next_file_name(), "frame_000001.jpg");
    frames.record(false);
    assert_eq!(frames.next_file_name(), "frame_000001.jpg");
    frames.record(true);
    assert_eq!(frames.count(), 2);
    assert_eq!(frames.next_file_name(), "frame_000002.jpg");
}

#[test]
fn segment_names() {
    let (tmp, done) = segment_file_names("0b0f3c9e-1111-4aaa-8bbb-222233334444");
    assert_eq!(tmp, "0b0f3c9e-1111-4aaa-8bbb-222233334444.tmp.mp4");
    assert_eq!(done, "0b0f3c9e-1111-4aaa-8bbb-222233334444.mp4");
}

#[test]
fn prefix_checks() {
    assert!(starts_with("rtsp://x", "rtsp://"));
    assert!(!starts_with("rtsp:/x", "rtsp://"));
    assert!(starts_with("abc", ""));
    assert!(!starts_with("", "a"));
}

#[test]
fn empty_segment_lists_are_refused() {
    assert!(require_segments(3, SegmentUse::Export).is_ok());
    assert_eq!(
        require_segments(0, SegmentUse::Export).unwrap_err(),
        "no captured segments are available to export"
    );
    assert_eq!(
        require_segments(0, SegmentUse::Preview).unwrap_err(),
        "no captured segments are available to preview"
    );
}

#[test]
fn previews_need_a_frame() {
    let mut frames = PreviewFrames::new();
    assert_eq!(
        frames.require_frames().unwrap_err(),
        "no valid video frames were available in the selected segments"
    );
    frames.record(false);
    assert!(frames.require_frames().is_err());
    frames.record(true);
    assert!(frames.require_frames().is_ok());
}
