use flowlapse::api::{
    resolve_export_format, validate_create_source, validate_timelapse_name, ApiError,
    BAD_REQUEST, INTERNAL_SERVER_ERROR, NOT_FOUND,
};
use flowlapse::config::ConfigError;
use flowlapse::models::{CreateExportRequest, CreateSourceRequest, SourceKind};

fn request(name: &str, url: &str) -> CreateSourceRequest {
    CreateSourceRequest {
        name: name.to_string(),
        kind: SourceKind::Ffmpeg,
        url: url.to_string(),
        rtsp_transport: Some("udp".to_string()),
    }
}

#[test]
fn error_statuses() {
    let e = ApiError::bad_request("nope".to_string());
    assert_eq!(e.status(), 400);
    assert_eq!(e.message(), "nope");
    assert_eq!(ApiError::not_found("gone".to_string()).status(), NOT_FOUND);
    assert_eq!(ApiError::internal("boom".to_string()).status(), INTERNAL_SERVER_ERROR);
    let e = ApiError::from_error(&anyhow::Error::msg("disk full"));
    assert_eq!(e.status(), 500);
    assert_eq!(e.message(), "disk full");
}

#[test]
fn config_errors_are_bad_requests() {
    let e = ApiError::from_config_error(ConfigError::MissingWindow);
    assert_eq!(e.status(), BAD_REQUEST);
    assert_eq!(e.message(), "window_secs is required and must be positive");
    let e = ApiError::from_config_error(ConfigError::Invalid("frame_count must be positive".to_string()));
    assert_eq!(e.message(), "frame_count must be positive");
}

#[test]
fn source_requests_are_trimmed() {
    let ok = validate_create_source(request("  Test pattern \t", " lavfi:testsrc2 \n")).unwrap();
    assert_eq!(ok.name, "Test pattern");
    assert_eq!(ok.url, "lavfi:testsrc2");
    assert_eq!(ok.kind, SourceKind::Ffmpeg);
    assert_eq!(ok.rtsp_transport.as_deref(), Some("udp"));
}

#[test]
fn source_requests_need_name_and_url() {
    let e = validate_create_source(request(" \u{3000} ", "rtsp://x")).unwrap_err();
    assert_eq!(e.status(), 400);
    assert_eq!(e.message(), "source name is required");
    let e = validate_create_source(request("", "")).unwrap_err();
    assert_eq!(e.message(), "source name is required");
    let e = validate_create_source(request("cam", "\u{a0}")).unwrap_err();
    assert_eq!(e.message(), "source URL is required");
}

#[test]
fn timelapse_names() {
    assert_eq!(validate_timelapse_name(" Test pattern 60s ").unwrap(), "Test pattern 60s");
    let e = validate_timelapse_name("\n\t ").unwrap_err();
    assert_eq!(e.status(), 400);
    assert_eq!(e.message(), "timelapse name is required");
}

#[test]
fn export_formats() {
    assert_eq!(
        resolve_export_format(CreateExportRequest { format: None }).unwrap(),
        "mp4"
    );
    assert_eq!(
        resolve_export_format(CreateExportRequest {
            format: Some("mp4".to_string())
        })
        .unwrap(),
        "mp4"
    );
    let e = resolve_export_format(CreateExportRequest {
        format: Some("webm".to_string()),
    })
    .unwrap_err();
    assert_eq!(e.status(), 400);
    assert_eq!(e.message(), "only mp4 exports are currently supported");
}
