use flowlapse::models::{ExportStatus, SourceKind, SourceStatus, TimelapseStatus};

#[test]
fn source_kind_names() {
    assert_eq!(SourceKind::Ffmpeg.as_str(), "ffmpeg");
    assert_eq!(SourceKind::Frigate.as_str(), "frigate");
    assert_eq!(SourceKind::File.as_str(), "file");
}

#[test]
fn source_kind_round_trips() {
    for kind in [SourceKind::Ffmpeg, SourceKind::Frigate, SourceKind::File] {
        assert_eq!(SourceKind::try_from(kind.as_str()).unwrap(), kind);
    }
}

#[test]
fn source_kind_rejects_unknown_text() {
    let err = SourceKind::try_from("webrtc").unwrap_err();
    assert_eq!(err, "unknown source kind: webrtc");
    assert_eq!(
        SourceKind::try_from("FFMPEG").unwrap_err(),
        "unknown source kind: FFMPEG"
    );
    assert_eq!(SourceKind::try_from("").unwrap_err(), "unknown source kind: ");
}

#[test]
fn source_status_names_and_round_trip() {
    assert_eq!(SourceStatus::Unknown.as_str(), "unknown");
    assert_eq!(SourceStatus::Healthy.as_str(), "healthy");
    assert_eq!(SourceStatus::Error.as_str(), "error");
    for status in [SourceStatus::Unknown, SourceStatus::Healthy, SourceStatus::Error] {
        assert_eq!(SourceStatus::try_from(status.as_str()).unwrap(), status);
    }
    assert_eq!(
        SourceStatus::try_from("sick").unwrap_err(),
        "unknown source status: sick"
    );
}

#[test]
fn timelapse_status_names_and_round_trip() {
    assert_eq!(TimelapseStatus::Stopped.as_str(), "stopped");
    assert_eq!(TimelapseStatus::Running.as_str(), "running");
    assert_eq!(TimelapseStatus::Error.as_str(), "error");
    for status in [
        TimelapseStatus::Stopped,
        TimelapseStatus::Running,
        TimelapseStatus::Error,
    ] {
        assert_eq!(TimelapseStatus::try_from(status.as_str()).unwrap(), status);
    }
    assert_eq!(
        TimelapseStatus::try_from("paused").unwrap_err(),
        "unknown timelapse status: paused"
    );
}

#[test]
fn export_status_names_and_round_trip() {
    assert_eq!(ExportStatus::Queued.as_str(), "queued");
    assert_eq!(ExportStatus::Running.as_str(), "running");
    assert_eq!(ExportStatus::Complete.as_str(), "complete");
    assert_eq!(ExportStatus::Error.as_str(), "error");
    for status in [
        ExportStatus::Queued,
        ExportStatus::Running,
        ExportStatus::Complete,
        ExportStatus::Error,
    ] {
        assert_eq!(ExportStatus::try_from(status.as_str()).unwrap(), status);
    }
    assert_eq!(
        ExportStatus::try_from("done").unwrap_err(),
        "unknown export status: done"
    );
}
