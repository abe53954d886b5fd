use flowlapse::workers::{
    capture_step, export_file_name_with_id, name_slug, retention_secs,
    tail_segments, CaptureAction, CaptureEvent, CapturePhase, JobRegistry, WallSpan,
    PREVIEW_SEGMENT_LIMIT,
};

#[test]
fn registry_starts_each_job_once() {
    let mut jobs: JobRegistry<&str> = JobRegistry::new();
    assert!(!jobs.is_running(1));
    assert!(jobs.start_job(1, "first"));
    assert!(jobs.is_running(1));
    assert!(!jobs.start_job(1, "second"));
    assert_eq!(jobs.stop_job(1), Some("first"));
    assert!(!jobs.is_running(1));
    assert_eq!(jobs.stop_job(1), None);
}

#[test]
fn registry_keeps_jobs_apart() {
    let mut jobs: JobRegistry<u32> = JobRegistry::new();
    assert!(jobs.start_job(10, 100));
    assert!(jobs.start_job(u128::MAX, 200));
    assert_eq!(jobs.stop_job(10), Some(100));
    assert!(jobs.is_running(u128::MAX));
}

#[test]
fn rolling_capture_loop() {
    let (p, a) = capture_step(
        CapturePhase::Ready,
        true,
        CaptureEvent::Tick {
            stop_requested: false,
        },
    );
    assert_eq!(p, CapturePhase::Capturing);
    assert_eq!(
        a,
        CaptureAction::Capture {
            span: WallSpan::Segment
        }
    );
    let (p, a) = capture_step(p, true, CaptureEvent::CaptureSucceeded);
    assert_eq!(p, CapturePhase::Ready);
    assert_eq!(a, CaptureAction::RecordPruneAndContinue);
    let (p, a) = capture_step(
        p,
        true,
        CaptureEvent::Tick {
            stop_requested: false,
        },
    );
    let (p, a2) = capture_step(p, true, CaptureEvent::CaptureFailed);
    assert_eq!(
        a,
        CaptureAction::Capture {
            span: WallSpan::Segment
        }
    );
    assert_eq!(a2, CaptureAction::ReportFailureAndRetry);
    assert_eq!(p, CapturePhase::Ready);
    let (p, a) = capture_step(
        p,
        true,
        CaptureEvent::Tick {
            stop_requested: true,
        },
    );
    assert_eq!(p, CapturePhase::Finished);
    assert_eq!(a, CaptureAction::MarkStoppedAndFinish);
    let (p, a) = capture_step(
        p,
        true,
        CaptureEvent::Tick {
            stop_requested: false,
        },
    );
    assert_eq!(p, CapturePhase::Finished);
    assert_eq!(a, CaptureAction::Ignore);
}

#[test]
fn one_shot_capture_loop() {
    let (p, a) = capture_step(
        CapturePhase::Ready,
        false,
        CaptureEvent::Tick {
            stop_requested: false,
        },
    );
    assert_eq!(
        a,
        CaptureAction::Capture {
            span: WallSpan::Window
        }
    );
    let (p, a) = capture_step(p, false, CaptureEvent::CaptureSucceeded);
    assert_eq!(p, CapturePhase::Finished);
    assert_eq!(a, CaptureAction::RecordAndFinish);
}

#[test]
fn out_of_order_events_are_ignored() {
    let (p, a) = capture_step(CapturePhase::Ready, true, CaptureEvent::CaptureSucceeded);
    assert_eq!(p, CapturePhase::Ready);
    assert_eq!(a, CaptureAction::Ignore);
    let (p, a) = capture_step(
        CapturePhase::Capturing,
        true,
        CaptureEvent::Tick {
            stop_requested: true,
        },
    );
    assert_eq!(p, CapturePhase::Capturing);
    assert_eq!(a, CaptureAction::Ignore);
}

#[test]
fn retention_is_window_plus_one_segment() {
    assert_eq!(retention_secs(86_400, 300), 86_700);
    assert_eq!(retention_secs(60, 10), 70);
}

#[test]
fn tail_keeps_newest_segments() {
    let all: Vec<u32> = (0..20).collect();
    let kept = tail_segments(all, PREVIEW_SEGMENT_LIMIT);
    assert_eq!(kept, (8..20).collect::<Vec<u32>>());
    assert_eq!(tail_segments(vec![1, 2, 3], 12), vec![1, 2, 3]);
    assert_eq!(tail_segments(vec![1, 2, 3], 0), Vec::<i32>::new());
    assert_eq!(PREVIEW_SEGMENT_LIMIT, 12);
}

#[test]
fn slugs() {
    assert_eq!(name_slug("Test pattern 60s"), "test-pattern-60s");
    assert_eq!(name_slug("  Garden Cam!  "), "garden-cam");
    assert_eq!(name_slug("Été à Paris"), "t----paris");
    assert_eq!(name_slug("!!!"), "timelapse");
    assert_eq!(name_slug(""), "timelapse");
    assert_eq!(name_slug("a--b"), "a--b");
    let once = name_slug("--Front Door (North)--");
    assert_eq!(once, "front-door--north");
    assert_eq!(name_slug(&once), once);
}

#[test]
fn export_names() {
    assert_eq!(
        export_file_name_with_id("Test pattern", "0b0f3c9e-1111-4aaa-8bbb-222233334444", "mp4"),
        "test-pattern-0b0f3c9e-1111-4aaa-8bbb-222233334444.mp4"
    );
    assert_eq!(
        export_file_name_with_id("!!!", "abc", "mov"),
        "timelapse-abc.mov"
    );
}
