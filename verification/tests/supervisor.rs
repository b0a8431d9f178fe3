use oscbot::locator::{FileEntry, LocatorConfig};
use oscbot::logtail::StreamTag;
use oscbot::supervisor::{
    render_arguments, ExitReport, Next, Phase, Reaction, RenderOutcome, Supervisor,
};

const SECOND: u64 = 1_000_000_000;
const T0: u64 = 1_700_000_000 * SECOND;
const MB: u64 = 1024 * 1024;
const HEAD: &str =
    "Video could not be rendered (danser-cli did not report output path). exit status: ";

fn failure_of(r: &Reaction) -> String {
    match &r.next {
        Next::Finish { outcome: RenderOutcome::Failed { message }, reap } => {
            assert!(!*reap);
            message.clone()
        }
        other => panic!("expected a failure, got {:?}", other),
    }
}

fn video_of(r: &Reaction) -> (String, bool) {
    match &r.next {
        Next::Finish { outcome: RenderOutcome::Rendered { path }, reap } => (path.clone(), *reap),
        other => panic!("expected a video, got {:?}", other),
    }
}

#[test]
fn arguments_without_skin() {
    assert_eq!(
        render_arguments("/danser/Replays/h/r.osr", None),
        vec!["-replay", "/danser/Replays/h/r.osr", "-record"]
    );
}

#[test]
fn arguments_with_skin() {
    assert_eq!(
        render_arguments("/danser/Replays/h/r.osr", Some(4711)),
        vec!["-replay", "/danser/Replays/h/r.osr", "-record", "-skin", "4711"]
    );
}

#[test]
fn new_run_is_spawned() {
    let s = Supervisor::new(T0);
    assert_eq!(s.phase, Phase::Spawned);
    assert_eq!(s.started_at, T0);
    assert!(!s.closed);
    assert_eq!(s.exit, None);
    assert!(!s.is_finished());
    assert_eq!(s.tail.len(), 0);
}

#[test]
fn plain_line_is_retained_and_reading_goes_on() {
    let mut s = Supervisor::new(T0);
    let r = s.on_line(StreamTag::Stderr, "loading beatmap");
    assert_eq!(r, Reaction { progress: None, next: Next::Continue });
    assert_eq!(s.phase, Phase::Running);
    assert_eq!(s.tail.entries(), vec!["[stderr] loading beatmap"]);
}

#[test]
fn progress_line_hands_back_its_token() {
    let mut s = Supervisor::new(T0);
    let r = s.on_line(StreamTag::Stdout, "12:00:01 Progress: 45% ETA 10s");
    assert_eq!(r, Reaction { progress: Some("45%".to_string()), next: Next::Continue });
    assert_eq!(s.phase, Phase::Running);
}

#[test]
fn completion_marker_ends_the_run_and_asks_to_reap() {
    let mut s = Supervisor::new(T0);
    s.on_line(StreamTag::Stdout, "Progress: 100%");
    let r = s.on_line(StreamTag::Stdout, "Video is available at: D:\\danser\\videos\\out.mp4");
    assert_eq!(video_of(&r), ("D:/danser/videos/out.mp4".to_string(), true));
    assert_eq!(r.progress, None);
    assert_eq!(s.phase, Phase::ExplicitComplete);
    assert!(s.is_finished());
}

#[test]
fn completion_marker_after_exit_needs_no_reaping() {
    let mut s = Supervisor::new(T0);
    assert_eq!(s.on_exit(ExitReport::Code(1)).next, Next::Continue);
    let r = s.on_line(StreamTag::Stdout, "Video is available at: /v/out.mp4");
    assert_eq!(video_of(&r), ("/v/out.mp4".to_string(), false));
    assert_eq!(s.phase, Phase::ExplicitComplete);
}

#[test]
fn line_with_both_markers_reports_both() {
    let mut s = Supervisor::new(T0);
    let r = s.on_line(StreamTag::Stdout, "Progress: 100% Video is available at: /v/out.mp4");
    assert_eq!(r.progress, Some("100%".to_string()));
    assert_eq!(video_of(&r).0, "/v/out.mp4");
}

#[test]
fn exit_first_then_output_is_drained() {
    let mut s = Supervisor::new(T0);
    let r = s.on_exit(ExitReport::Code(0));
    assert_eq!(r, Reaction { progress: None, next: Next::Continue });
    let r = s.on_line(StreamTag::Stdout, "Progress: 99%");
    assert_eq!(r.progress, Some("99%".to_string()));
    let r = s.on_closed();
    assert_eq!(r, Reaction { progress: None, next: Next::Scan });
    assert_eq!(s.phase, Phase::Locating);
}

#[test]
fn end_of_output_first_then_process_is_awaited() {
    let mut s = Supervisor::new(T0);
    s.on_line(StreamTag::Stdout, "working");
    let r = s.on_closed();
    assert_eq!(r, Reaction { progress: None, next: Next::AwaitExit });
    assert_eq!(s.phase, Phase::Running);
    let r = s.on_exit(ExitReport::Code(0));
    assert_eq!(r.next, Next::Scan);
    assert_eq!(s.phase, Phase::Locating);
}

#[test]
fn successful_exit_without_marker_falls_back_to_the_directory() {
    let mut s = Supervisor::new(T0);
    s.on_line(StreamTag::Stdout, "Progress: 100%");
    s.on_exit(ExitReport::Code(0));
    assert_eq!(s.on_closed().next, Next::Scan);
    let entries = vec![FileEntry {
        path: "videos/danser_xyz.mp4".to_string(),
        name: "danser_xyz.mp4".to_string(),
        modified: T0 + 30 * SECOND,
        size: 3 * MB,
    }];
    let r = s.on_scan(&entries, &LocatorConfig::standard());
    assert_eq!(video_of(&r), ("videos/danser_xyz.mp4".to_string(), false));
    assert_eq!(s.phase, Phase::FallbackComplete);
    assert!(s.is_finished());
}

#[test]
fn fallback_without_video_fails() {
    let mut s = Supervisor::new(T0);
    s.on_line(StreamTag::Stdout, "done?");
    s.on_exit(ExitReport::Code(0));
    s.on_closed();
    let entries = vec![FileEntry {
        path: "videos/other.mp4".to_string(),
        name: "other.mp4".to_string(),
        modified: T0 + SECOND,
        size: 3 * MB,
    }];
    let r = s.on_scan(&entries, &LocatorConfig::standard());
    assert_eq!(failure_of(&r), format!("{}0. Recent output:\n[stdout] done?\n", HEAD));
    assert_eq!(s.phase, Phase::Failed);
}

#[test]
fn failing_exit_reports_status_and_output() {
    let mut s = Supervisor::new(T0);
    s.on_line(StreamTag::Stdout, "Progress: 3%");
    s.on_line(StreamTag::Stderr, "panic: out of memory");
    s.on_closed();
    let r = s.on_exit(ExitReport::Code(2));
    assert_eq!(
        failure_of(&r),
        format!("{}2. Recent output:\n[stdout] Progress: 3%\n[stderr] panic: out of memory\n", HEAD)
    );
    assert_eq!(s.phase, Phase::Failed);
    assert!(s.is_finished());
}

#[test]
fn failure_holds_the_last_eighty_lines_verbatim() {
    let mut s = Supervisor::new(T0);
    for i in 0..100 {
        s.on_line(StreamTag::Stdout, &format!("line {}", i));
    }
    s.on_closed();
    let r = s.on_exit(ExitReport::Code(-1));
    let mut expected = format!("{}-1. Recent output:\n", HEAD);
    for i in 20..100 {
        expected.push_str(&format!("[stdout] line {}\n", i));
    }
    assert_eq!(failure_of(&r), expected);
}

#[test]
fn exit_without_code_and_failed_wait_are_named() {
    let mut s = Supervisor::new(T0);
    s.on_closed();
    let r = s.on_exit(ExitReport::Signal);
    assert_eq!(failure_of(&r), format!("{}signal. Recent output:\n", HEAD));
    let mut s = Supervisor::new(T0);
    s.on_closed();
    let r = s.on_exit(ExitReport::Unknown);
    assert_eq!(failure_of(&r), format!("{}unknown. Recent output:\n", HEAD));
}

#[test]
fn diagnostic_before_exit_says_unknown() {
    let mut s = Supervisor::new(T0);
    s.on_line(StreamTag::Stdout, "a");
    assert_eq!(s.diagnostic(), format!("{}unknown. Recent output:\n[stdout] a\n", HEAD));
}

#[test]
fn finished_run_ignores_everything() {
    let mut s = Supervisor::new(T0);
    s.on_line(StreamTag::Stdout, "Video is available at: /v/out.mp4");
    let stop = Reaction { progress: None, next: Next::Stop };
    assert_eq!(s.on_line(StreamTag::Stdout, "Progress: 50%"), stop);
    assert_eq!(s.on_exit(ExitReport::Code(0)), stop);
    assert_eq!(s.on_closed(), stop);
    assert_eq!(s.on_scan(&Vec::new(), &LocatorConfig::standard()), stop);
    assert_eq!(s.phase, Phase::ExplicitComplete);
    assert_eq!(s.exit, None);
    assert!(!s.closed);
    assert_eq!(s.tail.len(), 1);
}

#[test]
fn repeated_and_early_observations_change_nothing() {
    let mut s = Supervisor::new(T0);
    assert_eq!(
        s.on_scan(&Vec::new(), &LocatorConfig::standard()),
        Reaction { progress: None, next: Next::Continue }
    );
    assert_eq!(s.phase, Phase::Spawned);
    s.on_exit(ExitReport::Code(0));
    assert_eq!(s.on_exit(ExitReport::Code(7)).next, Next::Continue);
    assert_eq!(s.exit, Some(ExitReport::Code(0)));
    s.on_closed();
    assert_eq!(s.phase, Phase::Locating);
    assert_eq!(s.on_closed().next, Next::Scan);
    assert_eq!(s.on_line(StreamTag::Stdout, "late").next, Next::Scan);
    assert_eq!(s.tail.len(), 0);
}
