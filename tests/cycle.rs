use processforlinux::cycle::{
    is_heartbeat_due, run_cycle, same_media, CycleOutcome, LoopState, MediaMetadata, HEARTBEAT_SECS,
};
use processforlinux::enrich::get_extend_info;
use processforlinux::payload::{payload_shape, should_send, PayloadShape};
use processforlinux::probe::{classify, failure, ProbeErrorKind};

fn media(title: &str) -> MediaMetadata {
    MediaMetadata { title: Some(title.to_string()), artist: Some("Artist".to_string()), thumbnail: None }
}

#[test]
fn chrome_end_to_end() {
    let name = classify("google-chrome");
    assert_eq!(name, "Chrome");
    let mut state = LoopState::new(1_000);
    match run_cycle(&mut state, Ok(name), MediaMetadata::empty(), 2_000) {
        CycleOutcome::Report(r) => {
            assert_eq!(r.process_name, "Chrome");
            assert_eq!(r.media_title, "");
            assert_eq!(r.media_artist, "");
            assert_eq!(r.media_thumbnail, "");
            assert_eq!(r.extend, get_extend_info("Chrome"));
            assert_eq!(r.extend, "Lighthouse跑分专用浏览器，只要关掉插件，我的网站就天下第一");
        },
        other => panic!("unexpected {:?}", other),
    }
    assert_eq!(state.previous_process, "Chrome");
    assert_eq!(state.last_report_ms, 2_000);
}

#[test]
fn unchanged_observation_is_quiet_until_heartbeat() {
    let mut state = LoopState::new(0);
    assert!(matches!(run_cycle(&mut state, Ok("Code".to_string()), media("Song"), 1_000), CycleOutcome::Report(_)));
    for now in [5_000, 10_000, 21_999] {
        assert!(matches!(
            run_cycle(&mut state, Ok("Code".to_string()), media("Song"), now),
            CycleOutcome::Unchanged
        ));
        assert_eq!(state.last_report_ms, 1_000);
    }
    match run_cycle(&mut state, Ok("Code".to_string()), media("Song"), 22_000) {
        CycleOutcome::Report(r) => {
            assert_eq!(r.process_name, "Code");
            assert_eq!(r.media_title, "Song");
            assert_eq!(r.media_artist, "Artist");
            assert_eq!(r.media_thumbnail, "");
        },
        other => panic!("unexpected {:?}", other),
    }
    assert_eq!(state.last_report_ms, 22_000);
    assert!(matches!(
        run_cycle(&mut state, Ok("Code".to_string()), media("Song"), 27_000),
        CycleOutcome::Unchanged
    ));
}

#[test]
fn media_change_alone_reports() {
    let mut state = LoopState::new(0);
    run_cycle(&mut state, Ok("Spotify".to_string()), media("One"), 1_000);
    assert!(matches!(
        run_cycle(&mut state, Ok("Spotify".to_string()), media("Two"), 2_000),
        CycleOutcome::Report(_)
    ));
    assert_eq!(state.previous_media.title, Some("Two".to_string()));
}

#[test]
fn window_change_reports() {
    let mut state = LoopState::new(0);
    run_cycle(&mut state, Ok("Code".to_string()), MediaMetadata::empty(), 1_000);
    assert!(matches!(
        run_cycle(&mut state, Ok("Firefox".to_string()), MediaMetadata::empty(), 2_000),
        CycleOutcome::Report(_)
    ));
}

#[test]
fn empty_start_is_quiet() {
    let mut state = LoopState::new(0);
    assert!(matches!(
        run_cycle(&mut state, Ok(String::new()), MediaMetadata::empty(), 5_000),
        CycleOutcome::Unchanged
    ));
}

#[test]
fn failed_probe_abandons_cycle() {
    let mut state = LoopState::new(0);
    let out = run_cycle(&mut state, Err(failure(ProbeErrorKind::NoControlTool)), media("X"), 60_000);
    assert!(matches!(out, CycleOutcome::Abandoned(ref e) if e.kind == ProbeErrorKind::NoControlTool));
    assert_eq!(state.last_report_ms, 0);
    assert_eq!(state.previous_process, "");
    assert_eq!(state.previous_media.title, None);
}

#[test]
fn heartbeat_counts_whole_seconds() {
    assert_eq!(HEARTBEAT_SECS, 20);
    assert!(!is_heartbeat_due(0, 20_999));
    assert!(is_heartbeat_due(0, 21_000));
    assert!(!is_heartbeat_due(10_000, 0));
    assert!(is_heartbeat_due(i64::MIN, i64::MAX));
    assert!(!is_heartbeat_due(i64::MAX, i64::MIN));
}

#[test]
fn media_comparison() {
    assert!(same_media(&media("A"), &media("A")));
    assert!(!same_media(&media("A"), &media("B")));
    assert!(!same_media(&media("A"), &MediaMetadata::empty()));
}

#[test]
fn payload_decisions() {
    assert_eq!(payload_shape("None"), PayloadShape::ProcessOnly);
    assert_eq!(payload_shape(""), PayloadShape::WithMedia);
    assert_eq!(payload_shape("Song"), PayloadShape::WithMedia);
    assert!(!should_send("None"));
    assert!(should_send(""));
    assert!(should_send("Chrome"));
}
