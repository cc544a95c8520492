use processforlinux::status::{
    format_duration, media_label, session_emoji, shorten, time_until_next_check, window_label, AppStatus,
    WindowStatus,
};
use processforlinux::text::{chars_of, joined, string_of, trimmed, word};

#[test]
fn durations() {
    assert_eq!(format_duration(0), "0秒");
    assert_eq!(format_duration(59), "59秒");
    assert_eq!(format_duration(60), "1分0秒");
    assert_eq!(format_duration(3599), "59分59秒");
    assert_eq!(format_duration(3661), "1时1分");
    assert_eq!(format_duration(90061), "25时1分");
}

#[test]
fn countdown() {
    assert_eq!(time_until_next_check(10_000, 4_500), 5);
    assert_eq!(time_until_next_check(4_500, 10_000), 0);
    assert_eq!(time_until_next_check(1_000, 1_000), 0);
    assert_eq!(time_until_next_check(i64::MAX, i64::MIN), 18446744073709551);
}

#[test]
fn labels() {
    assert_eq!(window_label(""), "无");
    assert_eq!(window_label("Chrome"), "Chrome");
    assert_eq!(window_label("abcdefghijklmnopqr"), "abcdefghijklmnopqr");
    assert_eq!(window_label("abcdefghijklmnopqrs"), "abcdefghijklmno...");
    assert_eq!(media_label("一二三四五六七八九十一二三四五六七八九十一二三"), "一二三四五六七八九十一二三四五六七八九...");
    assert_eq!(shorten("abc", 2, 1), "a...");
}

#[test]
fn emojis() {
    assert_eq!(WindowStatus::Success.emoji(), "✅");
    assert_eq!(WindowStatus::Failed("x".to_string()).emoji(), "❌");
    assert_eq!(WindowStatus::Checking.emoji(), "🔍");
    assert_eq!(session_emoji("wayland"), "W");
    assert_eq!(session_emoji("x11"), "X");
    assert_eq!(session_emoji("tty"), "?");
}

#[test]
fn starting_status() {
    let s = AppStatus::starting(77);
    assert_eq!(s.session_type, "检测中...");
    assert_eq!(s.current_window, "无");
    assert!(matches!(s.window_status, WindowStatus::Checking));
    assert_eq!(s.watch_interval, 5);
    assert_eq!(s.stats.start_ms, 77);
    assert_eq!(s.stats.total_checks, 0);
    assert!(s.last_error.is_none());
}

#[test]
fn text_helpers() {
    assert_eq!(string_of(&chars_of("añb")), "añb");
    assert_eq!(joined("ab", "cd"), "abcd");
    assert_eq!(string_of(&trimmed(&chars_of("\u{3000} x y \t"))), "x y");
    assert_eq!(string_of(&word(&chars_of("  a  bb\tccc "), 1)), "bb");
    assert_eq!(word(&chars_of("a b"), 2).len(), 0);
}
