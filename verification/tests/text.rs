use ampterm::strings::{dec_string, file_size_string, hms_string, pad2_string};
use ampterm::components::home::mainscreen::nowplaying::playing::unsynced::Unsynced;
use ampterm::components::home::mainscreen::nowplaying::playing::{gen_label, gen_percent};

#[test]
fn decimal_rendering() {
    assert_eq!(dec_string(0), "0");
    assert_eq!(dec_string(7), "7");
    assert_eq!(dec_string(305), "305");
    assert_eq!(dec_string(u64::MAX), u64::MAX.to_string());
    assert_eq!(pad2_string(5), "05");
    assert_eq!(pad2_string(42), "42");
    assert_eq!(pad2_string(123), "123");
}

#[test]
fn durations() {
    assert_eq!(hms_string(0), "00:00");
    assert_eq!(hms_string(75), "01:15");
    assert_eq!(hms_string(3600), "60:00");
    assert_eq!(hms_string(3725), "01:02:05");
}

#[test]
fn file_sizes() {
    assert_eq!(file_size_string(999), "999 Bytes");
    assert_eq!(file_size_string(1000), "1 KB");
    assert_eq!(file_size_string(2_500_000), "2 MB");
    assert_eq!(file_size_string(3_999_999_999), "3 GB");
    assert_eq!(file_size_string(1_000_000_000_000), "Really big");
}

#[test]
fn lines_of_lyrics() {
    let u = Unsynced::new("a\r\nb\n\nc\r".to_string());
    assert_eq!(u.lines, vec!["a", "b", "", "c\r"]);
    let v = Unsynced::new("one\ntwo\n".to_string());
    assert_eq!(v.lines, vec!["one", "two"]);
    assert!(Unsynced::new(String::new()).lines.is_empty());
}

#[test]
fn progress_label_and_gauge() {
    assert_eq!(gen_label(65, true, Some(200)), "01:05 ▶ 03:20");
    assert_eq!(gen_label(5, false, None), "00:05 ⏸ ??:??");
    assert_eq!(gen_label(5, false, Some(0)), "00:05 ⏸ 00:00");
    assert_eq!(gen_percent(50, Some(200)), Some(25));
    assert_eq!(gen_percent(300, Some(200)), Some(100));
    assert_eq!(gen_percent(10, Some(0)), None);
    assert_eq!(gen_percent(10, None), None);
    // The percentage is kept to 16 bits before it is capped.
    assert_eq!(gen_percent(65586, Some(100)), Some(50));
}
