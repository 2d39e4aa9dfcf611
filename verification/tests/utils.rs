use omaro::text::decimal_string;
use omaro::utils::{human_bytes, human_duration, trim_end, truncate};

const MINUTE: i64 = 60;
const HOUR: i64 = 60 * MINUTE;
const DAY: i64 = 24 * HOUR;

#[test]
fn test_truncate() {
    assert_eq!(truncate("abc", 0).chars().count(), 0);
    assert_eq!(truncate("abc", 1).chars().count(), 1);
    assert_eq!(truncate("abc", 2).chars().count(), 2);
    assert_eq!(truncate("abc", 3).chars().count(), 3);
    assert_eq!(truncate("abc", 5).chars().count(), 3);
    assert_eq!(
        truncate("alksdfaksldfklaslkfasfkskladfalk", 7)
            .chars()
            .count(),
        7
    );
    assert_eq!(
        truncate("alksdfaksldfklaslkfasfkskladfalklsdkfks", 18)
            .chars()
            .count(),
        18
    );
}

#[test]
fn test_human_bytes() {
    assert_eq!(human_bytes(0), String::from("0B"));
    assert_eq!(human_bytes(10), String::from("10B"));
    assert_eq!(human_bytes(1_000), String::from("1kB"));
    assert_eq!(human_bytes(9_999), String::from("9kB"));
    assert_eq!(human_bytes(999_999), String::from("999kB"));
    assert_eq!(human_bytes(1_000_000), String::from("1MB"));
    assert_eq!(human_bytes(8_200_000), String::from("8MB"));
    assert_eq!(human_bytes(175_500_000), String::from("175MB"));
    assert_eq!(human_bytes(1_000_000_000), String::from("1GB"));
    assert_eq!(human_bytes(2_000_000_000), String::from("2GB"));
}

#[test]
fn test_human_duration() {
    assert_eq!(human_duration(0), String::from("<1 min"));
    assert_eq!(human_duration(1), String::from("<1 min"));
    assert_eq!(human_duration(60), String::from("1 min"));
    assert_eq!(human_duration(2 * MINUTE), String::from("2 mins"));
    assert_eq!(human_duration(60 * MINUTE), String::from("1 hour"));
    assert_eq!(human_duration(61 * MINUTE), String::from("1 hour"));
    assert_eq!(human_duration(119 * MINUTE), String::from("1 hour"));
    assert_eq!(human_duration(2 * HOUR), String::from("2 hours"));
    assert_eq!(human_duration(17 * HOUR), String::from("17 hours"));
    assert_eq!(human_duration(24 * HOUR), String::from("24 hours"));
    assert_eq!(human_duration(36 * HOUR), String::from("36 hours"));
    assert_eq!(human_duration(48 * HOUR), String::from("2 days"));
    assert_eq!(human_duration(54 * HOUR), String::from("2 days"));
    assert_eq!(human_duration(71 * HOUR), String::from("2 days"));
    assert_eq!(human_duration(72 * HOUR), String::from("3 days"));
    assert_eq!(human_duration(80 * DAY), String::from("80 days"));
    assert_eq!(human_duration(300 * DAY), String::from("300 days"));
    assert_eq!(human_duration(600 * DAY), String::from("600 days"));
    assert_eq!(human_duration(729 * DAY), String::from("729 days"));
    assert_eq!(human_duration(730 * DAY), String::from("2 years"));
    assert_eq!(human_duration(800 * DAY), String::from("2 years"));
    assert_eq!(human_duration(1200 * DAY), String::from("3 years"));
}

#[test]
fn human_duration_edges() {
    assert_eq!(human_duration(-5), "<1 min");
    assert_eq!(human_duration(59), "<1 min");
    assert_eq!(human_duration(119), "1 min");
    assert_eq!(human_duration(120), "2 mins");
    assert_eq!(human_duration(3599), "59 mins");
    assert_eq!(human_duration(7199), "1 hour");
    assert_eq!(human_duration(2 * DAY - 1), "47 hours");
    assert_eq!(human_duration(i64::MAX), format!("{} years", i64::MAX / DAY / 365));
}

#[test]
fn human_bytes_edges() {
    assert_eq!(human_bytes(999), "999B");
    assert_eq!(human_bytes(999_999_999), "999MB");
    assert_eq!(human_bytes(u32::MAX), "4GB");
}

#[test]
fn truncate_marks_the_cut() {
    assert_eq!(truncate("abcdef", 4), "abc\u{2014}");
    assert_eq!(truncate("abcdef", 6), "abcdef");
    assert_eq!(truncate("abcdef", 0), "");
    assert_eq!(truncate("abcdef", 1), "a");
    assert_eq!(truncate("", 0), "");
    assert_eq!(truncate("", 1), "");
    assert_eq!(truncate("", 3), "");
    assert_eq!(truncate("\u{e9}t\u{e9}", 1), "\u{e9}");
    assert_eq!(truncate("\u{e9}t\u{e9}", 2), "\u{e9}\u{2014}");
    // White space before the cut goes
    assert_eq!(truncate("ab   cdef", 5), "ab\u{2014}");
    assert_eq!(truncate("ab \t\u{a0}cdef", 6), "ab\u{2014}");
    // Characters are counted, not bytes
    assert_eq!(truncate("h\u{e9}llo w\u{f6}rld", 4), "h\u{e9}l\u{2014}");
}

#[test]
fn trim_end_takes_only_trailing_white_space() {
    assert_eq!(trim_end("  a b  \n"), "  a b");
    assert_eq!(trim_end("   "), "");
    assert_eq!(trim_end(""), "");
    assert_eq!(trim_end("abc"), "abc");
    assert_eq!(trim_end("abc\u{2003}"), "abc");
}

#[test]
fn decimal_numerals() {
    assert_eq!(decimal_string(0), "0");
    assert_eq!(decimal_string(9), "9");
    assert_eq!(decimal_string(10), "10");
    assert_eq!(decimal_string(1234567890), "1234567890");
    assert_eq!(decimal_string(u64::MAX), "18446744073709551615");
}
