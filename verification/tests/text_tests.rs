use fluster_session::text::{bytes_contain, decimal_text, text_contains};

#[test]
fn decimal_numerals() {
    assert_eq!(decimal_text(0), "0");
    assert_eq!(decimal_text(7), "7");
    assert_eq!(decimal_text(10), "10");
    assert_eq!(decimal_text(65_535), "65535");
    assert_eq!(decimal_text(1_000_000), "1000000");
    assert_eq!(decimal_text(u64::MAX), "18446744073709551615");
}

#[test]
fn decimal_numerals_agree_with_the_standard_library() {
    let mut n: u64 = 0;
    while n < 20_000 {
        assert_eq!(decimal_text(n), n.to_string());
        assert_eq!(decimal_text(u64::MAX - n), (u64::MAX - n).to_string());
        n += 1;
    }
}

#[test]
fn empty_needle_is_found_everywhere() {
    assert!(bytes_contain(b"", b""));
    assert!(bytes_contain(b"abc", b""));
}

#[test]
fn needle_longer_than_hay_is_not_found() {
    assert!(!bytes_contain(b"ab", b"abc"));
    assert!(!bytes_contain(b"", b"a"));
}

#[test]
fn needle_at_either_end_and_in_the_middle() {
    assert!(bytes_contain(b"abcdef", b"abc"));
    assert!(bytes_contain(b"abcdef", b"def"));
    assert!(bytes_contain(b"abcdef", b"cd"));
    assert!(bytes_contain(b"abcdef", b"abcdef"));
    assert!(!bytes_contain(b"abcdef", b"abd"));
    assert!(!bytes_contain(b"abcdef", b"fe"));
}

#[test]
fn partial_matches_do_not_hide_a_later_match() {
    assert!(bytes_contain(b"aaab", b"aab"));
    assert!(bytes_contain(b"abababc", b"ababc"));
    assert!(!bytes_contain(b"ababab", b"ababc"));
}

#[test]
fn text_search_agrees_with_the_standard_library() {
    let hays = ["", "a", "Roblox", "xRobloxy", "Robl\u{00e9}ox", "\u{4e16}\u{754c}Roblox", "RoblRoblo"];
    let needles = ["", "a", "Roblox", "ox", "\u{00e9}", "\u{754c}R", "x"];
    for hay in hays {
        for needle in needles {
            assert_eq!(text_contains(hay, needle), hay.contains(needle), "{:?} in {:?}", needle, hay);
        }
    }
}
