use whenthen::text::{
    contains_text, ends_with, find_chars, from_chars, parse_decimal, parse_u16, parse_u32,
    parse_u64, replace_all, same_text, starts_with, to_chars, trim_bounds,
};

#[test]
fn decimals_read_as_the_standard_library_reads_them() {
    let cases = [
        "", "+", "-", "0", "+0", "+5", "05", "000", "42", "-1", "1a", "a1", " 1", "1 ", "++1",
        "1+", "65535", "65536", "4294967295", "4294967296", "18446744073709551615",
        "18446744073709551616", "99999999999999999999999", "1_000", "١٢",
    ];
    for c in cases {
        assert_eq!(parse_u64(c), c.parse::<u64>().ok(), "u64 {:?}", c);
        assert_eq!(parse_u32(c), c.parse::<u32>().ok(), "u32 {:?}", c);
        assert_eq!(parse_u16(c), c.parse::<u16>().ok(), "u16 {:?}", c);
    }
    assert_eq!(parse_u64("18446744073709551615"), Some(u64::MAX));
    assert_eq!(parse_decimal("10", 9), None);
    assert_eq!(parse_decimal("9", 9), Some(9));
    assert_eq!(parse_decimal("0", 0), Some(0));
    assert_eq!(parse_decimal("1", 0), None);
}

#[test]
fn replacing_works_as_the_standard_library_does() {
    let cases = [
        ("hello {name}", "{name}", "World"),
        ("aaa", "aa", "b"),
        ("aaaa", "aa", "b"),
        ("abc", "", "-"),
        ("", "", "-"),
        ("", "x", "y"),
        ("abc", "abc", ""),
        ("abcabc", "bc", "bcbc"),
        ("a.b.c", ".", ""),
        ("x\r\ny\r", "\r", ""),
        ("no match", "zz", "y"),
        ("ünï", "n", "ñ"),
    ];
    for (s, from, to) in cases {
        assert_eq!(replace_all(s, from, to), s.replace(from, to), "{:?}", (s, from, to));
    }
    assert_eq!(replace_all("abc", "", "-"), "-a-b-c-");
    assert_eq!(replace_all("aaa", "aa", "b"), "ba");
}

#[test]
fn searching_counts_characters() {
    let hay = to_chars("ünïcode text");
    assert_eq!(hay.len(), 12);
    assert_eq!(find_chars(&hay, &to_chars("code")), Some(3));
    assert_eq!(find_chars(&hay, &to_chars("")), Some(0));
    assert_eq!(find_chars(&hay, &to_chars("zz")), None);
    assert_eq!(from_chars(&hay, 3, 7), "code");
    assert!(contains_text("abc", "bc") && !contains_text("abc", "cb") && contains_text("", ""));
    assert!(starts_with("magnet:?x", "magnet:") && !starts_with("mag", "magnet:"));
    assert!(ends_with("a.torrent", ".torrent") && !ends_with("t", ".torrent"));
    assert!(same_text("a", "a") && !same_text("a", "A"));
}

#[test]
fn trimming_removes_unicode_whitespace() {
    let v = to_chars(" \t\u{a0}a b\u{3000}\n");
    assert_eq!(trim_bounds(&v, 0, v.len()), (3, 6));
    let blank = to_chars(" \n ");
    let (a, b) = trim_bounds(&blank, 0, blank.len());
    assert_eq!(a, b);
    assert_eq!(trim_bounds(&v, 4, 5), (5, 5));
}
