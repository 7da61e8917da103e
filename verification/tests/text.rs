use stock_control::text::{char_is_whitespace, decimal, is_blank, parse_u32, trim_end};

#[test]
fn whitespace_is_what_the_standard_library_calls_whitespace() {
    for code in 0u32..=0x10FFFF {
        if let Some(c) = char::from_u32(code) {
            assert_eq!(char_is_whitespace(c), c.is_whitespace(), "U+{:04X}", code);
        }
    }
}

#[test]
fn blank_means_empty_after_trimming() {
    let samples = [
        "", " ", "\t", "\n\r ", "a", " a", "a ", " a ", "\u{a0}", "\u{2003}\u{3000}", "\u{200b}",
        "_", "\u{85}\u{1680}", "  .  ", "\u{feff}",
    ];
    for s in samples {
        assert_eq!(is_blank(s), s.trim().is_empty(), "{:?}", s);
    }
    assert!(is_blank(""));
    assert!(is_blank(" \t\n"));
    assert!(!is_blank(" x "));
    assert!(!is_blank("\u{200b}"));
}

#[test]
fn trim_end_cuts_trailing_whitespace_only() {
    let samples = [
        "", " ", "abc", "abc  ", "  abc", "  abc \n\t", "a b \u{a0}\u{3000}", "\n", "x\n",
        "line one\nline two\n", "tab\there\t", "é\u{2009}",
    ];
    for s in samples {
        assert_eq!(trim_end(s), s.trim_end(), "{:?}", s);
    }
    assert_eq!(trim_end("  a b \n "), "  a b");
    assert_eq!(trim_end(" \n "), "");
}

#[test]
fn decimal_writes_numbers_as_the_standard_library_does() {
    let samples: [u64; 14] = [
        0, 1, 9, 10, 11, 99, 100, 101, 12345, 4294967295, 4294967296, 1000000000000,
        u64::MAX - 1, u64::MAX,
    ];
    for n in samples {
        assert_eq!(decimal(n), n.to_string());
    }
    assert_eq!(decimal(0), "0");
    assert_eq!(decimal(1050), "1050");
    assert_eq!(decimal(u64::MAX), "18446744073709551615");
}

#[test]
fn numbers_are_read_as_the_standard_library_reads_them() {
    let samples = [
        "", "0", "00", "007", "1", "42", "+42", "-42", "+", "-", "++1", "+-1", "4294967295",
        "4294967296", "04294967295", "99999999999999999999", "42949672950", "1e3", "1_000", " 1",
        "1 ", "12a", "a12", "٣", "１２", "+0", "-0", "0x10", "4294967290", "4294967299", "429496729",
        "000000000000000000000000000001", "+4294967295", "+4294967296", "1.0",
    ];
    for s in samples {
        assert_eq!(parse_u32(s), s.parse::<u32>().ok(), "{:?}", s);
    }
    assert_eq!(parse_u32("100"), Some(100));
    assert_eq!(parse_u32("+7"), Some(7));
    assert_eq!(parse_u32("4294967295"), Some(u32::MAX));
    assert_eq!(parse_u32("4294967296"), None);
    assert_eq!(parse_u32("-1"), None);
    assert_eq!(parse_u32(""), None);
    assert_eq!(parse_u32("+"), None);
}
