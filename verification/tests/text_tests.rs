use watch_market::invoice::{invoice_id, issue_invoice_id, prefix_zeros};
use watch_market::numeric::{format_i32, format_i64, format_u64, parse_i32, parse_u32, parse_u64};
use watch_market::pagination::{page_counts, page_info};
use watch_market::range::parse_range;
use watch_market::text::{
    chars_of, contains, is_whitespace, join, replace_all, split_char, split_whitespace,
    starts_with, string_of, text_eq, to_ascii_lower,
};

#[test]
fn split_whitespace_matches_std() {
    for s in ["", "  ", "a", " a b  c ", "x\ty\nz", "a\u{3000}b", "a\u{a0}b"] {
        let expected: Vec<String> = s.split_whitespace().map(|w| w.to_string()).collect();
        assert_eq!(split_whitespace(s), expected, "input {s:?}");
    }
}

#[test]
fn split_char_matches_std() {
    for s in ["", ",", "a,b", "a,,b,", "no-comma"] {
        let expected: Vec<String> = s.split(',').map(|w| w.to_string()).collect();
        assert_eq!(split_char(s, ','), expected, "input {s:?}");
    }
}

#[test]
fn join_matches_std() {
    let parts = vec!["a".to_string(), "b".to_string(), "c".to_string()];
    assert_eq!(join(&parts, ", "), "a, b, c");
    assert_eq!(join(&Vec::new(), ", "), "");
    assert_eq!(join(&vec!["only".to_string()], "-"), "only");
}

#[test]
fn replace_all_matches_std() {
    let cases = [
        ("a b c", " ", "-"),
        ("aaa", "aa", "b"),
        ("/images/x.png", "/images", "./images"),
        ("'2024-01-31'", "'", ""),
        ("no match", "zz", "y"),
        ("1.2.3", ".", ""),
    ];
    for (s, p, t) in cases {
        assert_eq!(replace_all(s, p, t), s.replace(p, t), "case {s:?} {p:?} {t:?}");
    }
}

#[test]
fn ascii_lowering_matches_std() {
    assert_eq!(to_ascii_lower("Processing"), "processing");
    assert_eq!(to_ascii_lower("ÄBC"), "Äbc");
}

#[test]
fn small_text_helpers() {
    assert_eq!(watch_market::text::concat("ab", "cd"), "abcd");
    assert!(text_eq("x", "x"));
    assert!(!text_eq("x", "y"));
    assert!(contains("superuser", "user"));
    assert!(!contains("agent", "user"));
    assert!(contains("abc", ""));
    assert!(is_whitespace('\u{2028}'));
    assert!(!is_whitespace('B'));
    let cs = chars_of("bytes=1-2");
    assert!(starts_with(&cs, "bytes="));
    assert!(!starts_with(&cs, "bits="));
    assert_eq!(string_of(&cs), "bytes=1-2");
}

#[test]
fn integer_parsing_matches_std() {
    for s in ["0", "42", "+7", "-7", "", "+", "-", "12a", "4294967295", "4294967296", "2147483647", "2147483648", "-2147483648", "-2147483649", "007"] {
        assert_eq!(parse_i32(s), s.parse::<i32>().ok(), "i32 {s:?}");
        assert_eq!(parse_u32(s), s.parse::<u32>().ok(), "u32 {s:?}");
        assert_eq!(parse_u64(s), s.parse::<u64>().ok(), "u64 {s:?}");
    }
    assert_eq!(parse_u64("18446744073709551615"), Some(u64::MAX));
    assert_eq!(parse_u64("18446744073709551616"), None);
}

#[test]
fn integer_formatting_matches_std() {
    for n in [0i64, 7, -7, 10, 123456789, i64::MIN, i64::MAX] {
        assert_eq!(format_i64(n), n.to_string());
    }
    for n in [0i32, -1, i32::MIN, i32::MAX] {
        assert_eq!(format_i32(n), n.to_string());
        assert_eq!(parse_i32(format_i32(n).as_str()), Some(n));
    }
    assert_eq!(format_u64(u64::MAX), u64::MAX.to_string());
}

#[test]
fn prefix_zeros_pads_to_the_width() {
    assert_eq!(prefix_zeros("42", 6), "000042");
    assert_eq!(prefix_zeros("123456", 6), "123456");
    assert_eq!(prefix_zeros("1234567", 6), "1234567");
    assert_eq!(prefix_zeros("", 3), "000");
}

#[test]
fn invoice_ids_are_777_and_the_padded_counter() {
    assert_eq!(invoice_id(1), "777000001");
    assert_eq!(invoice_id(42), "777000042");
    assert_eq!(invoice_id(999999), "777999999");
    assert_eq!(invoice_id(1234567), "7771234567");
    assert_eq!(invoice_id(-5), "7770000-5");
}

#[test]
fn invoice_ids_of_distinct_counters_differ() {
    let ids: Vec<String> = (0..2000).map(invoice_id).collect();
    let mut sorted = ids.clone();
    sorted.sort();
    sorted.dedup();
    assert_eq!(sorted.len(), ids.len());
    assert!(ids.iter().all(|id| id.len() == 9 && id.starts_with("777")));
}

#[test]
fn page_counts_round_up() {
    assert_eq!(page_counts(0, 10), 0);
    assert_eq!(page_counts(1, 10), 1);
    assert_eq!(page_counts(10, 10), 1);
    assert_eq!(page_counts(11, 10), 2);
    assert_eq!(page_counts(95, 20), 5);
    assert_eq!(page_counts(5, 0), usize::MAX);
    assert_eq!(page_counts(-3, 10), 0);
}

#[test]
fn page_counts_agree_with_float_ceiling() {
    for total in [0i64, 1, 2, 9, 10, 11, 99, 100, 101, 12345] {
        for per_page in [1usize, 2, 3, 7, 10, 100] {
            let float = (total as f64 / per_page as f64).ceil() as usize;
            assert_eq!(page_counts(total, per_page), float, "{total} / {per_page}");
        }
    }
}

#[test]
fn page_info_needs_both_page_and_size() {
    let i = page_info(25, Some(2), Some(10));
    assert_eq!((i.page, i.per_page, i.page_counts), (2, 10, 3));
    let i = page_info(25, Some(2), None);
    assert_eq!((i.page, i.per_page, i.page_counts), (0, 0, 0));
    let i = page_info(25, None, Some(10));
    assert_eq!((i.page, i.per_page, i.page_counts), (0, 0, 0));
}

#[test]
fn range_header_with_both_ends() {
    assert_eq!(parse_range("bytes=0-1023", 5000), Some((0, 1023)));
}

#[test]
fn range_header_open_ended_runs_to_last_byte() {
    assert_eq!(parse_range("bytes=100-", 5000), Some((100, 4999)));
    assert_eq!(parse_range("bytes=100", 5000), Some((100, 4999)));
}

#[test]
fn range_header_round_trip() {
    for (a, b) in [(0u64, 0u64), (5, 17), (1, u64::MAX)] {
        let h = format!("bytes={a}-{b}");
        assert_eq!(parse_range(h.as_str(), 10), Some((a, b)));
    }
}

#[test]
fn range_header_refusals() {
    assert_eq!(parse_range("items=0-1", 10), None);
    assert_eq!(parse_range("bytes=-5", 10), None);
    assert_eq!(parse_range("bytes=x-5", 10), None);
}

#[test]
fn range_header_quirks_follow_std() {
    assert_eq!(parse_range("bytes=bytes=3-4", 10), Some((3, 4)));
    assert_eq!(parse_range("bytes=3-x", 10), Some((3, 9)));
    assert_eq!(parse_range("bytes=3-4-5", 10), Some((3, 4)));
}

#[test]
fn padding_keeps_the_value() {
    for (s, k) in [("42", 6usize), ("0", 3), ("123456", 2), ("18446744073709551615", 25)] {
        assert_eq!(prefix_zeros(s, k).parse::<u64>(), s.parse::<u64>());
    }
}

#[test]
fn issued_invoice_ids() {
    assert_eq!(issue_invoice_id(Some(42)).unwrap(), "777000042");
    let e = issue_invoice_id(None).unwrap_err();
    assert_eq!((e.code, e.message.as_str()), (500, "Invoice ID generation failed!"));
    assert_ne!(issue_invoice_id(Some(42)).unwrap(), issue_invoice_id(Some(43)).unwrap());
}

#[test]
fn range_headers_of_an_empty_file() {
    assert_eq!(parse_range("items=0-10", 0), None);
    assert_eq!(parse_range("bytes=x-1", 0), None);
}
