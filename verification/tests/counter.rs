use uptime::counter::{chars_of, is_whitespace, parse_counter, parse_integer};

fn std_reading(text: &str) -> Option<i64> {
    text.split_whitespace().next().and_then(|s| s.replace(".", "").parse().ok())
}

#[test]
fn a_counter_line_gives_hundredths() {
    assert_eq!(parse_counter("12345.67 54321.89\n"), Some(1234567));
    assert_eq!(parse_counter("1234.56"), Some(123456));
    assert_eq!(parse_counter("0.00 0.00\n"), Some(0));
}

#[test]
fn only_the_first_field_counts() {
    assert_eq!(parse_counter("  \t 350735.47 234388.90"), Some(35073547));
    assert_eq!(parse_counter("12.34 garbage"), Some(1234));
    assert_eq!(parse_counter("garbage 12.34"), None);
}

#[test]
fn text_without_a_field_gives_nothing() {
    assert_eq!(parse_counter(""), None);
    assert_eq!(parse_counter("   \n\t"), None);
}

#[test]
fn a_field_that_is_no_number_gives_nothing() {
    assert_eq!(parse_counter("."), None);
    assert_eq!(parse_counter("abc"), None);
    assert_eq!(parse_counter("12a.5"), None);
    assert_eq!(parse_counter("-"), None);
    assert_eq!(parse_counter("+"), None);
    assert_eq!(parse_counter("1,5"), None);
    assert_eq!(parse_counter("0x10"), None);
    assert_eq!(parse_counter("1e5"), None);
}

#[test]
fn every_point_is_taken_out() {
    assert_eq!(parse_counter("1.2.3"), Some(123));
    assert_eq!(parse_counter("..5.."), Some(5));
    assert_eq!(parse_counter("100"), Some(100));
}

#[test]
fn signs_are_read() {
    assert_eq!(parse_counter("-1.50"), Some(-150));
    assert_eq!(parse_counter("+1.50"), Some(150));
    assert_eq!(parse_counter("-0"), Some(0));
    assert_eq!(parse_counter("+-1"), None);
    assert_eq!(parse_counter("1-"), None);
    assert_eq!(parse_counter(".-5"), Some(-5));
}

#[test]
fn values_beyond_the_range_give_nothing() {
    assert_eq!(parse_counter("92233720368547758.07"), Some(i64::MAX));
    assert_eq!(parse_counter("92233720368547758.08"), None);
    assert_eq!(parse_counter("-92233720368547758.08"), Some(i64::MIN));
    assert_eq!(parse_counter("-92233720368547758.09"), None);
    assert_eq!(parse_counter("99999999999999999999999999.99"), None);
    assert_eq!(parse_counter("000000000000000000000000012.00"), Some(1200));
}

#[test]
fn wide_spaces_separate_fields() {
    assert_eq!(parse_counter("\u{a0}12.00\u{2003}7"), Some(1200));
    assert_eq!(parse_counter("12.00\u{3000}x"), Some(1200));
    assert_eq!(parse_counter("12.00\u{200b}5"), None);
}

#[test]
fn white_space_is_what_the_standard_library_calls_so() {
    let mut code: u32 = 0;
    while code <= 0x10FFFF {
        if let Some(c) = char::from_u32(code) {
            assert_eq!(is_whitespace(c), c.is_whitespace());
        }
        code += 1;
    }
}

#[test]
fn integers_are_read_as_the_standard_library_reads_them() {
    let samples = [
        "", "0", "7", "-7", "+7", "007", "-", "+", "--1", "1+", " 1", "1 ", "12345",
        "9223372036854775807", "9223372036854775808", "-9223372036854775808",
        "-9223372036854775809", "18446744073709551616", "1_000", "١٢٣", "1.0", "a",
    ];
    for text in samples.iter() {
        let chars: Vec<char> = text.chars().collect();
        assert_eq!(parse_integer(&chars), text.parse::<i64>().ok());
    }
}

#[test]
fn counters_are_read_as_by_split_replace_and_parse() {
    let samples = [
        "12345.67 54321.89\n", "", " ", "\n12.5", "1.2.3 4", "x", "-5.5", "+5.5", "5.", ".5",
        "5..5", "1\t2", "1\u{85}2", "1\u{1680}2", "1\u{feff}2", "99999999999999999999",
        "\u{2028}\u{2029}42.42", "۱۲.۳۴",
    ];
    for text in samples.iter() {
        assert_eq!(parse_counter(text), std_reading(text));
    }
}

#[test]
fn characters_come_in_order() {
    assert_eq!(chars_of("a\u{e9}z"), vec!['a', '\u{e9}', 'z']);
    assert_eq!(chars_of(""), Vec::<char>::new());
}

#[test]
fn seconds_and_hundredths_read_back() {
    let samples: [(u64, u64); 7] =
        [(0, 0), (0, 7), (1, 99), (12345, 67), (350735, 47), (9, 10), (92233720368547758, 7)];
    for &(seconds, hundredths) in samples.iter() {
        let expected = (seconds * 100 + hundredths) as i64;
        let bare = format!("{}.{:02}", seconds, hundredths);
        assert_eq!(parse_counter(&bare), Some(expected));
        let line = format!("{}.{:02} 4321.09\n", seconds, hundredths);
        assert_eq!(parse_counter(&line), Some(expected));
    }
}
