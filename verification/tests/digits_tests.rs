use rustybird::digits::{best_from_saved, best_from_text, best_text, decimal_digits};

fn chars(s: &str) -> Vec<char> {
    s.chars().collect()
}

fn reference(s: &str) -> u32 {
    s.trim().parse::<u32>().unwrap_or(0)
}

#[test]
fn digits_of_zero() {
    assert_eq!(decimal_digits(0), vec![0]);
}

#[test]
fn digits_most_significant_first() {
    assert_eq!(decimal_digits(1234), vec![1, 2, 3, 4]);
    assert_eq!(decimal_digits(10), vec![1, 0]);
    assert_eq!(decimal_digits(u32::MAX), vec![4, 2, 9, 4, 9, 6, 7, 2, 9, 5]);
}

#[test]
fn digits_match_to_string() {
    for n in [0u32, 7, 9, 10, 99, 100, 101, 65535, 1_000_000, u32::MAX - 1, u32::MAX] {
        let expected: Vec<u8> = n.to_string().bytes().map(|b| b - b'0').collect();
        assert_eq!(decimal_digits(n), expected);
    }
}

#[test]
fn best_text_is_to_string() {
    for n in [0u32, 5, 42, 1000, u32::MAX] {
        assert_eq!(best_text(n), chars(&n.to_string()));
    }
}

#[test]
fn best_text_reads_back() {
    for n in [0u32, 1, 9, 10, 123, 99999, 4_000_000_000, u32::MAX] {
        assert_eq!(best_from_text(&best_text(n)), n);
    }
}

#[test]
fn best_ignores_surrounding_white_space() {
    assert_eq!(best_from_text(&chars("  42\n")), 42);
    assert_eq!(best_from_text(&chars("\t17\r\n")), 17);
    assert_eq!(best_from_text(&chars("\u{3000}5\u{00A0}")), 5);
}

#[test]
fn best_accepts_plus_and_leading_zeros() {
    assert_eq!(best_from_text(&chars("+7")), 7);
    assert_eq!(best_from_text(&chars("007")), 7);
}

#[test]
fn best_rejects_bad_text() {
    assert_eq!(best_from_text(&chars("")), 0);
    assert_eq!(best_from_text(&chars("   ")), 0);
    assert_eq!(best_from_text(&chars("+")), 0);
    assert_eq!(best_from_text(&chars("-1")), 0);
    assert_eq!(best_from_text(&chars("12a")), 0);
    assert_eq!(best_from_text(&chars("1 2")), 0);
    assert_eq!(best_from_text(&chars("++3")), 0);
    assert_eq!(best_from_text(&chars("٣")), 0);
}

#[test]
fn best_limits_of_u32() {
    assert_eq!(best_from_text(&chars("4294967295")), u32::MAX);
    assert_eq!(best_from_text(&chars("4294967296")), 0);
    assert_eq!(best_from_text(&chars("99999999999x")), 0);
    assert_eq!(best_from_text(&chars("0000000000004294967295")), u32::MAX);
}

#[test]
fn best_agrees_with_std_parsing() {
    let samples = [
        "", "0", "1", " 1 ", "+0", "-0", "+-1", "12 ", " \n\t 99 \u{2028}", "1_000", "0x10",
        "4294967294", "4294967295", "4294967296", "18446744073709551616", "３", "\u{85}8\u{85}",
        "\u{200B}8", "1\u{0}", "+ 5",
    ];
    for s in samples {
        assert_eq!(best_from_text(&chars(s)), reference(s), "text {:?}", s);
    }
}

#[test]
fn best_from_missing_file_is_zero() {
    assert_eq!(best_from_saved(None), 0);
    assert_eq!(best_from_saved(Some(chars("31\n"))), 31);
}
