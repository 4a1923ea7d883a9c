use turdle::cli::{parse_date_arg, parse_i32, parse_u8, split_terminator, DateArgError};
use turdle::letter_pool::LetterPool;
use turdle::model::{LetterState, ResultGrid};
use turdle::provider::Solution;
use turdle::summary::{result_text, size_warning};
use turdle::text::{chars_of, check_word, push_decimal, push_two_digits};

use LetterState::{Contains, Correct, Incorrect};

fn chars(s: &str) -> Vec<char> {
    s.chars().collect()
}

#[test]
fn date_argument_full_and_short_years() {
    let d = parse_date_arg("2024-03-09").unwrap();
    assert_eq!((d.year(), d.month(), d.day()), (2024, 3, 9));
    let d = parse_date_arg("24-3-9").unwrap();
    assert_eq!((d.year(), d.month(), d.day()), (2024, 3, 9));
    let d = parse_date_arg("+22-+1-05-").unwrap();
    assert_eq!((d.year(), d.month(), d.day()), (2022, 1, 5));
}

#[test]
fn date_argument_errors() {
    assert_eq!(parse_date_arg("2024-03").unwrap_err(), DateArgError::Format);
    assert_eq!(parse_date_arg("2024-03-09-01").unwrap_err(), DateArgError::Format);
    assert_eq!(parse_date_arg("").unwrap_err(), DateArgError::Format);
    assert_eq!(parse_date_arg("x-03-09").unwrap_err(), DateArgError::Year);
    assert_eq!(parse_date_arg("2024--09").unwrap_err(), DateArgError::Month);
    assert_eq!(parse_date_arg("2024-13-09").unwrap_err(), DateArgError::Month);
    assert_eq!(parse_date_arg("2024-0-09").unwrap_err(), DateArgError::Month);
    assert_eq!(parse_date_arg("2024-02-256").unwrap_err(), DateArgError::Day);
    assert_eq!(parse_date_arg("2023-02-29").unwrap_err(), DateArgError::InvalidDate);
    assert_eq!(parse_date_arg("2024-02-00").unwrap_err(), DateArgError::InvalidDate);
}

#[test]
fn integers_read_as_std_reads_them() {
    for s in ["0", "42", "+7", "-7", "2147483647", "-2147483648", "0001", "-", "+", "", "1a", "2147483648", "-2147483649", "99999999999999999999"] {
        assert_eq!(parse_i32(&chars(s)), s.parse::<i32>().ok(), "{}", s);
    }
    for s in ["0", "255", "256", "+3", "-0", "-3", "", "12x", "007"] {
        assert_eq!(parse_u8(&chars(s)), s.parse::<u8>().ok(), "{}", s);
    }
}

#[test]
fn split_drops_only_a_last_empty_part() {
    for s in ["a-b-c", "a-b-c-", "a--", "-a", "", "-", "abc"] {
        let expected: Vec<Vec<char>> = s.split_terminator('-').map(chars).collect();
        assert_eq!(split_terminator(&chars(s), '-'), expected, "{}", s);
    }
}

#[test]
fn decimal_digits() {
    let mut v = Vec::new();
    push_decimal(&mut v, 0);
    push_decimal(&mut v, 1907);
    push_two_digits(&mut v, 3);
    push_two_digits(&mut v, 12);
    assert_eq!(v.iter().collect::<String>(), "0190703".to_string() + "12");
    assert_eq!(chars_of("héllo"), chars("héllo"));
    assert!(check_word(&chars("crate")));
    assert!(!check_word(&chars("Crate")));
    assert!(!check_word(&chars("crat")));
}

fn grid() -> Vec<Vec<LetterState>> {
    vec![
        vec![Incorrect, Contains, Correct, Contains, Correct],
        vec![],
        vec![Correct; 5],
    ]
}

#[test]
fn result_text_with_puzzle_number() {
    let rg = ResultGrid {
        solution: Solution { wordle_number: Some(1234), answer: "crate".to_string() },
        lines_used: 2,
        grid: grid(),
    };
    let heading = "Wordle 1,234 2/6";
    let expected = format!(
        "{}\n{}\n\n\u{2B1B}\u{1F7E8}\u{1F7E9}\u{1F7E8}\u{1F7E9}\n{}\n",
        "\u{2500}".repeat(heading.len()),
        heading,
        "\u{1F7E9}".repeat(5)
    );
    assert_eq!(result_text(&rg), expected);
    let rg = ResultGrid {
        solution: Solution { wordle_number: Some(926), answer: "crate".to_string() },
        lines_used: 6,
        grid: vec![],
    };
    assert_eq!(result_text(&rg), format!("{}\nWordle 926 6/6\n\n", "\u{2500}".repeat(14)));
}

#[test]
fn result_text_without_puzzle_number() {
    let rg = ResultGrid {
        solution: Solution { wordle_number: None, answer: "crate".to_string() },
        lines_used: 1,
        grid: vec![vec![Correct; 5]],
    };
    assert_eq!(
        result_text(&rg),
        format!("{}\nTurdle 1/6\n\n{}\n", "\u{2500}".repeat(10), "\u{1F7E9}".repeat(5))
    );
}

#[test]
fn size_warning_lines() {
    assert!(size_warning(55, 34).is_empty());
    assert_eq!(
        size_warning(50, 30),
        vec![
            "Terminal too small (min. 55W x 34H)".to_string(),
            "5 more cols & 4 more rows needed".to_string(),
            "Resize or <Esc> to exit".to_string(),
        ]
    );
    assert_eq!(size_warning(40, 100)[1], "15 more columns needed");
    assert_eq!(size_warning(80, 2), vec!["Terminal too small (min. 55W x 34H)".to_string(), "32 more rows needed".to_string()]);
    assert_eq!(size_warning(10, 1).len(), 1);
}

#[test]
fn keyboard_rows_in_both_modes() {
    let mut pool = LetterPool::new();
    let rows = pool.keyboard_rows();
    assert_eq!(rows, vec![chars("abcdefghijklm"), chars("nopqrstuvwxyz"), vec![]]);
    assert_eq!((pool.row_offset(0), pool.row_offset(1), pool.row_offset(2)), (0, 1, 0));
    pool.toggle_qwerty_mode();
    let rows = pool.keyboard_rows();
    assert_eq!(rows, vec![chars("qwertyuiop"), chars("asdfghjkl"), chars("zxcvbnm")]);
    assert_eq!((pool.row_offset(0), pool.row_offset(1), pool.row_offset(2)), (0, 0, -1));
}
