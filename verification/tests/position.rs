use big_tac_toe::position::{is_white_space, parse_number, split_words};
use big_tac_toe::{get_position, NumberError, PositionError};
use std::num::IntErrorKind;

fn position(line: &str) -> Result<(usize, usize), PositionError> {
    get_position(line.to_string())
}

fn number(word: &str) -> Result<usize, NumberError> {
    parse_number(&word.chars().collect())
}

fn words(line: &str) -> Vec<String> {
    split_words(line).into_iter().map(|w| w.into_iter().collect()).collect()
}

/// A handful of lines with every kind of word in them.
fn samples() -> Vec<String> {
    let pieces = [
        "", " ", "1", "2", "3", "0", "4", "+", "-", "+1", "-1", "++1", "+-1", "1+", "03", "a", "1a",
        "a1", "١", "\t", "\n", "\r\n", "\u{3000}", "\u{a0}", "\u{200b}", "\u{85}", "\u{2003}", "12",
        "18446744073709551615", "18446744073709551616", "4294967295", "4294967296",
        "99999999999999999999999", "99999999999999999999999x", "1x99999999999999999999999", "+0",
        "00000000000000000000000000000000000002", "1_0", "1.0", "0x1", "٣", "3\u{301}",
    ];
    let mut lines = Vec::new();
    for a in pieces {
        lines.push(a.to_string());
        for b in pieces {
            lines.push(format!("{}{}", a, b));
            lines.push(format!("{} {}", a, b));
            lines.push(format!(" {}\t{}\n", a, b));
            lines.push(format!("{} {} 1", a, b));
        }
    }
    lines
}

#[test]
fn positions_count_from_zero() {
    for i in 1..4 {
        for j in 1..4 {
            assert_eq!(position(&format!("{} {}", i, j)), Ok((i - 1, j - 1)));
        }
    }
    assert_eq!(position("1 2"), Ok((0, 1)));
    assert_eq!(position("3 1\n"), Ok((2, 0)));
}

#[test]
fn white_space_around_the_words_is_skipped() {
    assert_eq!(position("  2   3  "), Ok((1, 2)));
    assert_eq!(position("\t2\t3\r\n"), Ok((1, 2)));
    assert_eq!(position("2\n3"), Ok((1, 2)));
    assert_eq!(position("2\u{3000}3"), Ok((1, 2)));
    assert_eq!(position("\u{a0}2\u{2003}3\u{85}"), Ok((1, 2)));
}

#[test]
fn plus_sign_and_leading_zeros_are_read() {
    assert_eq!(position("+1 +3"), Ok((0, 2)));
    assert_eq!(position("01 003"), Ok((0, 2)));
    assert_eq!(position("+02 1"), Ok((1, 0)));
}

#[test]
fn other_than_two_words_is_an_argument_count_error() {
    for line in ["", " ", "\n", "1", " 1 ", "1 2 3", "1 2 x", "a", "a b c", "1 2 3 4"] {
        assert_eq!(position(line), Err(PositionError::ArgumentCount));
    }
}

#[test]
fn word_that_is_no_number_is_a_number_error() {
    let bad = Err(PositionError::Number(NumberError::InvalidDigit));
    for line in ["a 1", "1 a", "a b", "1,2 3", "1.0 2", "-1 2", "2 -1", "+ 1", "1 +", "1 ++2"] {
        assert_eq!(position(line), bad);
    }
    assert_eq!(position("١ ٢"), bad);
    assert_eq!(position("1\u{200b}2 3"), bad);
}

#[test]
fn number_too_large_is_an_overflow() {
    let big = Err(PositionError::Number(NumberError::Overflow));
    assert_eq!(position("99999999999999999999999 1"), big);
    assert_eq!(position("1 99999999999999999999999"), big);
    let one_more = format!("{}", usize::MAX as u128 + 1);
    assert_eq!(position(&format!("{} 1", one_more)), big);
    assert_eq!(
        position(&format!("{} 1", usize::MAX)),
        Err(PositionError::BadValues(usize::MAX, 1))
    );
}

#[test]
fn values_outside_one_to_three_are_bad_values() {
    assert_eq!(position("0 1"), Err(PositionError::BadValues(0, 1)));
    assert_eq!(position("1 0"), Err(PositionError::BadValues(1, 0)));
    assert_eq!(position("4 1"), Err(PositionError::BadValues(4, 1)));
    assert_eq!(position("3 4"), Err(PositionError::BadValues(3, 4)));
    assert_eq!(position("0 0"), Err(PositionError::BadValues(0, 0)));
    assert_eq!(position("12 700"), Err(PositionError::BadValues(12, 700)));
}

#[test]
fn first_failing_step_decides_the_error() {
    // The count comes before the words are read.
    assert_eq!(position("a b c"), Err(PositionError::ArgumentCount));
    // The first word comes before the second.
    assert_eq!(
        position("x 99999999999999999999999"),
        Err(PositionError::Number(NumberError::InvalidDigit))
    );
    assert_eq!(
        position("99999999999999999999999 x"),
        Err(PositionError::Number(NumberError::Overflow))
    );
    // Both words are read before the values are checked.
    assert_eq!(position("0 x"), Err(PositionError::Number(NumberError::InvalidDigit)));
    assert_eq!(position("9 +"), Err(PositionError::Number(NumberError::InvalidDigit)));
}

#[test]
fn number_errors_go_by_the_first_failing_character() {
    assert_eq!(number(""), Err(NumberError::Empty));
    assert_eq!(number("+"), Err(NumberError::InvalidDigit));
    assert_eq!(number("-"), Err(NumberError::InvalidDigit));
    assert_eq!(number("99999999999999999999999x"), Err(NumberError::Overflow));
    assert_eq!(number("1x99999999999999999999999"), Err(NumberError::InvalidDigit));
    assert_eq!(number("0"), Ok(0));
    assert_eq!(number("+0"), Ok(0));
    assert_eq!(number("0000123"), Ok(123));
    assert_eq!(number(&format!("{}", usize::MAX)), Ok(usize::MAX));
    assert_eq!(number(&format!("+{}", usize::MAX)), Ok(usize::MAX));
    assert_eq!(number(&format!("{}0", usize::MAX)), Err(NumberError::Overflow));
}

#[test]
fn numbers_are_read_as_the_standard_library_reads_them() {
    for line in samples() {
        for word in line.split(' ') {
            let expected = match word.parse::<usize>() {
                Ok(n) => Ok(n),
                Err(e) => Err(match e.kind() {
                    IntErrorKind::Empty => NumberError::Empty,
                    IntErrorKind::InvalidDigit => NumberError::InvalidDigit,
                    IntErrorKind::PosOverflow => NumberError::Overflow,
                    other => panic!("{:?} for {:?}", other, word),
                }),
            };
            assert_eq!(number(word), expected, "{:?}", word);
        }
    }
}

#[test]
fn white_space_is_what_the_standard_library_says() {
    for code in 0..=0x10FFFFu32 {
        if let Some(c) = char::from_u32(code) {
            assert_eq!(is_white_space(c), c.is_whitespace(), "{:?}", c);
        }
    }
}

#[test]
fn words_are_split_at_white_space() {
    assert_eq!(words(""), Vec::<String>::new());
    assert_eq!(words("   "), Vec::<String>::new());
    assert_eq!(words("a"), vec!["a"]);
    assert_eq!(words(" ab  c\td\n"), vec!["ab", "c", "d"]);
    assert_eq!(words("1\u{3000}2"), vec!["1", "2"]);
    assert_eq!(words("1\u{200b}2"), vec!["1\u{200b}2"]);
}

#[test]
fn words_are_split_as_the_standard_library_splits_them() {
    for line in samples() {
        let expected: Vec<String> = line.split_whitespace().map(|w| w.to_string()).collect();
        assert_eq!(words(&line), expected, "{:?}", line);
    }
}

#[test]
fn positions_are_read_as_words_then_numbers_then_range() {
    for line in samples() {
        let ws: Vec<&str> = line.split_whitespace().collect();
        let expected = if ws.len() != 2 {
            Err(PositionError::ArgumentCount)
        } else {
            match (number(ws[0]), number(ws[1])) {
                (Err(e), _) => Err(PositionError::Number(e)),
                (Ok(_), Err(e)) => Err(PositionError::Number(e)),
                (Ok(i), Ok(j)) => {
                    if i == 0 || j == 0 || i > 3 || j > 3 {
                        Err(PositionError::BadValues(i, j))
                    } else {
                        Ok((i - 1, j - 1))
                    }
                },
            }
        };
        assert_eq!(position(&line), expected, "{:?}", line);
    }
}

#[test]
fn position_errors_have_their_messages() {
    assert_eq!(PositionError::ArgumentCount.message(), "Not enough argument");
    assert_eq!(PositionError::BadValues(0, 4).message(), "Bad values: (0, 4)");
    assert_eq!(PositionError::BadValues(12, 3).message(), "Bad values: (12, 3)");
    assert_eq!(
        PositionError::Number(NumberError::InvalidDigit).message(),
        "invalid digit found in string"
    );
    assert_eq!(
        PositionError::Number(NumberError::Overflow).message(),
        "number too large to fit in target type"
    );
    assert_eq!(
        PositionError::Number(NumberError::Empty).message(),
        "cannot parse integer from empty string"
    );
    assert_eq!(NumberError::InvalidDigit.message(), "invalid digit found in string");
}

#[test]
fn number_messages_are_those_of_the_standard_library() {
    let digit = "x".parse::<usize>().unwrap_err();
    assert_eq!(NumberError::InvalidDigit.message(), format!("{}", digit));
    let large = "99999999999999999999999".parse::<usize>().unwrap_err();
    assert_eq!(NumberError::Overflow.message(), format!("{}", large));
    let empty = "".parse::<usize>().unwrap_err();
    assert_eq!(NumberError::Empty.message(), format!("{}", empty));
}
