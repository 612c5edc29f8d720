use tgdyk::text::{
    decimal_text, octal_text, parse_integer, prompt_answer, same_text, IntegerError,
};

#[test]
fn writes_numbers() {
    assert_eq!(decimal_text(0), "0");
    assert_eq!(decimal_text(401), "401");
    assert_eq!(decimal_text(-1234567890), "-1234567890");
    assert_eq!(decimal_text(i64::MAX), "9223372036854775807");
    assert_eq!(decimal_text(i64::MIN), "-9223372036854775808");
    assert_eq!(octal_text(0), "0");
    assert_eq!(octal_text(0o600), "600");
    assert_eq!(octal_text(0o755), "755");
    assert_eq!(octal_text(u32::MAX), "37777777777");
}

#[test]
fn reads_integers_as_the_standard_library_does() {
    let texts = [
        "0",
        "12345",
        "+7",
        "-7",
        "-0",
        "007",
        "9223372036854775807",
        "9223372036854775808",
        "-9223372036854775808",
        "-9223372036854775809",
        "99999999999999999999x",
        "x99999999999999999999",
        "",
        "+",
        "-",
        "--1",
        "+-1",
        " 1",
        "1 ",
        "1_000",
        "0x10",
        "\u{664}",
        "1.0",
    ];
    for text in texts {
        let expected = text.parse::<i64>();
        match (parse_integer(text), expected) {
            (Ok(number), Ok(wanted)) => assert_eq!(number, wanted, "{}", text),
            (Err(error), Err(wanted)) => {
                let kind = match error {
                    IntegerError::Empty => std::num::IntErrorKind::Empty,
                    IntegerError::InvalidDigit => std::num::IntErrorKind::InvalidDigit,
                    IntegerError::PosOverflow => std::num::IntErrorKind::PosOverflow,
                    IntegerError::NegOverflow => std::num::IntErrorKind::NegOverflow,
                };
                assert_eq!(&kind, wanted.kind(), "{}", text);
            }
            _ => panic!("{}", text),
        }
    }
}

#[test]
fn written_integers_are_read_back() {
    for number in [0, 1, -1, 10, 12345, -98765, i64::MAX, i64::MIN] {
        assert_eq!(parse_integer(&decimal_text(number)), Ok(number));
    }
}

#[test]
fn prompts_trim_their_answers() {
    assert_eq!(prompt_answer("12345\n"), "12345");
    assert_eq!(prompt_answer("\t two words \r\n"), "two words");
    assert_eq!(prompt_answer(" \u{a0}\u{3000}"), "");
    assert_eq!(prompt_answer("\u{2028}a\u{200b}\u{85}"), "a\u{200b}");
    assert_eq!(prompt_answer(""), "");
    assert_eq!(prompt_answer(&prompt_answer(" \u{85} a  b\t")), "a  b");
}

#[test]
fn trims_as_the_standard_library_does() {
    for c in '\u{0}'..='\u{ffff}' {
        let line = format!("{}a{}b{}", c, c, c);
        assert_eq!(prompt_answer(&line), line.trim());
    }
    assert_eq!(prompt_answer("\u{1f600} "), "\u{1f600}");
}

#[test]
fn compares_texts() {
    assert!(same_text("error", "error"));
    assert!(!same_text("error", "Error"));
    assert!(!same_text("error", "errors"));
}
