//! Text: comparing it, trimming it, and reading and writing numbers in it.
use vstd::prelude::*;
use vstd::utf8::*;

verus! {

/// The character that stands for `digit`, which is below ten.
pub open spec fn digit_char(digit: int) -> char {
    (48 + digit) as char
}

/// `number` written in `base`, most significant digit first, without leading zeros.
pub open spec fn digits(number: nat, base: nat) -> Seq<char>
    decreases number,
{
    if base < 2 || number < base {
        seq![digit_char(number as int)]
    } else {
        proof {
            assert(number / base < number) by (nonlinear_arith)
                requires
                    number >= base,
                    base >= 2,
            ;
        }
        digits(number / base, base).push(digit_char((number % base) as int))
    }
}

/// `number` in decimal, with a leading `-` where it is negative.
pub open spec fn decimal(number: int) -> Seq<char> {
    if number < 0 {
        seq!['-'] + digits((-number) as nat, 10)
    } else {
        digits(number as nat, 10)
    }
}

/// `number` in octal.
pub open spec fn octal(number: nat) -> Seq<char> {
    digits(number, 8)
}

/// The one-character text of a decimal digit.
fn digit_text(digit: u64) -> (text: &'static str)
    requires
        digit < 10,
    ensures
        text@ == seq![digit_char(digit as int)],
{
    proof {
        reveal_strlit("0");
        reveal_strlit("1");
        reveal_strlit("2");
        reveal_strlit("3");
        reveal_strlit("4");
        reveal_strlit("5");
        reveal_strlit("6");
        reveal_strlit("7");
        reveal_strlit("8");
        reveal_strlit("9");
    }
    if digit == 0 {
        "0"
    } else if digit == 1 {
        "1"
    } else if digit == 2 {
        "2"
    } else if digit == 3 {
        "3"
    } else if digit == 4 {
        "4"
    } else if digit == 5 {
        "5"
    } else if digit == 6 {
        "6"
    } else if digit == 7 {
        "7"
    } else if digit == 8 {
        "8"
    } else {
        "9"
    }
}

/// `number` written in `base`.
fn digits_text(number: u64, base: u64) -> (text: String)
    requires
        2 <= base <= 10,
    ensures
        text@ == digits(number as nat, base as nat),
    decreases number,
{
    if number < base {
        digit_text(number).to_owned()
    } else {
        proof {
            assert(number / base < number) by (nonlinear_arith)
                requires
                    number >= base,
                    base >= 2,
            ;
        }
        let mut text = digits_text(number / base, base);
        text.append(digit_text(number % base));
        text
    }
}

/// Writes an integer in decimal.
pub fn decimal_text(number: i64) -> (text: String)
    ensures
        text@ == decimal(number as int),
{
    if number < 0 {
        let magnitude: u64 = if number == i64::MIN {
            9_223_372_036_854_775_808
        } else {
            (-number) as u64
        };
        let mut text = "-".to_owned();
        proof {
            reveal_strlit("-");
        }
        let written = digits_text(magnitude, 10);
        text.append(written.as_str());
        assert(text@ =~= decimal(number as int));
        text
    } else {
        digits_text(number as u64, 10)
    }
}

/// Writes a number in octal, as file modes are written.
pub fn octal_text(number: u32) -> (text: String)
    ensures
        text@ == octal(number as nat),
{
    digits_text(number as u64, 8)
}

/// The views of a sequence of texts.
pub open spec fn text_views(texts: Seq<String>) -> Seq<Seq<char>> {
    texts.map_values(|held: String| held@)
}

/// Whether two texts are the same, character by character.
pub fn same_text(left: &str, right: &str) -> (same: bool)
    ensures
        same == (left@ == right@),
{
    left.to_owned() == right.to_owned()
}

/// Whether `c` has the Unicode property `White_Space`.
pub open spec fn is_white_space(c: char) -> bool {
    let code = c as u32;
    ||| 0x09 <= code <= 0x0d
    ||| code == 0x20
    ||| code == 0x85
    ||| code == 0xa0
    ||| code == 0x1680
    ||| 0x2000 <= code <= 0x200a
    ||| code == 0x2028
    ||| code == 0x2029
    ||| code == 0x202f
    ||| code == 0x205f
    ||| code == 0x3000
}

/// `text` without the white space at its two ends.
pub open spec fn trimmed(text: Seq<char>) -> Seq<char>
    decreases text.len(),
{
    if text.len() > 0 && is_white_space(text.first()) {
        trimmed(text.drop_first())
    } else if text.len() > 0 && is_white_space(text.last()) {
        trimmed(text.drop_last())
    } else {
        text
    }
}

/// Whether `c` is white space.
fn white_space(c: char) -> (white: bool)
    ensures
        white == is_white_space(c),
{
    let code: u32 = c as u32;
    (0x09 <= code && code <= 0x0d) || code == 0x20 || code == 0x85 || code == 0xa0 || code == 0x1680
        || (0x2000 <= code && code <= 0x200a) || code == 0x2028 || code == 0x2029 || code == 0x202f
        || code == 0x205f || code == 0x3000
}

/// The answer that a line typed at a prompt gives: the line without surrounding white space.
pub fn prompt_answer(line: &str) -> (answer: String)
    ensures
        answer@ == trimmed(line@),
{
    let length: usize = line.unicode_len();
    let mut start: usize = 0;
    assert(line@.subrange(0, length as int) =~= line@);
    while start < length && white_space(line.get_char(start))
        invariant
            start <= length,
            length == line@.len(),
            trimmed(line@) == trimmed(line@.subrange(start as int, length as int)),
        decreases length - start,
    {
        proof {
            let rest = line@.subrange(start as int, length as int);
            assert(rest.drop_first() =~= line@.subrange(start + 1, length as int));
        }
        start += 1;
    }
    let mut end: usize = length;
    while start < end && white_space(line.get_char(end - 1))
        invariant
            start <= end <= length,
            length == line@.len(),
            start < length ==> !is_white_space(line@[start as int]),
            trimmed(line@) == trimmed(line@.subrange(start as int, end as int)),
        decreases end,
    {
        proof {
            let rest = line@.subrange(start as int, end as int);
            assert(rest.first() == line@[start as int]);
            assert(rest.drop_last() =~= line@.subrange(start as int, end - 1));
        }
        end -= 1;
    }
    line.substring_char(start, end).to_owned()
}

/// What `String::from_utf8_lossy` makes of `bytes`.
pub uninterp spec fn lossy_text(bytes: Seq<u8>) -> Seq<char>;

/// Calls `String::from_utf8_lossy`. Bytes that are UTF-8 come back as the characters that
/// they encode; in other bytes each faulty piece is replaced, and which pieces those are is
/// not spelled out here: the result is only named.
#[verifier::external_body]
pub(crate) fn from_utf8_lossy(bytes: &[u8]) -> (text: String)
    ensures
        text@ == lossy_text(bytes@),
        valid_utf8(bytes@) ==> text@ == decode_utf8(bytes@),
{
    String::from_utf8_lossy(bytes).into_owned()
}

/// Why a text is no integer of 64 bits.
#[derive(Clone, Copy, Debug, PartialEq, Eq, Structural)]
pub enum IntegerError {
    Empty,
    InvalidDigit,
    PosOverflow,
    NegOverflow,
}

pub open spec fn is_digit(c: char) -> bool {
    '0' <= c <= '9'
}

pub open spec fn fits_i64(number: int) -> bool {
    i64::MIN <= number <= i64::MAX
}

/// Whether `text` starts with a sign.
pub open spec fn has_sign(text: Seq<char>) -> bool {
    text.len() > 0 && (text[0] == '-' || text[0] == '+')
}

/// The number that `digits` stand for, read from the left and taken negative where `negative`
/// says so, up to the first character that is no digit or makes the number too large.
pub open spec fn scanned(digits: Seq<char>, negative: bool) -> Result<int, IntegerError>
    decreases digits.len(),
{
    if digits.len() == 0 {
        Ok(0)
    } else {
        match scanned(digits.drop_last(), negative) {
            Err(error) => Err(error),
            Ok(number) => {
                let digit = digits.last() as int - 48;
                let next = if negative {
                    10 * number - digit
                } else {
                    10 * number + digit
                };
                if !is_digit(digits.last()) {
                    Err(IntegerError::InvalidDigit)
                } else if fits_i64(next) {
                    Ok(next)
                } else if negative {
                    Err(IntegerError::NegOverflow)
                } else {
                    Err(IntegerError::PosOverflow)
                }
            },
        }
    }
}

/// The integer that `text` writes: an optional sign, then decimal digits and nothing else.
pub open spec fn integer_in(text: Seq<char>) -> Result<int, IntegerError> {
    let digits = if has_sign(text) {
        text.drop_first()
    } else {
        text
    };
    if text.len() == 0 {
        Err(IntegerError::Empty)
    } else if digits.len() == 0 {
        Err(IntegerError::InvalidDigit)
    } else {
        scanned(digits, text[0] == '-')
    }
}

/// Reads a decimal integer with an optional sign.
pub fn parse_integer(text: &str) -> (parsed: Result<i64, IntegerError>)
    ensures
        match parsed {
            Ok(number) => integer_in(text@) == Ok::<int, IntegerError>(number as int),
            Err(error) => integer_in(text@) == Err::<int, IntegerError>(error),
        },
{
    let length: usize = text.unicode_len();
    if length == 0 {
        return Err(IntegerError::Empty);
    }
    let first = text.get_char(0);
    let negative = first == '-';
    let start: usize = if negative || first == '+' { 1 } else { 0 };
    if start == length {
        return Err(IntegerError::InvalidDigit);
    }
    let ghost digits = text@.subrange(start as int, length as int);
    assert(start == 1 ==> digits =~= text@.drop_first());
    assert(start == 0 ==> digits =~= text@);
    let mut number: i64 = 0;
    let mut at: usize = start;
    assert(digits.take(0) =~= Seq::empty());
    while at < length
        invariant
            start <= at <= length,
            length == text@.len(),
            digits == text@.subrange(start as int, length as int),
            scanned(digits.take(at - start), negative) == Ok::<int, IntegerError>(number as int),
            integer_in(text@) == scanned(digits, negative),
        decreases length - at,
    {
        let c = text.get_char(at);
        proof {
            assert(digits.take(at + 1 - start).drop_last() =~= digits.take(at - start));
            assert(digits.take(at + 1 - start).last() == c);
            lemma_scan_stops(digits, negative, at + 1 - start);
        }
        if c < '0' || '9' < c {
            return Err(IntegerError::InvalidDigit);
        }
        let digit: i64 = (c as u32 - 48) as i64;
        let wide: i128 = number as i128 * 10;
        let next: i128 = if negative { wide - digit as i128 } else { wide + digit as i128 };
        if next > i64::MAX as i128 || next < i64::MIN as i128 {
            if negative {
                return Err(IntegerError::NegOverflow);
            }
            return Err(IntegerError::PosOverflow);
        }
        number = next as i64;
        at += 1;
    }
    assert(digits.take(length - start) =~= digits);
    Ok(number)
}

/// What stops the scan of a prefix stops the scan of the whole.
proof fn lemma_scan_stops(digits: Seq<char>, negative: bool, length: int)
    requires
        0 <= length <= digits.len(),
    ensures
        scanned(digits.take(length), negative) matches Err(error) ==> scanned(digits, negative)
            == Err::<int, IntegerError>(error),
    decreases digits.len() - length,
{
    if length == digits.len() {
        assert(digits.take(length) =~= digits);
    } else {
        assert(digits.take(length + 1).drop_last() =~= digits.take(length));
        lemma_scan_stops(digits, negative, length + 1);
    }
}

/// The number that decimal digits stand for.
pub open spec fn digits_value(digits: Seq<char>) -> int
    decreases digits.len(),
{
    if digits.len() == 0 {
        0
    } else {
        10 * digits_value(digits.drop_last()) + (digits.last() as int - 48)
    }
}

/// Whether `digits` are decimal digits and nothing else.
pub open spec fn all_digits(digits: Seq<char>) -> bool {
    forall|i: int| 0 <= i < digits.len() ==> is_digit(#[trigger] digits[i])
}

/// A text is an integer when it is digits and nothing else, after at most one sign, and the
/// number fits 64 bits; it then stands for that number.
pub proof fn integers_are_signed_digits(text: Seq<char>)
    ensures
        ({
            let digits = if has_sign(text) {
                text.drop_first()
            } else {
                text
            };
            let number = if text.len() > 0 && text[0] == '-' {
                -digits_value(digits)
            } else {
                digits_value(digits)
            };
            &&& integer_in(text) is Ok <==> digits.len() > 0 && all_digits(digits) && fits_i64(
                number,
            )
            &&& integer_in(text) matches Ok(read) ==> read == number
        }),
{
    let digits = if has_sign(text) {
        text.drop_first()
    } else {
        text
    };
    if text.len() > 0 {
        lemma_scanned(digits, text[0] == '-');
    }
}

proof fn lemma_scanned(digits: Seq<char>, negative: bool)
    ensures
        ({
            let number = if negative {
                -digits_value(digits)
            } else {
                digits_value(digits)
            };
            &&& scanned(digits, negative) is Ok <==> all_digits(digits) && fits_i64(number)
            &&& scanned(digits, negative) matches Ok(read) ==> read == number
        }),
        all_digits(digits) ==> digits_value(digits) >= 0,
    decreases digits.len(),
{
    if digits.len() > 0 {
        let shorter = digits.drop_last();
        lemma_scanned(shorter, negative);
        assert(all_digits(digits) <==> all_digits(shorter) && is_digit(digits.last())) by {
            if all_digits(shorter) && is_digit(digits.last()) {
                assert forall|i: int| 0 <= i < digits.len() implies is_digit(
                    #[trigger] digits[i],
                ) by {
                    if i < shorter.len() {
                        assert(shorter[i] == digits[i]);
                    }
                }
            }
            if all_digits(digits) {
                assert(is_digit(digits[digits.len() - 1]));
                assert forall|i: int| 0 <= i < shorter.len() implies is_digit(
                    #[trigger] shorter[i],
                ) by {
                    assert(is_digit(digits[i]));
                }
            }
        }
    }
}

proof fn lemma_digits(number: nat)
    ensures
        digits(number, 10).len() > 0,
        all_digits(digits(number, 10)),
        digits_value(digits(number, 10)) == number,
    decreases number,
{
    reveal_with_fuel(digits_value, 2);
    if number >= 10 {
        lemma_digits(number / 10);
        let shorter = digits(number / 10, 10);
        let all = digits(number, 10);
        assert(all == shorter.push(digit_char((number % 10) as int)));
        assert(all.drop_last() =~= shorter);
        assert forall|i: int| 0 <= i < all.len() implies is_digit(#[trigger] all[i]) by {
            if i < shorter.len() {
                assert(all[i] == shorter[i]);
            }
        }
    } else {
        assert(digits(number, 10).drop_last() =~= Seq::empty());
    }
}

/// An integer that is written in decimal reads back as itself.
pub proof fn written_integers_read_back(number: i64)
    ensures
        integer_in(decimal(number as int)) == Ok::<int, IntegerError>(number as int),
{
    let magnitude = if number < 0 {
        (-number) as nat
    } else {
        number as nat
    };
    lemma_digits(magnitude);
    let written = decimal(number as int);
    if number < 0 {
        assert(written[0] == '-');
        assert(written.drop_first() =~= digits(magnitude, 10));
    } else {
        assert(is_digit(written[0]));
    }
    integers_are_signed_digits(written);
}

/// Trimming leaves no white space at either end, and trimming again changes nothing.
pub proof fn trimming_is_thorough(text: Seq<char>)
    ensures
        trimmed(text).len() > 0 ==> !is_white_space(trimmed(text).first()) && !is_white_space(
            trimmed(text).last(),
        ),
        trimmed(trimmed(text)) == trimmed(text),
    decreases text.len(),
{
    if text.len() > 0 && is_white_space(text.first()) {
        trimming_is_thorough(text.drop_first());
    } else if text.len() > 0 && is_white_space(text.last()) {
        trimming_is_thorough(text.drop_last());
    }
}

/// The characters of white space are these and no others: the controls from tab to carriage
/// return, the space, the next line, the no-break spaces, and the spaces and separators of
/// typography.
pub proof fn white_space_is_the_unicode_property(c: char)
    ensures
        is_white_space(c) <==> seq![
            '\u{9}',
            '\u{a}',
            '\u{b}',
            '\u{c}',
            '\u{d}',
            '\u{20}',
            '\u{85}',
            '\u{a0}',
            '\u{1680}',
            '\u{2000}',
            '\u{2001}',
            '\u{2002}',
            '\u{2003}',
            '\u{2004}',
            '\u{2005}',
            '\u{2006}',
            '\u{2007}',
            '\u{2008}',
            '\u{2009}',
            '\u{200a}',
            '\u{2028}',
            '\u{2029}',
            '\u{202f}',
            '\u{205f}',
            '\u{3000}',
        ].contains(c),
{
    let all = seq![
        '\u{9}',
        '\u{a}',
        '\u{b}',
        '\u{c}',
        '\u{d}',
        '\u{20}',
        '\u{85}',
        '\u{a0}',
        '\u{1680}',
        '\u{2000}',
        '\u{2001}',
        '\u{2002}',
        '\u{2003}',
        '\u{2004}',
        '\u{2005}',
        '\u{2006}',
        '\u{2007}',
        '\u{2008}',
        '\u{2009}',
        '\u{200a}',
        '\u{2028}',
        '\u{2029}',
        '\u{202f}',
        '\u{205f}',
        '\u{3000}',
    ];
    if is_white_space(c) {
        let code = c as u32;
        let at = if code <= 0x0d {
            code - 0x09
        } else if code == 0x20 {
            5
        } else if code == 0x85 {
            6
        } else if code == 0xa0 {
            7
        } else if code == 0x1680 {
            8
        } else if code <= 0x200a {
            9 + (code - 0x2000)
        } else if code == 0x2028 {
            20
        } else if code == 0x2029 {
            21
        } else if code == 0x202f {
            22
        } else if code == 0x205f {
            23
        } else {
            24
        };
        assert(all[at] == c);
    }
}

/// Whether `rest` is what stands in `text` from `start` to `end`, with nothing but white space
/// around it.
pub open spec fn is_core(text: Seq<char>, start: int, end: int, rest: Seq<char>) -> bool {
    &&& 0 <= start <= end <= text.len()
    &&& rest == text.subrange(start, end)
    &&& forall|i: int| 0 <= i < start ==> is_white_space(#[trigger] text[i])
    &&& forall|i: int| end <= i < text.len() ==> is_white_space(#[trigger] text[i])
}

proof fn lemma_core_behind(text: Seq<char>, start: int, end: int, rest: Seq<char>)
    requires
        text.len() > 0,
        is_white_space(text.first()),
        is_core(text.drop_first(), start, end, rest),
    ensures
        is_core(text, start + 1, end + 1, rest),
{
    let shorter = text.drop_first();
    assert(text.subrange(start + 1, end + 1) =~= shorter.subrange(start, end));
    assert forall|i: int| 0 <= i < start + 1 implies is_white_space(#[trigger] text[i]) by {
        if i > 0 {
            assert(is_white_space(shorter[i - 1]));
        }
    }
    assert forall|i: int| end + 1 <= i < text.len() implies is_white_space(#[trigger] text[i]) by {
        assert(is_white_space(shorter[i - 1]));
    }
}

proof fn lemma_core_before(text: Seq<char>, start: int, end: int, rest: Seq<char>)
    requires
        text.len() > 0,
        is_white_space(text.last()),
        is_core(text.drop_last(), start, end, rest),
    ensures
        is_core(text, start, end, rest),
{
    let shorter = text.drop_last();
    assert(text.subrange(start, end) =~= shorter.subrange(start, end));
    assert forall|i: int| 0 <= i < start implies is_white_space(#[trigger] text[i]) by {
        assert(is_white_space(shorter[i]));
    }
    assert forall|i: int| end <= i < text.len() implies is_white_space(#[trigger] text[i]) by {
        if i < shorter.len() {
            assert(is_white_space(shorter[i]));
        }
    }
}

/// Trimming takes away white space at the two ends and nothing else: what is left is one piece of
/// the text, all that stands before and after it is white space, and it neither starts nor ends
/// with any.
pub proof fn trimming_takes_white_space_alone(text: Seq<char>)
    ensures
        exists|start: int, end: int| #[trigger] is_core(text, start, end, trimmed(text)),
        trimmed(text).len() > 0 ==> !is_white_space(trimmed(text).first()) && !is_white_space(
            trimmed(text).last(),
        ),
    decreases text.len(),
{
    trimming_is_thorough(text);
    if text.len() > 0 && is_white_space(text.first()) {
        let rest = text.drop_first();
        trimming_takes_white_space_alone(rest);
        let (start, end) = choose|start: int, end: int| #[trigger]
            is_core(rest, start, end, trimmed(rest));
        lemma_core_behind(text, start, end, trimmed(rest));
    } else if text.len() > 0 && is_white_space(text.last()) {
        let rest = text.drop_last();
        trimming_takes_white_space_alone(rest);
        let (start, end) = choose|start: int, end: int| #[trigger]
            is_core(rest, start, end, trimmed(rest));
        lemma_core_before(text, start, end, trimmed(rest));
    } else {
        assert(text.subrange(0, text.len() as int) =~= text);
        assert(is_core(text, 0, text.len() as int, trimmed(text)));
    }
}

/// The number that digits stand for in `base`.
pub open spec fn value_in(digits: Seq<char>, base: nat) -> int
    decreases digits.len(),
{
    if digits.len() == 0 {
        0
    } else {
        base * value_in(digits.drop_last(), base) + (digits.last() as int - 48)
    }
}

proof fn lemma_digits_in(number: nat, base: nat)
    requires
        2 <= base <= 10,
    ensures
        value_in(digits(number, base), base) == number,
        digits(number, base).len() > 0,
        digits(number, base)[0] == '0' <==> number == 0,
        number == 0 ==> digits(number, base).len() == 1,
        forall|i: int|
            0 <= i < digits(number, base).len() ==> 48 <= (#[trigger] digits(number, base)[i]) as int
                && ((digits(number, base)[i]) as int) < 48 + base,
    decreases number,
{
    reveal_with_fuel(value_in, 2);
    let all = digits(number, base);
    if number >= base {
        assert(number / base < number && number / base > 0 && number == base * (number / base)
            + number % base && number % base < base) by (nonlinear_arith)
            requires
                number >= base,
                base >= 2,
        ;
        lemma_digits_in(number / base, base);
        let shorter = digits(number / base, base);
        assert(all == shorter.push(digit_char((number % base) as int)));
        assert(all.drop_last() =~= shorter);
        assert forall|i: int| 0 <= i < all.len() implies 48 <= (#[trigger] all[i]) as int
            && ((all[i]) as int) < 48 + base by {
            if i < shorter.len() {
                assert(all[i] == shorter[i]);
            }
        }
        assert(all[0] == shorter[0]);
    } else {
        assert(all.drop_last() =~= Seq::empty());
        assert(base * 0 == 0);
    }
}

/// A mode in octal is digits from `0` to `7` that stand for it, without a zero in front.
pub proof fn octal_numbers_stand_for_themselves(number: nat)
    ensures
        value_in(octal(number), 8) == number,
        octal(number).len() > 0,
        octal(number)[0] == '0' ==> number == 0 && octal(number).len() == 1,
        forall|i: int| 0 <= i < octal(number).len() ==> '0' <= #[trigger] octal(number)[i] <= '7',
{
    lemma_digits_in(number, 8);
}

/// A number in decimal is digits from `0` to `9` that stand for its magnitude, without a zero in
/// front, behind a `-` where the number is negative and behind nothing where it is not.
pub proof fn decimal_numbers_stand_for_themselves(number: int)
    ensures
        ({
            let written = decimal(number);
            let rest = if number < 0 {
                written.drop_first()
            } else {
                written
            };
            &&& number < 0 ==> written.len() > 0 && written[0] == '-'
            &&& value_in(rest, 10) == if number < 0 {
                -number
            } else {
                number
            }
            &&& rest.len() > 0
            &&& rest[0] == '0' ==> number == 0 && rest.len() == 1
            &&& plain_digits(rest)
        }),
{
    if number < 0 {
        lemma_digits_in((-number) as nat, 10);
        assert(decimal(number).drop_first() =~= digits((-number) as nat, 10));
    } else {
        lemma_digits_in(number as nat, 10);
    }
}

/// Whether a text starts with a minus.
pub open spec fn is_negative(text: Seq<char>) -> bool {
    text.len() > 0 && text[0] == '-'
}

/// What is behind the sign of a text, where it has one.
pub open spec fn behind_sign(text: Seq<char>) -> Seq<char> {
    if text.len() > 0 && (text[0] == '-' || text[0] == '+') {
        text.drop_first()
    } else {
        text
    }
}

/// Whether all characters are between `0` and `9`.
pub open spec fn plain_digits(text: Seq<char>) -> bool {
    forall|i: int| 0 <= i < text.len() ==> '0' <= #[trigger] text[i] <= '9'
}

/// The number that digits stand for, taken negative where `negative` says so.
pub open spec fn signed_value(digits: Seq<char>, negative: bool) -> int {
    if negative {
        -value_in(digits, 10)
    } else {
        value_in(digits, 10)
    }
}

/// A text is an integer when it is one sign or none and then characters from `0` to `9`, at least
/// one, and the number that they stand for is one of 64 bits; it is that number.
pub proof fn integers_are_what_their_digits_stand_for(text: Seq<char>)
    ensures
        integer_in(text) is Ok <==> {
            &&& behind_sign(text).len() > 0
            &&& plain_digits(behind_sign(text))
            &&& -0x8000_0000_0000_0000 <= signed_value(
                behind_sign(text),
                is_negative(text),
            ) <= 0x7fff_ffff_ffff_ffff
        },
        integer_in(text) matches Ok(read) ==> read == signed_value(
            behind_sign(text),
            is_negative(text),
        ),
{
    integers_are_signed_digits(text);
    let rest = behind_sign(text);
    lemma_same_value(rest);
    assert(plain_digits(rest) == all_digits(rest)) by {
        if all_digits(rest) {
            assert forall|i: int| 0 <= i < rest.len() implies '0' <= #[trigger] rest[i] <= '9' by {
                assert(is_digit(rest[i]));
            }
        }
    }
}

proof fn lemma_same_value(digits: Seq<char>)
    ensures
        digits_value(digits) == value_in(digits, 10),
    decreases digits.len(),
{
    if digits.len() > 0 {
        lemma_same_value(digits.drop_last());
    }
}

/// Whether the first `length` characters are digits whose number is one of 64 bits.
pub open spec fn reads_up_to(text: Seq<char>, length: int, negative: bool) -> bool {
    &&& plain_digits(text.take(length))
    &&& -0x8000_0000_0000_0000 <= signed_value(text.take(length), negative) <= 0x7fff_ffff_ffff_ffff
}

/// Whether a text, read from the left, comes to the error `error` at its character `at`: all goes
/// well before, and there is a character that is no digit, or one that makes the number too large
/// in the direction of its sign.
pub open spec fn stops_at(text: Seq<char>, at: int, negative: bool, error: IntegerError) -> bool {
    &&& 0 <= at < text.len()
    &&& reads_up_to(text, at, negative)
    &&& match error {
        IntegerError::Empty => false,
        IntegerError::InvalidDigit => text[at] < '0' || '9' < text[at],
        IntegerError::PosOverflow => !negative && '0' <= text[at] <= '9' && signed_value(
            text.take(at + 1),
            negative,
        ) > 0x7fff_ffff_ffff_ffff,
        IntegerError::NegOverflow => negative && '0' <= text[at] <= '9' && signed_value(
            text.take(at + 1),
            negative,
        ) < -0x8000_0000_0000_0000,
    }
}

/// Why a text is no integer: it is empty; or it ends behind its sign; or it is told what is met
/// first, a character that is no digit or a number that is too large.
pub proof fn integer_errors_tell_what_is_met_first(text: Seq<char>)
    ensures
        integer_in(text) == Err::<int, IntegerError>(IntegerError::Empty) <==> text.len() == 0,
        text.len() == 1 && (text[0] == '-' || text[0] == '+') ==> integer_in(text) == Err::<
            int,
            IntegerError,
        >(IntegerError::InvalidDigit),
        behind_sign(text).len() > 0 ==> (integer_in(text) matches Err(error) ==> exists|at: int|
            #[trigger]
            stops_at(behind_sign(text), at, is_negative(text), error)),
{
    let rest = behind_sign(text);
    if text.len() > 0 && rest.len() > 0 {
        lemma_scan_error(rest, is_negative(text));
    }
}

proof fn lemma_scan_error(digits: Seq<char>, negative: bool)
    ensures
        match scanned(digits, negative) {
            Ok(number) => reads_up_to(digits, digits.len() as int, negative) && number
                == signed_value(digits, negative),
            Err(error) => exists|at: int| #[trigger] stops_at(digits, at, negative, error),
        },
    decreases digits.len(),
{
    assert(digits.take(digits.len() as int) =~= digits);
    if digits.len() > 0 {
        let shorter = digits.drop_last();
        let last = digits.len() - 1;
        lemma_scan_error(shorter, negative);
        lemma_scanned(shorter, negative);
        lemma_same_value(shorter);
        assert(digits.take(last) =~= shorter);
        match scanned(shorter, negative) {
            Ok(number) => {
                assert(shorter.take(last) =~= shorter);
                assert(reads_up_to(digits, last, negative));
                assert(digits.take(last + 1) =~= digits);
                assert(value_in(digits, 10) == 10 * value_in(shorter, 10) + (digits.last() as int
                    - 48));
                if let Err(error) = scanned(digits, negative) {
                    assert(stops_at(digits, last, negative, error));
                } else {
                    assert forall|i: int| 0 <= i < digits.len() implies '0' <= #[trigger] digits[i]
                        <= '9' by {
                        if i < last {
                            assert(shorter[i] == digits[i]);
                        }
                    }
                }
            },
            Err(error) => {
                let at = choose|at: int| #[trigger] stops_at(shorter, at, negative, error);
                assert(digits[at] == shorter[at]);
                assert(digits.take(at) =~= shorter.take(at));
                assert(digits.take(at + 1) =~= shorter.take(at + 1));
                assert(stops_at(digits, at, negative, error));
            },
        }
    }
}

} // verus!
