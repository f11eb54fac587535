//! Text: what the library reads out of header values and subject ids, and
//! how it writes numbers down.

use vstd::prelude::*;
use vstd::string::StrSliceExecFns;
use vstd::string::StringExecFns;

verus! {

/// What is left of `value` behind `prefix`, where it starts with it.
pub open spec fn spec_strip_prefix(value: Seq<char>, prefix: Seq<char>) -> Option<Seq<char>> {
    if prefix.is_prefix_of(value) {
        Some(value.skip(prefix.len() as int))
    } else {
        None
    }
}

/// What is left of `value` behind `prefix`, where it starts with it.
pub fn strip_prefix(value: &str, prefix: &str) -> (rest: Option<String>)
    ensures
        rest is Some <==> spec_strip_prefix(value@, prefix@) is Some,
        rest matches Some(text) ==> spec_strip_prefix(value@, prefix@) == Some(text@),
{
    let value_len = value.unicode_len();
    let prefix_len = prefix.unicode_len();
    if value_len < prefix_len {
        return None;
    }
    let mut index: usize = 0;
    while index < prefix_len
        invariant
            index <= prefix_len <= value_len,
            value_len == value@.len(),
            prefix_len == prefix@.len(),
            forall|k: int| 0 <= k < index ==> value@[k] == prefix@[k],
        decreases prefix_len - index,
    {
        if value.get_char(index) != prefix.get_char(index) {
            return None;
        }
        index = index + 1;
    }
    assert(value@.subrange(0, prefix@.len() as int) =~= prefix@);
    assert(value@.subrange(prefix_len as int, value_len as int) =~= value@.skip(
        prefix@.len() as int,
    ));
    Some(value.substring_char(prefix_len, value_len).to_owned())
}

/// Whether a character is one of the ten decimal digits.
pub open spec fn spec_is_digit(c: char) -> bool {
    '0' <= c <= '9'
}

/// Whether every character is a decimal digit.
pub open spec fn spec_all_digits(text: Seq<char>) -> bool {
    forall|k: int| 0 <= k < text.len() ==> spec_is_digit(#[trigger] text[k])
}

/// The number that a run of decimal digits writes, the last digit counting
/// ones.
pub open spec fn spec_decimal(digits: Seq<char>) -> int
    decreases digits.len(),
{
    if digits.len() == 0 {
        0
    } else {
        spec_decimal(digits.drop_last()) * 10 + (digits.last() as int - '0' as int)
    }
}

/// The `i32` that `text` writes: an optional sign, then decimal digits, at
/// least one, and nothing else; the number must be one that an `i32` holds.
pub open spec fn spec_parse_i32(text: Seq<char>) -> Option<i32> {
    let negative = text.len() > 0 && text[0] == '-';
    let signed = text.len() > 0 && (text[0] == '-' || text[0] == '+');
    let digits = if signed {
        text.skip(1)
    } else {
        text
    };
    let value = if negative {
        -spec_decimal(digits)
    } else {
        spec_decimal(digits)
    };
    if digits.len() > 0 && spec_all_digits(digits) && i32::MIN <= value <= i32::MAX {
        Some(value as i32)
    } else {
        None
    }
}

/// A run of digits writes a number that is not negative, and no smaller than
/// what any of its beginnings writes.
pub proof fn lemma_decimal_grows(digits: Seq<char>, shorter: int)
    requires
        spec_all_digits(digits),
        0 <= shorter <= digits.len(),
    ensures
        0 <= spec_decimal(digits.take(shorter)) <= spec_decimal(digits),
    decreases digits.len() - shorter,
{
    if shorter == digits.len() {
        assert(digits.take(shorter) =~= digits);
        lemma_decimal_not_negative(digits);
    } else {
        lemma_decimal_grows(digits, shorter + 1);
        let longer = digits.take(shorter + 1);
        assert(longer.drop_last() =~= digits.take(shorter));
        assert(longer.last() == digits[shorter]);
        assert(spec_is_digit(digits[shorter]));
        lemma_decimal_not_negative_take(digits, shorter);
    }
}

/// A run of digits writes a number that is not negative.
pub proof fn lemma_decimal_not_negative(digits: Seq<char>)
    requires
        spec_all_digits(digits),
    ensures
        0 <= spec_decimal(digits),
    decreases digits.len(),
{
    if digits.len() > 0 {
        assert(spec_is_digit(digits[digits.len() - 1]));
        assert forall|k: int| 0 <= k < digits.drop_last().len() implies spec_is_digit(
            #[trigger] digits.drop_last()[k],
        ) by {
            assert(digits.drop_last()[k] == digits[k]);
        }
        lemma_decimal_not_negative(digits.drop_last());
    }
}

/// A beginning of a run of digits writes a number that is not negative.
proof fn lemma_decimal_not_negative_take(digits: Seq<char>, shorter: int)
    requires
        spec_all_digits(digits),
        0 <= shorter <= digits.len(),
    ensures
        0 <= spec_decimal(digits.take(shorter)),
{
    assert forall|k: int| 0 <= k < digits.take(shorter).len() implies spec_is_digit(
        #[trigger] digits.take(shorter)[k],
    ) by {
        assert(digits.take(shorter)[k] == digits[k]);
    }
    lemma_decimal_not_negative(digits.take(shorter));
}

/// The `i32` that `text` writes, if it writes one.
pub fn parse_i32(text: &str) -> (number: Option<i32>)
    ensures
        number == spec_parse_i32(text@),
{
    let len = text.unicode_len();
    if len == 0 {
        return None;
    }
    let first = text.get_char(0);
    let negative = first == '-';
    let start: usize = if first == '-' || first == '+' {
        1
    } else {
        0
    };
    if start == len {
        return None;
    }
    let ghost digits = text@.skip(start as int);
    proof {
        assert(text@.skip(0) =~= text@);
        assert(digits.len() == len - start);
    }
    let mut value: i64 = 0;
    let mut index: usize = start;
    while index < len
        invariant
            start <= index <= len,
            len == text@.len(),
            digits == text@.skip(start as int),
            digits == if text@[0] == '-' || text@[0] == '+' {
                text@.skip(1)
            } else {
                text@
            },
            forall|k: int| 0 <= k < index - start ==> spec_is_digit(#[trigger] digits[k]),
            value == spec_decimal(digits.take(index - start)),
            0 <= value <= 2147483648,
        decreases len - index,
    {
        let c = text.get_char(index);
        assert(c == digits[index - start]);
        if c < '0' || c > '9' {
            assert(!spec_is_digit(digits[index - start]));
            return None;
        }
        let digit: i64 = (c as u32 - '0' as u32) as i64;
        proof {
            let longer = digits.take(index - start + 1);
            assert(longer.drop_last() =~= digits.take(index - start));
            assert(longer.last() == c);
        }
        value = value * 10 + digit;
        index = index + 1;
        if value > 2147483648 {
            proof {
                if spec_all_digits(digits) {
                    lemma_decimal_grows(digits, index - start);
                }
            }
            return None;
        }
    }
    assert(digits.take(index - start) =~= digits);
    assert(spec_all_digits(digits));
    let signed: i64 = if negative {
        -value
    } else {
        value
    };
    if signed < -2147483648 || signed > 2147483647 {
        None
    } else {
        Some(signed as i32)
    }
}

/// The character that writes a digit.
pub open spec fn spec_digit_char(digit: int) -> char {
    if digit == 0 {
        '0'
    } else if digit == 1 {
        '1'
    } else if digit == 2 {
        '2'
    } else if digit == 3 {
        '3'
    } else if digit == 4 {
        '4'
    } else if digit == 5 {
        '5'
    } else if digit == 6 {
        '6'
    } else if digit == 7 {
        '7'
    } else if digit == 8 {
        '8'
    } else {
        '9'
    }
}

/// The digits that write a number that is not negative: as few as do, and
/// one for zero.
pub open spec fn spec_digits(number: int) -> Seq<char>
    decreases number,
{
    if number < 10 {
        seq![spec_digit_char(number)]
    } else {
        spec_digits(number / 10).push(spec_digit_char(number % 10))
    }
}

/// How a number is written: its digits, behind a minus sign where it is
/// negative.
pub open spec fn spec_format_integer(number: int) -> Seq<char> {
    if number < 0 {
        seq!['-'] + spec_digits(-number)
    } else {
        spec_digits(number)
    }
}

/// The character that writes a digit is a digit, and counts as much.
proof fn lemma_digit_char_value(digit: int)
    requires
        0 <= digit < 10,
    ensures
        spec_is_digit(spec_digit_char(digit)),
        spec_digit_char(digit) as int - '0' as int == digit,
{
}

/// The digits of a number are digits, not none, and write that number.
pub proof fn lemma_digits_write_number(number: int)
    requires
        number >= 0,
    ensures
        spec_digits(number).len() > 0,
        spec_all_digits(spec_digits(number)),
        spec_decimal(spec_digits(number)) == number,
    decreases number,
{
    if number < 10 {
        let digits = spec_digits(number);
        assert(digits.drop_last() =~= Seq::<char>::empty());
        assert(digits.last() == spec_digit_char(number));
        lemma_digit_char_value(number);
        assert(spec_decimal(Seq::<char>::empty()) == 0);
        assert(spec_decimal(digits) == spec_decimal(digits.drop_last()) * 10 + (digits.last() as int
            - '0' as int));
    } else {
        lemma_digits_write_number(number / 10);
        let shorter = spec_digits(number / 10);
        let digits = spec_digits(number);
        assert(digits.drop_last() =~= shorter);
        assert(digits.last() == spec_digit_char(number % 10));
        lemma_digit_char_value(number % 10);
        assert(spec_decimal(digits) == spec_decimal(digits.drop_last()) * 10 + (digits.last() as int
            - '0' as int));
        assert forall|k: int| 0 <= k < digits.len() implies spec_is_digit(#[trigger] digits[k]) by {
            if k < shorter.len() {
                assert(digits[k] == shorter[k]);
            }
        }
    }
}

/// A number that an `i32` holds reads back from how it is written.
pub proof fn law_written_i32_reads_back(number: i32)
    ensures
        spec_parse_i32(spec_format_integer(number as int)) == Some(number),
{
    let text = spec_format_integer(number as int);
    if number < 0 {
        lemma_digits_write_number(-(number as int));
        assert(text[0] == '-');
        assert(text.skip(1) =~= spec_digits(-(number as int)));
    } else {
        lemma_digits_write_number(number as int);
        let digits = spec_digits(number as int);
        assert(spec_is_digit(digits[0]));
        assert(text[0] != '-' && text[0] != '+');
    }
}

/// The one-character text that writes a digit.
fn digit_text(digit: u8) -> (text: &'static str)
    requires
        digit < 10,
    ensures
        text@ == seq![spec_digit_char(digit as int)],
{
    proof {
        reveal_strlit("0");
        reveal_strlit("1");
        reveal_strlit("2");
        reveal_strlit("3");
        reveal_strlit("4");
        reveal_strlit("5");
        reveal_strlit("6");
        reveal_strlit("7");
        reveal_strlit("8");
        reveal_strlit("9");
    }
    let text = if digit == 0 {
        "0"
    } else if digit == 1 {
        "1"
    } else if digit == 2 {
        "2"
    } else if digit == 3 {
        "3"
    } else if digit == 4 {
        "4"
    } else if digit == 5 {
        "5"
    } else if digit == 6 {
        "6"
    } else if digit == 7 {
        "7"
    } else if digit == 8 {
        "8"
    } else {
        "9"
    };
    assert(text@ =~= seq![spec_digit_char(digit as int)]);
    text
}

/// Writes the digits of `number` behind what `out` holds.
fn push_digits(number: u64, out: &mut String)
    ensures
        final(out)@ == old(out)@ + spec_digits(number as int),
    decreases number,
{
    if number >= 10 {
        push_digits(number / 10, out);
    }
    let last = digit_text((number % 10) as u8);
    out.append(last);
    assert(final(out)@ =~= old(out)@ + spec_digits(number as int));
}

/// Writes a number down: its digits, behind a minus sign where it is
/// negative.
pub fn format_i32(number: i32) -> (text: String)
    ensures
        text@ == spec_format_integer(number as int),
{
    let mut text = String::new();
    if number < 0 {
        text.append("-");
        proof {
            reveal_strlit("-");
            assert(text@ =~= seq!['-']);
        }
        push_digits((-(number as i64)) as u64, &mut text);
    } else {
        push_digits(number as u64, &mut text);
        assert(text@ =~= spec_digits(number as int));
    }
    text
}

} // verus!
