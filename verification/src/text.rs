//! Reading numbers out of text: decimal digits, and the white space around
//! them.

use vstd::prelude::*;
use vstd::string::StrSliceExecFns;

verus! {

/// Whether `c` is one of the decimal digits `0` to `9`.
pub open spec fn is_digit(c: char) -> bool {
    '0' as u32 <= c as u32 && c as u32 <= '9' as u32
}

/// The value of the decimal digit `c`.
pub open spec fn digit_value(c: char) -> nat {
    (c as u32 - '0' as u32) as nat
}

/// The number that the decimal digits `s` write; zero for no digit.
pub open spec fn digits_value(s: Seq<char>) -> nat
    decreases s.len(),
{
    if s.len() == 0 {
        0
    } else {
        digits_value(s.drop_last()) * 10 + digit_value(s.last())
    }
}

/// Why a text writes no number.
#[derive(Clone, Copy, Debug, PartialEq, Eq, Structural)]
pub enum NumberError {
    /// The text is empty.
    Empty,
    /// The text holds something else than digits behind an optional `+`, or
    /// no digit at all.
    InvalidDigit,
    /// The digits write a number above the largest one allowed.
    PosOverflow,
}

/// How many decimal digits `s` begins with.
pub open spec fn leading_digits(s: Seq<char>) -> nat
    decreases s.len(),
{
    if s.len() > 0 && is_digit(s.first()) {
        1 + leading_digits(s.drop_first())
    } else {
        0
    }
}

/// The number up to `max` that `s` writes in decimal: one digit or more, with
/// or without a `+` in front, and nothing else. Where `s` writes no such
/// number, the reason is the first thing that is wrong with it, read from
/// the left: digits that lead above `max` before anything else than a digit
/// is met are an overflow.
pub open spec fn read_number(s: Seq<char>, max: nat) -> Result<nat, NumberError> {
    if s.len() == 0 {
        Err(NumberError::Empty)
    } else {
        let digits = if s[0] == '+' {
            s.drop_first()
        } else {
            s
        };
        let leading = leading_digits(digits);
        if digits.len() == 0 {
            Err(NumberError::InvalidDigit)
        } else if digits_value(digits.take(leading as int)) > max {
            Err(NumberError::PosOverflow)
        } else if leading < digits.len() {
            Err(NumberError::InvalidDigit)
        } else {
            Ok(digits_value(digits))
        }
    }
}

/// The outcome of reading a number, with the number taken as a natural
/// number.
pub open spec fn number_view(outcome: Result<u64, NumberError>) -> Result<nat, NumberError> {
    match outcome {
        Ok(value) => Ok(value as nat),
        Err(error) => Err(error),
    }
}

/// The outcome of reading a number that fits the word of the machine, with
/// the number taken as a natural number.
pub open spec fn size_view(outcome: Result<usize, NumberError>) -> Result<nat, NumberError> {
    match outcome {
        Ok(value) => Ok(value as nat),
        Err(error) => Err(error),
    }
}

/// Whether `c` is white space: one of the characters that Unicode gives the
/// property `White_Space`.
pub open spec fn is_white_space(c: char) -> bool {
    let v = c as u32;
    ||| 0x09 <= v <= 0x0D
    ||| v == 0x20
    ||| v == 0x85
    ||| v == 0xA0
    ||| v == 0x1680
    ||| 0x2000 <= v <= 0x200A
    ||| v == 0x2028
    ||| v == 0x2029
    ||| v == 0x202F
    ||| v == 0x205F
    ||| v == 0x3000
}

/// `s` without the white space at its start.
pub open spec fn trimmed_start(s: Seq<char>) -> Seq<char>
    decreases s.len(),
{
    if s.len() > 0 && is_white_space(s.first()) {
        trimmed_start(s.drop_first())
    } else {
        s
    }
}

/// `s` without the white space at its end.
pub open spec fn trimmed_end(s: Seq<char>) -> Seq<char>
    decreases s.len(),
{
    if s.len() > 0 && is_white_space(s.last()) {
        trimmed_end(s.drop_last())
    } else {
        s
    }
}

/// `s` without the white space at its start and at its end.
pub open spec fn trimmed(s: Seq<char>) -> Seq<char> {
    trimmed_end(trimmed_start(s))
}

/// More digits never write a smaller number: the first `k` digits of `s`
/// write at most what all of `s` writes.
proof fn lemma_digits_value_grows(s: Seq<char>, k: int)
    requires
        0 <= k <= s.len(),
    ensures
        digits_value(s.take(k)) <= digits_value(s),
    decreases s.len() - k,
{
    if k == s.len() {
        assert(s.take(k) == s);
    } else {
        assert(s.take(k + 1).drop_last() == s.take(k));
        lemma_digits_value_grows(s, k + 1);
    }
}

/// Whether `c` is a decimal digit.
pub fn digit(c: char) -> (res: bool)
    ensures
        res == is_digit(c),
{
    let v: u32 = c as u32;
    48 <= v && v <= 57
}

/// Whether `c` is white space.
pub fn white_space(c: char) -> (res: bool)
    ensures
        res == is_white_space(c),
{
    let v: u32 = c as u32;
    (0x09 <= v && v <= 0x0D) || v == 0x20 || v == 0x85 || v == 0xA0 || v == 0x1680 || (0x2000
        <= v && v <= 0x200A) || v == 0x2028 || v == 0x2029 || v == 0x202F || v == 0x205F || v
        == 0x3000
}

/// One digit more: the first `k + 1` digits of `s` write ten times what the
/// first `k` write, plus the digit that follows them.
proof fn lemma_digits_value_next(s: Seq<char>, k: int)
    requires
        0 <= k < s.len(),
    ensures
        digits_value(s.take(k + 1)) == digits_value(s.take(k)) * 10 + digit_value(s[k]),
{
    assert(s.take(k + 1).drop_last() == s.take(k));
    assert(s.take(k + 1).last() == s[k]);
}

/// A text that begins with `count` digits begins with at least so many.
proof fn lemma_leading_digits_at_least(s: Seq<char>, count: int)
    requires
        0 <= count <= s.len(),
        forall|k: int| 0 <= k < count ==> is_digit(#[trigger] s[k]),
    ensures
        leading_digits(s) >= count,
        count == s.len() || !is_digit(s[count]) ==> leading_digits(s) == count,
    decreases count,
{
    if count > 0 {
        let rest = s.drop_first();
        assert forall|k: int| 0 <= k < count - 1 implies is_digit(#[trigger] rest[k]) by {
            assert(rest[k] == s[k + 1]);
        }
        lemma_leading_digits_at_least(rest, count - 1);
    }
}

/// A text never begins with more digits than it is long.
proof fn lemma_leading_digits_at_most(s: Seq<char>)
    ensures
        leading_digits(s) <= s.len(),
    decreases s.len(),
{
    if s.len() > 0 && is_digit(s.first()) {
        lemma_leading_digits_at_most(s.drop_first());
    }
}

/// Reads the number that the characters of `text` from position `start` on
/// write in decimal digits.
fn parse_digits(text: &str, start: usize, max: u64) -> (res: Result<u64, NumberError>)
    requires
        start < text@.len(),
    ensures
        ({
            let digits = text@.skip(start as int);
            let leading = leading_digits(digits);
            number_view(res) == (if digits_value(digits.take(leading as int)) > max {
                Err(NumberError::PosOverflow)
            } else if leading < digits.len() {
                Err(NumberError::InvalidDigit)
            } else {
                Ok(digits_value(digits))
            })
        }),
        res matches Ok(value) ==> value <= max,
{
    let len = text.unicode_len();
    let ghost digits = text@.skip(start as int);
    let mut value: u64 = 0;
    let mut i: usize = start;
    assert(digits.take(0) == Seq::<char>::empty());
    while i < len
        invariant
            start <= i <= len,
            len == text@.len(),
            digits == text@.skip(start as int),
            forall|k: int| 0 <= k < i - start ==> is_digit(#[trigger] digits[k]),
            value == digits_value(digits.take(i - start)),
            value <= max,
        decreases len - i,
    {
        let c = text.get_char(i);
        assert(digits[i - start] == c);
        if !digit(c) {
            proof {
                lemma_leading_digits_at_least(digits, i - start);
            }
            return Err(NumberError::InvalidDigit);
        }
        let d: u64 = (c as u32 - 48) as u64;
        proof {
            lemma_digits_value_next(digits, i - start);
        }
        if d > max || value > (max - d) / 10 {
            proof {
                let leading = leading_digits(digits) as int;
                lemma_leading_digits_at_least(digits, i - start + 1);
                lemma_leading_digits_at_most(digits);
                lemma_digits_value_grows(digits.take(leading), i - start + 1);
                assert(digits.take(leading).take(i - start + 1) == digits.take(i - start + 1));
            }
            return Err(NumberError::PosOverflow);
        }
        value = value * 10 + d;
        i += 1;
    }
    proof {
        lemma_leading_digits_at_least(digits, len - start);
        assert(digits.take(len - start) == digits);
    }
    Ok(value)
}

/// Reads a number up to `max` written in decimal. Gives the number where
/// `text` writes one, and otherwise what is wrong with the text.
pub fn parse_number(text: &str, max: u64) -> (res: Result<u64, NumberError>)
    ensures
        number_view(res) == read_number(text@, max as nat),
        res matches Ok(value) ==> value <= max,
{
    let len = text.unicode_len();
    if len == 0 {
        return Err(NumberError::Empty);
    }
    let start: usize = if text.get_char(0) == '+' {
        1
    } else {
        0
    };
    if start == len {
        assert(text@.drop_first().len() == 0);
        return Err(NumberError::InvalidDigit);
    }
    assert(text@.skip(0) == text@);
    assert(text@.skip(1) == text@.drop_first());
    parse_digits(text, start, max)
}

/// Reads a number written in decimal that fits sixty-four bits.
pub fn parse_u64(text: &str) -> (res: Result<u64, NumberError>)
    ensures
        number_view(res) == read_number(text@, u64::MAX as nat),
{
    parse_number(text, u64::MAX)
}

/// Reads a number written in decimal that fits the word of the machine.
pub fn parse_usize(text: &str) -> (res: Result<usize, NumberError>)
    ensures
        size_view(res) == read_number(text@, usize::MAX as nat),
{
    match parse_number(text, usize::MAX as u64) {
        Ok(value) => Ok(value as usize),
        Err(error) => Err(error),
    }
}

/// `text` without the white space at its start and at its end.
pub fn trim(text: &str) -> (res: &str)
    ensures
        res@ == trimmed(text@),
{
    let len = text.unicode_len();
    let mut from: usize = 0;
    assert(text@.subrange(0, len as int) == text@);
    while from < len && white_space(text.get_char(from))
        invariant
            from <= len,
            len == text@.len(),
            trimmed_start(text@) == trimmed_start(text@.subrange(from as int, len as int)),
        decreases len - from,
    {
        assert(text@.subrange(from as int, len as int).drop_first() == text@.subrange(
            from as int + 1,
            len as int,
        ));
        from += 1;
    }
    let ghost rest = text@.subrange(from as int, len as int);
    assert(trimmed_start(text@) == rest);
    let mut to: usize = len;
    while to > from && white_space(text.get_char(to - 1))
        invariant
            from <= to <= len,
            len == text@.len(),
            rest == text@.subrange(from as int, len as int),
            trimmed_end(rest) == trimmed_end(text@.subrange(from as int, to as int)),
        decreases to,
    {
        assert(text@.subrange(from as int, to as int).drop_last() == text@.subrange(
            from as int,
            to as int - 1,
        ));
        to -= 1;
    }
    text.substring_char(from, to)
}

} // verus!
