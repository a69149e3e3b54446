//! Unpacking of run-length notation.
//!
//! In the packed text a decimal number after a character says how often the
//! character stands in the unpacked text, and a backslash takes the character
//! after it literally, be it a digit or a backslash: `a4bc2d5e` unpacks to
//! `aaaabccddddde`, and `qwe\45` to `qwe44444`. [`unpack`] defines the
//! unpacked text, [`unpack_string`] computes it.

use vstd::prelude::*;

verus! {

/// Why a packed text cannot be unpacked.
#[derive(Debug, PartialEq)]
pub enum UnpackError {
    /// The text breaks the notation; the message says how.
    InvalidInput(String),
}

/// What a packed text unpacks to.
pub enum Unpacked {
    /// The unpacked text.
    Text(Seq<char>),
    /// A number stands where no character precedes it.
    LeadingDigit,
    /// The text ends with a backslash that has no character after it.
    TrailingBackslash,
    /// A number is zero, or too large for the machine to count to.
    BadCount,
}

/// Whether `c` is one of the digits `0` to `9`.
pub open spec fn is_digit(c: char) -> bool {
    '0' <= c && c <= '9'
}

/// The value of the digit `c`.
pub open spec fn digit_value(c: char) -> nat
    recommends
        is_digit(c),
{
    (c as u32 - '0' as u32) as nat
}

/// The number that the digits `digits` denote in decimal notation.
pub open spec fn number(digits: Seq<char>) -> nat
    decreases digits.len(),
{
    if digits.len() == 0 {
        0
    } else {
        number(digits.drop_last()) * 10 + digit_value(digits.last())
    }
}

/// The place after the digits that stand in `input` from `at` on without a
/// gap; `at` itself where no digit stands there.
pub open spec fn digits_end(input: Seq<char>, at: int) -> int
    decreases input.len() - at,
{
    if 0 <= at < input.len() && is_digit(input[at]) {
        digits_end(input, at + 1)
    } else {
        at
    }
}

/// The run of digits from `at` ends inside the text, behind `at` if a digit
/// stands there.
pub proof fn lemma_digits_end_is_ahead(input: Seq<char>, at: int)
    requires
        0 <= at <= input.len(),
    ensures
        at <= digits_end(input, at) <= input.len(),
        at < input.len() && is_digit(input[at]) ==> at < digits_end(input, at),
    decreases input.len() - at,
{
    if at < input.len() && is_digit(input[at]) {
        lemma_digits_end_is_ahead(input, at + 1);
    }
}

/// `times` copies of `c`.
pub open spec fn repeated(c: char, times: nat) -> Seq<char> {
    Seq::new(times, |i: int| c)
}

/// What the part of `input` from `at` on unpacks to, behind the text `out`
/// that the part before `at` gave.
///
/// A backslash appends the character after it. A number, read as far as its
/// digits go, appends the last character of `out` until that character
/// stands there as often as the number says, the one occurrence that `out`
/// ends with included. Every other character is appended as it is.
pub open spec fn unpack_from(input: Seq<char>, at: int, out: Seq<char>) -> Unpacked
    decreases input.len() - at,
{
    if at < 0 || at >= input.len() {
        Unpacked::Text(out)
    } else if input[at] == '\\' {
        if at + 1 < input.len() {
            unpack_from(input, at + 2, out.push(input[at + 1]))
        } else {
            Unpacked::TrailingBackslash
        }
    } else if is_digit(input[at]) {
        if out.len() == 0 {
            Unpacked::LeadingDigit
        } else {
            let end = digits_end(input, at);
            let count = number(input.subrange(at, end));
            if count == 0 || count > usize::MAX {
                Unpacked::BadCount
            } else {
                proof {
                    lemma_digits_end_is_ahead(input, at);
                }
                unpack_from(input, end, out + repeated(out.last(), (count - 1) as nat))
            }
        }
    } else {
        unpack_from(input, at + 1, out.push(input[at]))
    }
}

/// What `input` unpacks to.
pub open spec fn unpack(input: Seq<char>) -> Unpacked {
    unpack_from(input, 0, Seq::empty())
}

/// A number does not shrink when a digit is appended to it.
proof fn lemma_number_grows(digits: Seq<char>, longer: Seq<char>)
    requires
        digits.len() <= longer.len(),
        longer.take(digits.len() as int) == digits,
    ensures
        number(digits) <= number(longer),
    decreases longer.len(),
{
    if digits.len() < longer.len() {
        assert(longer.drop_last().take(digits.len() as int) =~= digits);
        lemma_number_grows(digits, longer.drop_last());
    } else {
        assert(longer =~= digits);
    }
}

/// The characters of `input`, one by one.
fn characters(input: &str) -> (chars: Vec<char>)
    ensures
        chars@ == input@,
{
    let mut chars: Vec<char> = Vec::new();
    for c in it: input.chars()
        invariant
            it.seq() == input@,
            chars@ == it.seq().take(it.index()),
    {
        chars.push(c);
    }
    chars
}

fn is_decimal_digit(c: char) -> (yes: bool)
    ensures
        yes == is_digit(c),
{
    '0' <= c && c <= '9'
}

fn value_of_digit(c: char) -> (value: usize)
    requires
        is_digit(c),
    ensures
        value == digit_value(c),
        value <= 9,
{
    (c as u32 - '0' as u32) as usize
}

fn invalid(message: &str) -> (error: UnpackError)
    ensures
        error matches UnpackError::InvalidInput(text) && text@ == message@,
{
    UnpackError::InvalidInput(message.to_owned())
}

/// Unpacks `input`.
///
/// Fails with the message `Leading digit` where a number stands before any
/// character, and with `Trailing backslash` where the text ends in a
/// backslash with nothing to take literally; the first of these from the left
/// decides. A text with a number that is zero or beyond `usize::MAX` has no
/// unpacked form and may not be passed.
pub fn unpack_string(input: &str) -> (result: Result<String, UnpackError>)
    requires
        !(unpack(input@) is BadCount),
    ensures
        match unpack(input@) {
            Unpacked::Text(text) => result matches Ok(unpacked) && unpacked@ == text,
            Unpacked::LeadingDigit => result matches Err(UnpackError::InvalidInput(message))
                && message@ == "Leading digit"@,
            Unpacked::TrailingBackslash => result matches Err(UnpackError::InvalidInput(message))
                && message@ == "Trailing backslash"@,
            Unpacked::BadCount => true,
        },
{
    let chars = characters(input);
    let mut result = String::new();
    let mut last: char = ' ';
    let mut empty = true;
    let mut at: usize = 0;
    while at < chars.len()
        invariant
            chars@ == input@,
            at <= chars.len(),
            unpack_from(input@, at as int, result@) == unpack(input@),
            !(unpack(input@) is BadCount),
            empty == (result@.len() == 0),
            !empty ==> last == result@.last(),
        decreases chars.len() - at,
    {
        let c = chars[at];
        if c == '\\' {
            if at + 1 < chars.len() {
                let taken = chars[at + 1];
                result.push(taken);
                last = taken;
                empty = false;
                at += 2;
            } else {
                return Err(invalid("Trailing backslash"));
            }
        } else if is_decimal_digit(c) {
            if empty {
                return Err(invalid("Leading digit"));
            }
            proof {
                lemma_digits_end_is_ahead(input@, at as int);
            }
            let ghost stop = digits_end(input@, at as int);
            let ghost whole = input@.subrange(at as int, stop);
            let ghost out = result@;
            let mut count: usize = value_of_digit(c);
            let mut end: usize = at + 1;
            proof {
                assert(input@.subrange(at as int, end as int) =~= seq![c]);
                assert(number(seq![c]) == digit_value(c)) by {
                    reveal_with_fuel(number, 2);
                }
            }
            while end < chars.len() && is_decimal_digit(chars[end])
                invariant
                    chars@ == input@,
                    at < end <= chars.len(),
                    end <= stop <= input@.len(),
                    stop == digits_end(input@, at as int),
                    stop == digits_end(input@, end as int),
                    whole == input@.subrange(at as int, stop),
                    count == number(input@.subrange(at as int, end as int)),
                    number(whole) <= usize::MAX,
                decreases chars.len() - end,
            {
                let ghost shorter = input@.subrange(at as int, end as int);
                let ghost longer = input@.subrange(at as int, end + 1);
                proof {
                    lemma_digits_end_is_ahead(input@, end as int);
                    assert(longer.drop_last() =~= shorter);
                    assert(whole.take(longer.len() as int) =~= longer);
                    lemma_number_grows(longer, whole);
                }
                count = count * 10 + value_of_digit(chars[end]);
                end += 1;
            }
            let mut copies: usize = 1;
            while copies < count
                invariant
                    1 <= copies <= count,
                    result@ == out + repeated(last, (copies - 1) as nat),
                decreases count - copies,
            {
                result.push(last);
                copies += 1;
            }
            proof {
                if count > 1 {
                    assert(result@.last() == repeated(last, (count - 1) as nat)[count - 2]);
                }
            }
            at = end;
        } else {
            result.push(c);
            last = c;
            empty = false;
            at += 1;
        }
    }
    Ok(result)
}

} // verus!
