//! Texts as sequences of characters: white space at the ends, decimal
//! numbers read and written.

use vstd::prelude::*;

verus! {

/// Whether a character is white space: whether it has the Unicode property
/// White_Space. These are the code points of that property.
pub open spec fn is_whitespace(c: char) -> bool {
    let code = c as u32;
    ||| 0x09 <= code <= 0x0D
    ||| code == 0x20
    ||| code == 0x85
    ||| code == 0xA0
    ||| code == 0x1680
    ||| 0x2000 <= code <= 0x200A
    ||| code == 0x2028
    ||| code == 0x2029
    ||| code == 0x202F
    ||| code == 0x205F
    ||| code == 0x3000
}

/// `char::is_whitespace` of the standard library, which tells whether the
/// character has the Unicode property White_Space.
pub assume_specification[ char::is_whitespace ](c: char) -> (b: bool)
    ensures
        b == is_whitespace(c),
;

/// `s` without the white space at its start.
pub open spec fn trim_start_spec(s: Seq<char>) -> Seq<char>
    decreases s.len(),
{
    if s.len() > 0 && is_whitespace(s.first()) {
        trim_start_spec(s.drop_first())
    } else {
        s
    }
}

/// `s` without the white space at its end.
pub open spec fn trim_end_spec(s: Seq<char>) -> Seq<char>
    decreases s.len(),
{
    if s.len() > 0 && is_whitespace(s.last()) {
        trim_end_spec(s.drop_last())
    } else {
        s
    }
}

/// `s` without the white space at either end.
pub open spec fn trimmed(s: Seq<char>) -> Seq<char> {
    trim_end_spec(trim_start_spec(s))
}

/// The text without the white space at either end.
pub fn trim(text: &str) -> (inner: &str)
    ensures
        inner@ == trimmed(text@),
{
    let n: usize = text.unicode_len();
    let mut start: usize = 0;
    assert(text@.subrange(0, n as int) =~= text@);
    while start < n && text.get_char(start).is_whitespace()
        invariant
            start <= n,
            n == text@.len(),
            trim_start_spec(text@) == trim_start_spec(text@.subrange(start as int, n as int)),
        decreases n - start,
    {
        assert(text@.subrange(start as int, n as int).drop_first() =~= text@.subrange(
            start as int + 1,
            n as int,
        ));
        start = start + 1;
    }
    let mut end: usize = n;
    while start < end && text.get_char(end - 1).is_whitespace()
        invariant
            start <= end <= n,
            n == text@.len(),
            trim_start_spec(text@) == text@.subrange(start as int, n as int),
            trimmed(text@) == trim_end_spec(text@.subrange(start as int, end as int)),
        decreases end - start,
    {
        assert(text@.subrange(start as int, end as int).drop_last() =~= text@.subrange(
            start as int,
            end as int - 1,
        ));
        end = end - 1;
    }
    text.substring_char(start, end)
}

/// Whether a character is a decimal digit.
pub open spec fn is_digit(c: char) -> bool {
    '0' <= c <= '9'
}

/// The number that a sequence of decimal digits writes.
pub open spec fn digits_value(s: Seq<char>) -> nat
    decreases s.len(),
{
    if s.len() == 0 {
        0
    } else {
        (digits_value(s.drop_last()) * 10 + (s.last() as int - '0' as int)) as nat
    }
}

/// The number that a sequence of one or more decimal digits writes.
pub open spec fn digits_number(digits: Seq<char>) -> Option<nat> {
    if digits.len() > 0 && (forall|i: int| 0 <= i < digits.len() ==> is_digit(#[trigger] digits[i])) {
        Some(digits_value(digits))
    } else {
        None
    }
}

/// The number that `s` writes in the decimal notation for unsigned numbers: an
/// optional `+`, then one digit or more.
pub open spec fn unsigned_decimal(s: Seq<char>) -> Option<nat> {
    if s.len() > 0 && s[0] == '+' {
        digits_number(s.drop_first())
    } else {
        digits_number(s)
    }
}

/// `value`, or `cap` where it is more.
pub open spec fn capped(value: nat, cap: u64) -> u64 {
    if value < cap {
        value as u64
    } else {
        cap
    }
}

/// Reads the characters of `text` from `from` up to `to` as one or more
/// decimal digits. Numbers above `cap` all come back as `cap`.
pub fn read_digits(text: &str, from: usize, to: usize, cap: u64) -> (number: Option<u64>)
    requires
        from <= to <= text@.len(),
    ensures
        match digits_number(text@.subrange(from as int, to as int)) {
            Some(value) => number == Some(capped(value, cap)),
            None => number is None,
        },
{
    let ghost digits = text@.subrange(from as int, to as int);
    if from == to {
        return None;
    }
    let mut value: u64 = 0;
    let mut i: usize = from;
    while i < to
        invariant
            from <= i <= to <= text@.len(),
            digits == text@.subrange(from as int, to as int),
            forall|j: int| 0 <= j < i - from ==> is_digit(#[trigger] digits[j]),
            value == capped(digits_value(digits.subrange(0, i - from)), cap),
        decreases to - i,
    {
        let c: char = text.get_char(i);
        let code: u32 = c as u32;
        assert(digits[i - from] == c);
        if code < 48 || code > 57 {
            assert(!is_digit(digits[i - from]));
            return None;
        }
        let ghost before = digits.subrange(0, i - from);
        let ghost after = digits.subrange(0, i - from + 1);
        assert(after.drop_last() =~= before);
        assert(after.last() == c);
        assert(digits_value(after) == digits_value(before) * 10 + (code - 48));
        let next: u128 = value as u128 * 10 + (code - 48) as u128;
        value = if next < cap as u128 { next as u64 } else { cap };
        i = i + 1;
    }
    assert(digits.subrange(0, to - from) =~= digits);
    Some(value)
}

/// Reads the characters of `text` from `from` up to `to` as an unsigned
/// decimal number. Numbers of 1000 and more all come back as 1000.
pub fn read_unsigned(text: &str, from: usize, to: usize) -> (number: Option<u32>)
    requires
        from <= to <= text@.len(),
    ensures
        match unsigned_decimal(text@.subrange(from as int, to as int)) {
            Some(value) => number == Some(if value < 1000 { value as u32 } else { 1000u32 }),
            None => number is None,
        },
{
    let ghost part = text@.subrange(from as int, to as int);
    if from == to {
        return None;
    }
    let first: usize = if text.get_char(from) == '+' { from + 1 } else { from };
    proof {
        assert(part[0] == text@[from as int]);
        if first == from {
            assert(text@.subrange(first as int, to as int) =~= part);
        } else {
            assert(text@.subrange(first as int, to as int) =~= part.drop_first());
        }
    }
    match read_digits(text, first, to, 1000) {
        Some(value) => Some(value as u32),
        None => None,
    }
}

/// The number that `s` writes in the decimal notation for signed numbers of
/// 64 bits: an optional `+` or `-`, then one digit or more, the number
/// within the range of the type.
pub open spec fn signed_decimal(s: Seq<char>) -> Option<i64> {
    if s.len() > 0 && s[0] == '-' {
        match digits_number(s.drop_first()) {
            Some(value) => if value <= 9_223_372_036_854_775_808 {
                Some((-(value as int)) as i64)
            } else {
                None
            },
            None => None,
        }
    } else {
        match unsigned_decimal(s) {
            Some(value) => if value <= 9_223_372_036_854_775_807 {
                Some(value as i64)
            } else {
                None
            },
            None => None,
        }
    }
}

/// Reads the characters of `text` from `from` up to `to` as a signed decimal
/// number of 64 bits.
pub fn read_signed(text: &str, from: usize, to: usize) -> (number: Option<i64>)
    requires
        from <= to <= text@.len(),
    ensures
        number == signed_decimal(text@.subrange(from as int, to as int)),
{
    let ghost part = text@.subrange(from as int, to as int);
    if from == to {
        return None;
    }
    let sign: char = text.get_char(from);
    assert(part[0] == sign);
    let first: usize = if sign == '+' || sign == '-' { from + 1 } else { from };
    proof {
        if first == from {
            assert(text@.subrange(first as int, to as int) =~= part);
        } else {
            assert(text@.subrange(first as int, to as int) =~= part.drop_first());
        }
    }
    match read_digits(text, first, to, 9_223_372_036_854_775_809) {
        Some(value) => {
            if sign == '-' {
                if value <= 9_223_372_036_854_775_807 {
                    Some(-(value as i64))
                } else if value == 9_223_372_036_854_775_808 {
                    Some(i64::MIN)
                } else {
                    None
                }
            } else {
                if value <= 9_223_372_036_854_775_807 {
                    Some(value as i64)
                } else {
                    None
                }
            }
        },
        None => None,
    }
}

/// The character that writes the digit `d`.
pub open spec fn digit_char(d: int) -> char {
    ('0' as int + d) as char
}

/// The decimal digits of a number, without leading zeros.
pub open spec fn decimal_digits(n: nat) -> Seq<char>
    decreases n,
{
    if n < 10 {
        seq![digit_char(n as int)]
    } else {
        decimal_digits(n / 10).push(digit_char((n % 10) as int))
    }
}

/// A number in decimal notation, with `-` in front where it is negative.
pub open spec fn decimal_text(n: int) -> Seq<char> {
    if n < 0 {
        seq!['-'] + decimal_digits((-n) as nat)
    } else {
        decimal_digits(n as nat)
    }
}

/// A number of two digits at most, written with two digits.
pub open spec fn two_digit_text(n: int) -> Seq<char> {
    seq![digit_char(n / 10), digit_char(n % 10)]
}

/// The text of one digit.
fn digit_str(d: u64) -> (text: &'static str)
    requires
        d < 10,
    ensures
        text@ == seq![digit_char(d as int)],
{
    proof {
        reveal_strlit("0");
        reveal_strlit("1");
        reveal_strlit("2");
        reveal_strlit("3");
        reveal_strlit("4");
        reveal_strlit("5");
        reveal_strlit("6");
        reveal_strlit("7");
        reveal_strlit("8");
        reveal_strlit("9");
    }
    let text = if d == 0 {
        "0"
    } else if d == 1 {
        "1"
    } else if d == 2 {
        "2"
    } else if d == 3 {
        "3"
    } else if d == 4 {
        "4"
    } else if d == 5 {
        "5"
    } else if d == 6 {
        "6"
    } else if d == 7 {
        "7"
    } else if d == 8 {
        "8"
    } else {
        "9"
    };
    assert(text@ =~= seq![digit_char(d as int)]);
    text
}

/// Appends the decimal digits of a number.
pub fn push_digits(out: &mut String, n: u64)
    ensures
        final(out)@ == old(out)@ + decimal_digits(n as nat),
    decreases n,
{
    if n >= 10 {
        push_digits(out, n / 10);
    }
    out.append(digit_str(n % 10));
    assert(final(out)@ =~= old(out)@ + decimal_digits(n as nat));
}

/// Appends a number in decimal notation.
pub fn push_decimal(out: &mut String, n: i64)
    ensures
        final(out)@ == old(out)@ + decimal_text(n as int),
{
    if n < 0 {
        proof {
            reveal_strlit("-");
        }
        out.append("-");
        let magnitude: u64 = if n == i64::MIN {
            9_223_372_036_854_775_808
        } else {
            (-n) as u64
        };
        push_digits(out, magnitude);
        assert(final(out)@ =~= old(out)@ + decimal_text(n as int));
    } else {
        push_digits(out, n as u64);
    }
}

/// Appends a number below 100 with two digits.
pub fn push_two_digits(out: &mut String, n: u32)
    requires
        n < 100,
    ensures
        final(out)@ == old(out)@ + two_digit_text(n as int),
{
    out.append(digit_str((n / 10) as u64));
    out.append(digit_str((n % 10) as u64));
    assert(final(out)@ =~= old(out)@ + two_digit_text(n as int));
}

} // verus!
