//! Unsigned numbers in decimal digits: writing them and reading them.

use vstd::prelude::*;
use vstd::string::StringExecFns;

verus! {

/// The character that stands for a digit.
pub open spec fn digit_char(d: int) -> char {
    if d == 0 {
        '0'
    } else if d == 1 {
        '1'
    } else if d == 2 {
        '2'
    } else if d == 3 {
        '3'
    } else if d == 4 {
        '4'
    } else if d == 5 {
        '5'
    } else if d == 6 {
        '6'
    } else if d == 7 {
        '7'
    } else if d == 8 {
        '8'
    } else {
        '9'
    }
}

/// A number written in decimal digits, with no sign and no leading zero.
pub open spec fn decimal_of(n: nat) -> Seq<char>
    decreases n,
{
    if n < 10 {
        seq![digit_char(n as int)]
    } else {
        decimal_of(n / 10).push(digit_char((n % 10) as int))
    }
}

/// Whether `c` is one of the digits `0` to `9`.
pub open spec fn is_digit(c: char) -> bool {
    48 <= c as u32 <= 57
}

/// What a digit counts for; nothing for any other character.
pub open spec fn digit_value(c: char) -> nat {
    if is_digit(c) {
        (c as u32 - 48) as nat
    } else {
        0
    }
}

/// The number that a run of digits writes, the first digit counting most.
pub open spec fn digits_value(digits: Seq<char>) -> nat
    decreases digits.len(),
{
    if digits.len() == 0 {
        0
    } else {
        10 * digits_value(digits.drop_last()) + digit_value(digits.last())
    }
}

/// The number that `text` writes: one digit or more, after a plus sign or
/// after none, and nothing else. Leading zeros count for nothing.
pub open spec fn number_of(text: Seq<char>) -> Option<nat> {
    let digits = without_sign(text);
    if digits.len() > 0 && all_digits(digits) {
        Some(digits_value(digits))
    } else {
        None
    }
}

/// `text` without the plus sign that it may start with.
pub open spec fn without_sign(text: Seq<char>) -> Seq<char> {
    if text.len() > 0 && text[0] == '+' {
        text.subrange(1, text.len() as int)
    } else {
        text
    }
}

/// Whether every character of `text` is a digit.
pub open spec fn all_digits(text: Seq<char>) -> bool {
    forall|i: int| 0 <= i < text.len() ==> is_digit(#[trigger] text[i])
}

/// The digit `d` as a text of one character.
fn digit(d: u32) -> (text: &'static str)
    requires
        d < 10,
    ensures
        text@ == seq![digit_char(d as int)],
{
    proof {
        reveal_strlit("0");
        reveal_strlit("1");
        reveal_strlit("2");
        reveal_strlit("3");
        reveal_strlit("4");
        reveal_strlit("5");
        reveal_strlit("6");
        reveal_strlit("7");
        reveal_strlit("8");
        reveal_strlit("9");
    }
    let text: &'static str = match d {
        0 => "0",
        1 => "1",
        2 => "2",
        3 => "3",
        4 => "4",
        5 => "5",
        6 => "6",
        7 => "7",
        8 => "8",
        _ => "9",
    };
    assert(text@ =~= seq![digit_char(d as int)]);
    text
}

/// Writes `n` in decimal digits.
pub fn decimal(n: u32) -> (text: String)
    ensures
        text@ == decimal_of(n as nat),
    decreases n,
{
    if n < 10 {
        String::from_str(digit(n))
    } else {
        let mut text: String = decimal(n / 10);
        text.append(digit(n % 10));
        assert(text@ =~= decimal_of(n as nat));
        text
    }
}

/// Reads an unsigned number of at most `max`. `None` where `text` writes no
/// number or one above `max`.
pub fn parse_number(text: &str, max: u64) -> (value: Option<u64>)
    ensures
        value is Some <==> number_of(text@) is Some && number_of(text@)->0 <= max,
        value matches Some(v) ==> number_of(text@) == Some(v as nat),
{
    let len: usize = text.unicode_len();
    let start: usize = if len > 0 && text.get_char(0) == '+' {
        1
    } else {
        0
    };
    if start >= len {
        return None;
    }
    let ghost digits: Seq<char> = without_sign(text@);
    assert(digits == text@.subrange(start as int, len as int));
    let mut acc: u64 = 0;
    let mut i: usize = start;
    while i < len
        invariant
            start <= i <= len,
            len == text@.len(),
            digits == without_sign(text@),
            digits == text@.subrange(start as int, len as int),
            all_digits(digits.take(i - start)),
            acc == digits_value(digits.take(i - start)),
            acc <= max,
        decreases len - i,
    {
        let code: u32 = text.get_char(i) as u32;
        if code < 48 || code > 57 {
            assert(!is_digit(digits[i - start]));
            return None;
        }
        let digit: u64 = (code - 48) as u64;
        proof {
            let longer = digits.take(i - start + 1);
            assert(longer.drop_last() == digits.take(i - start));
            assert(longer.last() == text@[i as int]);
            assert forall|k: int| 0 <= k < longer.len() implies is_digit(#[trigger] longer[k]) by {
                if k < i - start {
                    assert(longer[k] == digits.take(i - start)[k]);
                }
            }
            prefix_counts_no_more(digits, i - start + 1);
        }
        if acc as u128 * 10 + digit as u128 > max as u128 {
            return None;
        }
        acc = acc * 10 + digit;
        i += 1;
    }
    assert(digits.take(len - start) == digits);
    Some(acc)
}

/// Reads an unsigned number that fits in 64 bits.
pub fn parse_u64(text: &str) -> (value: Option<u64>)
    ensures
        value is Some <==> number_of(text@) is Some && number_of(text@)->0 <= u64::MAX,
        value matches Some(v) ==> number_of(text@) == Some(v as nat),
{
    parse_number(text, u64::MAX)
}

/// Reads an unsigned number that fits in 8 bits.
pub fn parse_u8(text: &str) -> (value: Option<u8>)
    ensures
        value is Some <==> number_of(text@) is Some && number_of(text@)->0 <= u8::MAX,
        value matches Some(v) ==> number_of(text@) == Some(v as nat),
{
    match parse_number(text, 255) {
        Some(v) => Some(v as u8),
        None => None,
    }
}

/// The digits read so far never count for more than all of them.
proof fn prefix_counts_no_more(digits: Seq<char>, k: int)
    requires
        0 <= k <= digits.len(),
    ensures
        digits_value(digits.take(k)) <= digits_value(digits),
    decreases digits.len(),
{
    if k == digits.len() {
        assert(digits.take(k) == digits);
    } else {
        assert(digits.drop_last().take(k) == digits.take(k));
        prefix_counts_no_more(digits.drop_last(), k);
    }
}

/// A number written in decimal is read back as the same number.
pub proof fn decimal_is_read_back(n: nat)
    ensures
        number_of(decimal_of(n)) == Some(n),
        decimal_of(n).len() >= 1,
        all_digits(decimal_of(n)),
        digits_value(decimal_of(n)) == n,
    decreases n,
{
    let text = decimal_of(n);
    if n < 10 {
        assert(text.drop_last() == Seq::<char>::empty());
        assert(digits_value(text.drop_last()) == 0);
        assert(text.last() == digit_char(n as int));
    } else {
        decimal_is_read_back(n / 10);
        assert(text.drop_last() == decimal_of(n / 10));
        assert(text.last() == digit_char((n % 10) as int));
    }
    assert(digit_value(text.last()) == n % 10);
    assert forall|i: int| 0 <= i < text.len() implies is_digit(#[trigger] text[i]) by {
        if i < text.len() - 1 {
            assert(text[i] == text.drop_last()[i]);
        }
    }
    assert(is_digit(text[0]));
}

} // verus!
