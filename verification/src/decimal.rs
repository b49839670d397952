//! Unsigned decimal numbers as they stand in a keymap line: reading a token as a
//! number with an upper bound, and writing a number as digits.

use vstd::prelude::*;
use vstd::string::*;

verus! {

/// Why a token is not a number of the wanted width.
#[derive(Debug, Clone, Copy, PartialEq, Eq, Structural)]
pub enum NumberError {
    /// The token is empty.
    Empty,
    /// A character is not a decimal digit (a single leading `+` is allowed).
    InvalidDigit,
    /// The digits denote a value above the bound.
    Overflow,
}

/// Whether `c` is one of `0` to `9`.
pub open spec fn is_digit(c: char) -> bool {
    '0' <= c <= '9'
}

/// The value of the digit `c`.
pub open spec fn digit_value(c: char) -> nat
    recommends
        is_digit(c),
{
    (c as u32 - '0' as u32) as nat
}

/// The digit that stands for `d`.
pub open spec fn digit_char(d: nat) -> char
    recommends
        d < 10,
{
    if d == 0 {
        '0'
    } else if d == 1 {
        '1'
    } else if d == 2 {
        '2'
    } else if d == 3 {
        '3'
    } else if d == 4 {
        '4'
    } else if d == 5 {
        '5'
    } else if d == 6 {
        '6'
    } else if d == 7 {
        '7'
    } else if d == 8 {
        '8'
    } else {
        '9'
    }
}

/// The decimal digits of `n`, most significant first, without leading zeros.
pub open spec fn decimal(n: nat) -> Seq<char>
    decreases n,
{
    if n < 10 {
        seq![digit_char(n)]
    } else {
        decimal(n / 10).push(digit_char(n % 10))
    }
}

/// Reads the digits of `s` from left to right onto the value `acc` read so far. The
/// first character that is no digit, or that takes the value above `max`, ends the
/// reading with the matching error.
pub open spec fn parse_digits(s: Seq<char>, acc: nat, max: nat) -> Result<nat, NumberError>
    decreases s.len(),
{
    if s.len() == 0 {
        Ok(acc)
    } else if !is_digit(s[0]) {
        Err(NumberError::InvalidDigit)
    } else if acc * 10 + digit_value(s[0]) > max {
        Err(NumberError::Overflow)
    } else {
        parse_digits(s.drop_first(), acc * 10 + digit_value(s[0]), max)
    }
}

/// Reads `s` as an unsigned decimal number of at most `max`: an optional `+`, then
/// one or more digits.
pub open spec fn parse_number(s: Seq<char>, max: nat) -> Result<nat, NumberError> {
    if s.len() == 0 {
        Err(NumberError::Empty)
    } else if s.len() == 1 && (s[0] == '+' || s[0] == '-') {
        Err(NumberError::InvalidDigit)
    } else if s[0] == '+' {
        parse_digits(s.drop_first(), 0, max)
    } else {
        parse_digits(s, 0, max)
    }
}

/// The text that explains `e`.
pub open spec fn number_error_text(e: NumberError) -> Seq<char> {
    match e {
        NumberError::Empty => "cannot parse integer from empty string"@,
        NumberError::InvalidDigit => "invalid digit found in string"@,
        NumberError::Overflow => "number too large to fit in target type"@,
    }
}

/// Reading one more character after `s` continues from what `s` gave.
pub proof fn lemma_parse_digits_push(s: Seq<char>, c: char, acc: nat, max: nat)
    ensures
        parse_digits(s.push(c), acc, max) == match parse_digits(s, acc, max) {
            Ok(v) => if !is_digit(c) {
                Err(NumberError::InvalidDigit)
            } else if v * 10 + digit_value(c) > max {
                Err(NumberError::Overflow)
            } else {
                Ok(v * 10 + digit_value(c))
            },
            Err(e) => Err(e),
        },
    decreases s.len(),
{
    let t = s.push(c);
    if s.len() == 0 {
        assert(t.drop_first() =~= Seq::<char>::empty());
        assert(parse_digits(t.drop_first(), acc * 10 + digit_value(c), max) == Ok::<
            nat,
            NumberError,
        >(acc * 10 + digit_value(c)));
    } else {
        assert(t[0] == s[0]);
        assert(t.drop_first() =~= s.drop_first().push(c));
        if is_digit(s[0]) && acc * 10 + digit_value(s[0]) <= max {
            lemma_parse_digits_push(s.drop_first(), c, acc * 10 + digit_value(s[0]), max);
        }
    }
}

/// The digits of a number are digits, and there is at least one.
pub proof fn lemma_decimal_digits(n: nat)
    ensures
        decimal(n).len() >= 1,
        forall|i: int| 0 <= i < decimal(n).len() ==> is_digit(#[trigger] decimal(n)[i]),
    decreases n,
{
    if n >= 10 {
        lemma_decimal_digits(n / 10);
    }
}

/// Reading the digits of `n` gives `n` back, when `n` is within the bound.
pub proof fn lemma_parse_decimal(n: nat, max: nat)
    requires
        n <= max,
    ensures
        parse_digits(decimal(n), 0, max) == Ok::<nat, NumberError>(n),
        parse_number(decimal(n), max) == Ok::<nat, NumberError>(n),
    decreases n,
{
    lemma_decimal_digits(n);
    if n < 10 {
        let s = decimal(n);
        assert(s.drop_first() =~= Seq::<char>::empty());
        assert(digit_value(digit_char(n)) == n);
        assert(parse_digits(s.drop_first(), n, max) == Ok::<nat, NumberError>(n));
    } else {
        lemma_parse_decimal(n / 10, max);
        lemma_parse_digits_push(decimal(n / 10), digit_char(n % 10), 0, max);
        assert(digit_value(digit_char(n % 10)) == n % 10);
    }
    assert(decimal(n)[0] != '+' && decimal(n)[0] != '-');
}

/// The text that explains `e`.
pub fn number_error_message(e: NumberError) -> (r: &'static str)
    ensures
        r@ == number_error_text(e),
{
    match e {
        NumberError::Empty => "cannot parse integer from empty string",
        NumberError::InvalidDigit => "invalid digit found in string",
        NumberError::Overflow => "number too large to fit in target type",
    }
}

/// Reads the characters `lo..hi` of `cs` as a number of at most `max`.
pub fn parse_number_in(cs: &[char], lo: usize, hi: usize, max: u32) -> (r: Result<
    u32,
    NumberError,
>)
    requires
        lo <= hi <= cs@.len(),
    ensures
        match r {
            Ok(v) => v <= max && parse_number(cs@.subrange(lo as int, hi as int), max as nat)
                == Ok::<nat, NumberError>(v as nat),
            Err(e) => parse_number(cs@.subrange(lo as int, hi as int), max as nat) == Err::<
                nat,
                NumberError,
            >(e),
        },
{
    let ghost s = cs@.subrange(lo as int, hi as int);
    if lo == hi {
        return Err(NumberError::Empty);
    }
    assert(s[0] == cs@[lo as int]);
    if hi - lo == 1 && (cs[lo] == '+' || cs[lo] == '-') {
        return Err(NumberError::InvalidDigit);
    }
    let start: usize = if cs[lo] == '+' {
        lo + 1
    } else {
        lo
    };
    let ghost digits = cs@.subrange(start as int, hi as int);
    proof {
        if cs[lo as int] == '+' {
            assert(s.drop_first() =~= digits);
        } else {
            assert(s =~= digits);
        }
        assert(digits.skip(0) =~= digits);
    }
    let mut acc: u32 = 0;
    let mut i: usize = start;
    while i < hi
        invariant
            lo <= start <= i <= hi <= cs@.len(),
            digits == cs@.subrange(start as int, hi as int),
            parse_number(cs@.subrange(lo as int, hi as int), max as nat) == parse_digits(
                digits,
                0,
                max as nat,
            ),
            acc <= max,
            parse_digits(digits, 0, max as nat) == parse_digits(
                digits.skip(i - start),
                acc as nat,
                max as nat,
            ),
        decreases hi - i,
    {
        let c = cs[i];
        let ghost rest = digits.skip(i - start);
        proof {
            assert(rest[0] == c);
            assert(rest.drop_first() =~= digits.skip(i + 1 - start));
        }
        if !(c >= '0' && c <= '9') {
            return Err(NumberError::InvalidDigit);
        }
        let d: u64 = (c as u32 - '0' as u32) as u64;
        let next: u64 = acc as u64 * 10 + d;
        if next > max as u64 {
            return Err(NumberError::Overflow);
        }
        acc = next as u32;
        i += 1;
    }
    Ok(acc)
}

/// The one-character text of the digit `d`.
fn digit_text(d: u32) -> (r: &'static str)
    requires
        d < 10,
    ensures
        r@ == seq![digit_char(d as nat)],
{
    proof {
        reveal_strlit("0");
        reveal_strlit("1");
        reveal_strlit("2");
        reveal_strlit("3");
        reveal_strlit("4");
        reveal_strlit("5");
        reveal_strlit("6");
        reveal_strlit("7");
        reveal_strlit("8");
        reveal_strlit("9");
    }
    let r = if d == 0 {
        "0"
    } else if d == 1 {
        "1"
    } else if d == 2 {
        "2"
    } else if d == 3 {
        "3"
    } else if d == 4 {
        "4"
    } else if d == 5 {
        "5"
    } else if d == 6 {
        "6"
    } else if d == 7 {
        "7"
    } else if d == 8 {
        "8"
    } else {
        "9"
    };
    assert(r@ =~= seq![digit_char(d as nat)]);
    r
}

/// Appends the decimal digits of `n` to `out`.
pub fn push_decimal(out: &mut String, n: u32)
    ensures
        final(out)@ == old(out)@ + decimal(n as nat),
    decreases n,
{
    if n >= 10 {
        push_decimal(out, n / 10);
    }
    out.append(digit_text(n % 10));
    proof {
        if n >= 10 {
            assert(old(out)@ + decimal((n / 10) as nat) + seq![digit_char((n % 10) as nat)]
                =~= old(out)@ + decimal(n as nat));
        }
    }
}

} // verus!
