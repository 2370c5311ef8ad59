//! Text forms of numbers: decimal, and fixed-width hexadecimal.
use vstd::prelude::*;
use vstd::string::*;

verus! {

/// The character of one hexadecimal digit, in lower case.
pub open spec fn digit_char(d: int) -> char {
    if d == 0 { '0' }
    else if d == 1 { '1' }
    else if d == 2 { '2' }
    else if d == 3 { '3' }
    else if d == 4 { '4' }
    else if d == 5 { '5' }
    else if d == 6 { '6' }
    else if d == 7 { '7' }
    else if d == 8 { '8' }
    else if d == 9 { '9' }
    else if d == 10 { 'a' }
    else if d == 11 { 'b' }
    else if d == 12 { 'c' }
    else if d == 13 { 'd' }
    else if d == 14 { 'e' }
    else { 'f' }
}

/// The value of a hexadecimal digit, in either case.
pub open spec fn digit_value(c: char) -> Option<int> {
    if '0' <= c && c <= '9' {
        Some(c as int - 48)
    } else if 'a' <= c && c <= 'f' {
        Some(c as int - 87)
    } else if 'A' <= c && c <= 'F' {
        Some(c as int - 55)
    } else {
        None
    }
}

/// The decimal text of a number, without leading zeros.
pub open spec fn decimal(n: nat) -> Seq<char>
    decreases n,
{
    if n < 10 {
        seq![digit_char(n as int)]
    } else {
        decimal(n / 10).push(digit_char((n % 10) as int))
    }
}

/// The hexadecimal text of a number, in exactly `width` digits (the low ones).
pub open spec fn hexadecimal(n: nat, width: nat) -> Seq<char>
    decreases width,
{
    if width == 0 {
        Seq::empty()
    } else {
        hexadecimal(n / 16, (width - 1) as nat).push(digit_char((n % 16) as int))
    }
}

/// The number that a text of hexadecimal digits denotes; `None` where some
/// character is no digit.
pub open spec fn hexadecimal_value(s: Seq<char>) -> Option<nat>
    decreases s.len(),
{
    if s.len() == 0 {
        Some(0)
    } else {
        match (hexadecimal_value(s.drop_last()), digit_value(s.last())) {
            (Some(high), Some(low)) => Some((high * 16 + low) as nat),
            _ => None,
        }
    }
}

fn digit_text(d: u8) -> (r: &'static str)
    requires
        d < 16,
    ensures
        r@ == seq![digit_char(d as int)],
{
    proof {
        reveal_strlit("0");
        reveal_strlit("1");
        reveal_strlit("2");
        reveal_strlit("3");
        reveal_strlit("4");
        reveal_strlit("5");
        reveal_strlit("6");
        reveal_strlit("7");
        reveal_strlit("8");
        reveal_strlit("9");
        reveal_strlit("a");
        reveal_strlit("b");
        reveal_strlit("c");
        reveal_strlit("d");
        reveal_strlit("e");
        reveal_strlit("f");
    }
    match d {
        0 => "0",
        1 => "1",
        2 => "2",
        3 => "3",
        4 => "4",
        5 => "5",
        6 => "6",
        7 => "7",
        8 => "8",
        9 => "9",
        10 => "a",
        11 => "b",
        12 => "c",
        13 => "d",
        14 => "e",
        _ => "f",
    }
}

/// Writes a number in decimal.
pub fn decimal_text(n: u64) -> (r: String)
    ensures
        r@ == decimal(n as nat),
    decreases n,
{
    if n < 10 {
        digit_text(n as u8).to_owned()
    } else {
        let mut text = decimal_text(n / 10);
        text.append(digit_text((n % 10) as u8));
        text
    }
}

/// Writes a large number in decimal.
pub fn decimal_text_u128(n: u128) -> (r: String)
    ensures
        r@ == decimal(n as nat),
    decreases n,
{
    if n < 10 {
        digit_text(n as u8).to_owned()
    } else {
        let mut text = decimal_text_u128(n / 10);
        text.append(digit_text((n % 10) as u8));
        text
    }
}

/// The decimal text of a number that may be negative.
pub open spec fn signed_decimal(n: int) -> Seq<char> {
    if n < 0 {
        "-"@ + decimal((-n) as nat)
    } else {
        decimal(n as nat)
    }
}

/// Writes a number that may be negative in decimal.
pub fn signed_decimal_text(n: i64) -> (r: String)
    ensures
        r@ == signed_decimal(n as int),
{
    if n < 0 {
        let mut text = "-".to_owned();
        text.append(decimal_text((-(n as i128)) as u64).as_str());
        text
    } else {
        decimal_text(n as u64)
    }
}

/// Writes the low `width` hexadecimal digits of a number.
pub fn hexadecimal_text(n: u128, width: usize) -> (r: String)
    ensures
        r@ == hexadecimal(n as nat, width as nat),
    decreases width,
{
    if width == 0 {
        String::new()
    } else {
        let mut text = hexadecimal_text(n / 16, width - 1);
        text.append(digit_text((n % 16) as u8));
        text
    }
}

/// Why a decimal text is no unsigned number.
#[derive(Clone, Copy, Debug, PartialEq, Eq, Structural)]
pub enum DecimalError {
    Empty,
    InvalidDigit,
    Overflow,
}

/// Reads the decimal digits of `s` from `from` on, with `acc` read already: the
/// first character that is no digit, or that makes the number leave the range
/// of `u64`, decides the error.
pub open spec fn decimal_digits_value(s: Seq<char>, from: int, acc: nat) -> Result<u64, DecimalError>
    decreases s.len() - from,
{
    if from >= s.len() {
        Ok(acc as u64)
    } else if !('0' <= s[from] && s[from] <= '9') {
        Err(DecimalError::InvalidDigit)
    } else if acc * 10 + (s[from] as int - 48) > u64::MAX {
        Err(DecimalError::Overflow)
    } else {
        decimal_digits_value(s, from + 1, (acc * 10 + (s[from] as int - 48)) as nat)
    }
}

/// The unsigned number that a text denotes: digits, with an optional `+` first.
pub open spec fn decimal_value(s: Seq<char>) -> Result<u64, DecimalError> {
    if s.len() == 0 {
        Err(DecimalError::Empty)
    } else if s.len() == 1 && s[0] == '+' {
        Err(DecimalError::InvalidDigit)
    } else if s[0] == '+' {
        decimal_digits_value(s, 1, 0)
    } else {
        decimal_digits_value(s, 0, 0)
    }
}

/// Reads an unsigned decimal number.
pub fn parse_decimal(s: &str) -> (r: Result<u64, DecimalError>)
    ensures
        r == decimal_value(s@),
{
    let len: usize = s.unicode_len();
    if len == 0 {
        return Err(DecimalError::Empty);
    }
    let signed = s.get_char(0) == '+';
    if signed && len == 1 {
        return Err(DecimalError::InvalidDigit);
    }
    let mut i: usize = if signed { 1 } else { 0 };
    let mut acc: u64 = 0;
    while i < len
        invariant
            i <= len,
            len == s@.len(),
            decimal_value(s@) == decimal_digits_value(s@, i as int, acc as nat),
        decreases len - i,
    {
        let c = s.get_char(i);
        if !('0' <= c && c <= '9') {
            return Err(DecimalError::InvalidDigit);
        }
        let digit: u64 = (c as u32 - 48) as u64;
        if acc > (u64::MAX - digit) / 10 {
            return Err(DecimalError::Overflow);
        }
        acc = acc * 10 + digit;
        i = i + 1;
    }
    Ok(acc)
}

fn parse_digit(c: char) -> (r: Option<u8>)
    ensures
        r matches Some(d) ==> d < 16 && digit_value(c) == Some(d as int),
        r is None ==> digit_value(c) is None,
{
    if '0' <= c && c <= '9' {
        Some((c as u32 - 48) as u8)
    } else if 'a' <= c && c <= 'f' {
        Some((c as u32 - 87) as u8)
    } else if 'A' <= c && c <= 'F' {
        Some((c as u32 - 55) as u8)
    } else {
        None
    }
}

/// Reads a text of at most 31 hexadecimal digits.
pub fn parse_hexadecimal(s: &str) -> (r: Option<u128>)
    requires
        s@.len() < 32,
    ensures
        match r {
            Some(n) => hexadecimal_value(s@) == Some(n as nat),
            None => hexadecimal_value(s@) is None,
        },
        r matches Some(n) ==> n < vstd::arithmetic::power::pow(16, s@.len()),
{
    let len: usize = s.unicode_len();
    let mut i: usize = 0;
    let mut acc: u128 = 0;
    proof {
        vstd::arithmetic::power::lemma_pow0(16);
    }
    while i < len
        invariant
            i <= len < 32,
            len == s@.len(),
            hexadecimal_value(s@.take(i as int)) == Some(acc as nat),
            acc < vstd::arithmetic::power::pow(16, i as nat),
        decreases len - i,
    {
        let c = s.get_char(i);
        assert(s@.take(i + 1).drop_last() =~= s@.take(i as int));
        match parse_digit(c) {
            Some(d) => {
                proof {
                    lemma_pow16_bound(i as nat);
                    vstd::arithmetic::power::lemma_pow1(16);
                    vstd::arithmetic::power::lemma_pow_adds(16, i as nat, 1);
                }
                acc = acc * 16 + d as u128;
                i = i + 1;
            },
            None => {
                proof {
                    lemma_hexadecimal_value_prefix(s@, i + 1);
                }
                return None;
            },
        }
    }
    assert(s@.take(len as int) =~= s@);
    Some(acc)
}

/// A text with a prefix that denotes no number denotes none.
proof fn lemma_hexadecimal_value_prefix(s: Seq<char>, n: int)
    requires
        0 <= n <= s.len(),
        hexadecimal_value(s.take(n)) is None,
    ensures
        hexadecimal_value(s) is None,
    decreases s.len() - n,
{
    if n < s.len() {
        assert(s.take(n + 1).drop_last() =~= s.take(n));
        lemma_hexadecimal_value_prefix(s, n + 1);
    } else {
        assert(s.take(n) =~= s);
    }
}

proof fn lemma_pow16_bound(n: nat)
    requires
        n < 31,
    ensures
        vstd::arithmetic::power::pow(16, n) * 16 <= u128::MAX,
    decreases n,
{
    if n == 0 {
        vstd::arithmetic::power::lemma_pow0(16);
    } else {
        vstd::arithmetic::power::lemma_pow_increases(16, n, 30);
        assert(vstd::arithmetic::power::pow(16, 30) == 0x1000000000000000000000000000000) by {
            reveal(vstd::arithmetic::power::pow);
            vstd::arithmetic::power::lemma_pow_adds(16, 15, 15);
            assert(vstd::arithmetic::power::pow(16, 15) == 0x1000000000000000) by {
                reveal_with_fuel(vstd::arithmetic::power::pow, 17);
            }
        }
    }
}

} // verus!
