//! Decimal integers in text: reading and writing.

use crate::text::chars_of;
use vstd::prelude::*;

verus! {

/// Whether `c` is one of the ten ASCII digits.
pub open spec fn is_digit(c: char) -> bool {
    '0' <= c <= '9'
}

/// The number that an ASCII digit stands for.
pub open spec fn digit_value(c: char) -> nat {
    (c as int - '0' as int) as nat
}

/// The ASCII digit for a number below ten.
pub open spec fn digit_char(n: int) -> char {
    ('0' as int + n) as char
}

/// Whether every character is a digit.
pub open spec fn all_digits(text: Seq<char>) -> bool {
    forall|i: int| 0 <= i < text.len() ==> is_digit(#[trigger] text[i])
}

/// The number written by a run of digits.
pub open spec fn digits_value(text: Seq<char>) -> nat
    decreases text.len(),
{
    if text.len() == 0 {
        0
    } else {
        digits_value(text.drop_last()) * 10 + digit_value(text.last())
    }
}

/// The digits of `text` behind an optional plus sign.
pub open spec fn without_plus(text: Seq<char>) -> Seq<char> {
    if text.len() > 0 && text[0] == '+' {
        text.skip(1)
    } else {
        text
    }
}

/// The number up to `limit` written by an optional plus sign and at least one
/// digit; any other text is no number.
pub open spec fn unsigned_value(text: Seq<char>, limit: nat) -> Option<nat> {
    let digits = without_plus(text);
    if digits.len() > 0 && all_digits(digits) && digits_value(digits) <= limit {
        Some(digits_value(digits))
    } else {
        None
    }
}

/// The 32-bit signed number written by an optional sign and at least one
/// digit; any other text is no number.
pub open spec fn signed_value(text: Seq<char>) -> Option<int> {
    if text.len() > 0 && text[0] == '-' {
        let digits = text.skip(1);
        if digits.len() > 0 && all_digits(digits) && digits_value(digits) <= 0x8000_0000 {
            Some(-(digits_value(digits) as int))
        } else {
            None
        }
    } else {
        match unsigned_value(text, 0x7fff_ffff) {
            Some(value) => Some(value as int),
            None => None,
        }
    }
}

/// `n` written in decimal without leading zeros.
pub open spec fn decimal(n: nat) -> Seq<char>
    decreases n,
{
    if n < 10 {
        seq![digit_char(n as int)]
    } else {
        decimal(n / 10).push(digit_char((n % 10) as int))
    }
}

/// `n` written in decimal, with a minus sign before a negative number.
pub open spec fn signed_decimal(n: int) -> Seq<char> {
    if n < 0 {
        seq!['-'] + decimal((-n) as nat)
    } else {
        decimal(n as nat)
    }
}

/// The lower-case hexadecimal digit for a number below sixteen.
pub open spec fn hexadecimal_digit(n: int) -> char {
    if n < 10 {
        digit_char(n)
    } else {
        ('a' as int + n - 10) as char
    }
}

/// `n` below 256 written as `0x` and its hexadecimal digits without a leading
/// zero.
pub open spec fn hexadecimal(n: nat) -> Seq<char> {
    let prefix = seq!['0', 'x'];
    if n < 16 {
        prefix.push(hexadecimal_digit(n as int))
    } else {
        prefix.push(hexadecimal_digit((n / 16) as int)).push(hexadecimal_digit((n % 16) as int))
    }
}

/// The last `width` hexadecimal digits of `n`.
pub open spec fn hexadecimal_digits(n: nat, width: nat) -> Seq<char>
    decreases width,
{
    if width == 0 {
        Seq::empty()
    } else {
        hexadecimal_digits(n / 16, (width - 1) as nat).push(hexadecimal_digit((n % 16) as int))
    }
}

/// The bytes written with two hexadecimal digits each.
pub open spec fn hexadecimal_bytes(bytes: Seq<u8>) -> Seq<char>
    decreases bytes.len(),
{
    if bytes.len() == 0 {
        Seq::empty()
    } else {
        hexadecimal_bytes(bytes.drop_last()) + hexadecimal_digits(bytes.last() as nat, 2)
    }
}

/// More digits never make the number smaller.
proof fn lemma_digits_value_grows(digits: Seq<char>, end: int)
    requires
        0 <= end <= digits.len(),
    ensures
        digits_value(digits.take(end)) <= digits_value(digits),
    decreases digits.len() - end,
{
    if end < digits.len() {
        assert(digits.take(end + 1).drop_last() =~= digits.take(end));
        lemma_digits_value_grows(digits, end + 1);
    } else {
        assert(digits.take(end) =~= digits);
    }
}

/// What is written in decimal is digits, and reads back as the same number.
pub proof fn lemma_decimal_reads_back(n: nat)
    ensures
        decimal(n).len() > 0,
        all_digits(decimal(n)),
        digits_value(decimal(n)) == n,
    decreases n,
{
    if n < 10 {
        assert(decimal(n).drop_last() =~= Seq::<char>::empty());
        assert(digits_value(Seq::<char>::empty()) == 0);
    } else {
        lemma_decimal_reads_back(n / 10);
        assert(decimal(n).drop_last() =~= decimal(n / 10));
        assert forall|i: int| 0 <= i < decimal(n).len() implies is_digit(
            #[trigger] decimal(n)[i],
        ) by {
            if i < decimal(n / 10).len() {
                assert(decimal(n)[i] == decimal(n / 10)[i]);
            }
        }
    }
}

/// Reading a written number gives the number back: unsigned numbers up to any
/// limit that admits them, and signed 32-bit numbers.
pub proof fn law_written_numbers_read_back(n: nat, limit: nat, signed: int)
    requires
        n <= limit,
        -0x8000_0000 <= signed <= 0x7fff_ffff,
    ensures
        unsigned_value(decimal(n), limit) == Some(n),
        signed_value(signed_decimal(signed)) == Some(signed),
{
    lemma_decimal_reads_back(n);
    assert(is_digit(decimal(n)[0]));
    if signed < 0 {
        let size = (-signed) as nat;
        lemma_decimal_reads_back(size);
        assert(signed_decimal(signed).skip(1) =~= decimal(size));
    } else {
        lemma_decimal_reads_back(signed as nat);
        assert(is_digit(decimal(signed as nat)[0]));
    }
}

/// The number written by the digits from `from` on, if there are any and it
/// does not exceed `limit`.
fn read_digits(chars: &Vec<char>, from: usize, limit: u64) -> (value: Option<u64>)
    requires
        from <= chars@.len(),
    ensures
        ({
            let digits = chars@.skip(from as int);
            match value {
                Some(n) => digits.len() > 0 && all_digits(digits) && n == digits_value(digits)
                    && n <= limit,
                None => !(digits.len() > 0 && all_digits(digits) && digits_value(digits)
                    <= limit),
            }
        }),
{
    let ghost digits = chars@.skip(from as int);
    if from == chars.len() {
        return None;
    }
    let mut value: u64 = 0;
    let mut i: usize = from;
    while i < chars.len()
        invariant
            from <= i <= chars@.len(),
            digits == chars@.skip(from as int),
            all_digits(digits.take(i - from)),
            value == digits_value(digits.take(i - from)),
            value <= limit,
        decreases chars@.len() - i,
    {
        let c: char = chars[i];
        assert(digits[i - from] == c);
        assert(digits.take(i + 1 - from).drop_last() =~= digits.take(i - from));
        assert(digits.take(i + 1 - from).last() == c);
        if c < '0' || c > '9' {
            return None;
        }
        let digit: u64 = (c as u32 - '0' as u32) as u64;
        let grown: Option<u64> = match value.checked_mul(10) {
            Some(tens) => tens.checked_add(digit),
            None => None,
        };
        proof {
            if all_digits(digits) {
                lemma_digits_value_grows(digits, i + 1 - from);
            }
        }
        match grown {
            Some(next) => {
                if next > limit {
                    return None;
                }
                value = next;
            },
            None => {
                return None;
            },
        }
        i += 1;
    }
    assert(digits.take(i - from) =~= digits);
    Some(value)
}

/// Reads an unsigned number that does not exceed `limit`.
fn read_unsigned(text: &str, limit: u64) -> (value: Option<u64>)
    ensures
        match value {
            Some(n) => unsigned_value(text@, limit as nat) == Some(n as nat) && n <= limit,
            None => unsigned_value(text@, limit as nat) is None,
        },
{
    let chars: Vec<char> = chars_of(text);
    let from: usize = if chars.len() > 0 && chars[0] == '+' {
        1
    } else {
        0
    };
    assert(chars@.skip(from as int) =~= without_plus(text@));
    read_digits(&chars, from, limit)
}

/// Reads a 32-bit unsigned number.
pub fn read_u32(text: &str) -> (value: Option<u32>)
    ensures
        match value {
            Some(n) => unsigned_value(text@, u32::MAX as nat) == Some(n as nat),
            None => unsigned_value(text@, u32::MAX as nat) is None,
        },
{
    match read_unsigned(text, u32::MAX as u64) {
        Some(n) => Some(n as u32),
        None => None,
    }
}

/// Reads a number that a `usize` can hold.
pub fn read_usize(text: &str) -> (value: Option<usize>)
    ensures
        match value {
            Some(n) => unsigned_value(text@, usize::MAX as nat) == Some(n as nat),
            None => unsigned_value(text@, usize::MAX as nat) is None,
        },
{
    match read_unsigned(text, usize::MAX as u64) {
        Some(n) => Some(n as usize),
        None => None,
    }
}

/// Reads a 32-bit signed number.
pub fn read_i32(text: &str) -> (value: Option<i32>)
    ensures
        match value {
            Some(n) => signed_value(text@) == Some(n as int),
            None => signed_value(text@) is None,
        },
{
    let chars: Vec<char> = chars_of(text);
    if chars.len() > 0 && chars[0] == '-' {
        match read_digits(&chars, 1, 0x8000_0000) {
            Some(n) => {
                let negative: i64 = -(n as i64);
                Some(negative as i32)
            },
            None => None,
        }
    } else {
        match read_unsigned(text, 0x7fff_ffff) {
            Some(n) => Some(n as i32),
            None => None,
        }
    }
}

/// Appends `n` in decimal.
pub fn push_wide_decimal(text: &mut String, n: u128)
    ensures
        final(text)@ == old(text)@ + decimal(n as nat),
    decreases n,
{
    let ghost before = text@;
    if n >= 10 {
        push_wide_decimal(text, n / 10);
    }
    let digit: char = (48 + (n % 10) as u8) as char;
    text.push(digit);
    assert(text@ =~= before + decimal(n as nat));
}

/// Appends `n` in decimal.
pub fn push_decimal(text: &mut String, n: u64)
    ensures
        final(text)@ == old(text)@ + decimal(n as nat),
{
    push_wide_decimal(text, n as u128);
}

/// `n` in decimal.
pub fn decimal_text(n: u64) -> (text: String)
    ensures
        text@ == decimal(n as nat),
{
    let mut text = String::new();
    push_decimal(&mut text, n);
    assert(text@ =~= decimal(n as nat));
    text
}

/// `n` in decimal, with a minus sign before a negative number.
pub fn signed_text(n: i32) -> (text: String)
    ensures
        text@ == signed_decimal(n as int),
{
    let mut text = String::new();
    if n < 0 {
        text.push('-');
        let size: i64 = -(n as i64);
        push_decimal(&mut text, size as u64);
    } else {
        push_decimal(&mut text, n as u64);
    }
    assert(text@ =~= signed_decimal(n as int));
    text
}

fn hexadecimal_char(n: u8) -> (digit: char)
    requires
        n < 16,
    ensures
        digit == hexadecimal_digit(n as int),
{
    if n < 10 {
        (48 + n) as char
    } else {
        (87 + n) as char
    }
}

/// Appends `n` as `0x` and its hexadecimal digits.
pub fn push_hexadecimal(text: &mut String, n: u8)
    ensures
        final(text)@ == old(text)@ + hexadecimal(n as nat),
{
    let ghost before = text@;
    text.push('0');
    text.push('x');
    if n >= 16 {
        text.push(hexadecimal_char(n / 16));
    }
    text.push(hexadecimal_char(n % 16));
    assert(text@ =~= before + hexadecimal(n as nat));
}

/// Appends the last `width` hexadecimal digits of `n`.
pub fn push_hexadecimal_digits(text: &mut String, n: u64, width: usize)
    ensures
        final(text)@ == old(text)@ + hexadecimal_digits(n as nat, width as nat),
    decreases width,
{
    if width == 0 {
        assert(text@ + Seq::<char>::empty() =~= text@);
        return;
    }
    let ghost before = text@;
    push_hexadecimal_digits(text, n / 16, width - 1);
    text.push(hexadecimal_char((n % 16) as u8));
    assert(text@ =~= before + hexadecimal_digits(n as nat, width as nat));
}

/// Appends the first `count` bytes with two hexadecimal digits each.
pub fn push_hexadecimal_bytes(text: &mut String, bytes: &[u8], count: usize)
    requires
        count <= bytes@.len(),
    ensures
        final(text)@ == old(text)@ + hexadecimal_bytes(bytes@.take(count as int)),
{
    let ghost before = text@;
    let mut i: usize = 0;
    assert(before + hexadecimal_bytes(bytes@.take(0)) =~= before);
    while i < count
        invariant
            i <= count <= bytes@.len(),
            text@ == before + hexadecimal_bytes(bytes@.take(i as int)),
        decreases count - i,
    {
        push_hexadecimal_digits(text, bytes[i] as u64, 2);
        proof {
            let longer = bytes@.take(i + 1);
            assert(longer.drop_last() =~= bytes@.take(i as int));
            assert(text@ =~= before + hexadecimal_bytes(longer));
        }
        i += 1;
    }
}

} // verus!
