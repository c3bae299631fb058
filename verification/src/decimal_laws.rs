//! What written numbers are worth.

use crate::decimal::{
    self, all_digits, decimal, digits_value, hexadecimal, hexadecimal_bytes, hexadecimal_digits,
    signed_decimal, signed_value, unsigned_value,
};
use vstd::prelude::*;

verus! {

/// What a hexadecimal digit is worth.
pub open spec fn hexadecimal_value(c: char) -> int {
    if '0' <= c <= '9' {
        c as int - '0' as int
    } else if 'a' <= c <= 'f' {
        c as int - 'a' as int + 10
    } else {
        -1
    }
}

/// One more digit behind a number makes it ten times as large and adds the
/// digit.
pub proof fn law_digits_count_tenfold(digits: Seq<char>, digit: char, limit: nat)
    requires
        all_digits(digits),
        digits.len() > 0,
    ensures
        '0' <= digit <= '9' && digits_value(digits) * 10 + (digit as int - '0' as int) <= limit
            ==> unsigned_value(digits.push(digit), limit) == Some(
            (digits_value(digits) * 10 + (digit as int - '0' as int)) as nat,
        ),
        !('0' <= digit <= '9') ==> unsigned_value(digits.push(digit), limit) is None,
        digits_value(digits) > limit ==> unsigned_value(digits.push(digit), limit) is None,
{
    let longer = digits.push(digit);
    assert(longer.drop_last() =~= digits);
    assert(longer.last() == digit);
    assert(decimal::is_digit(digits[0]));
    assert(longer[0] == digits[0]);
    if '0' <= digit <= '9' {
        assert forall|i: int| 0 <= i < longer.len() implies decimal::is_digit(
            #[trigger] longer[i],
        ) by {
            if i < digits.len() {
                assert(longer[i] == digits[i]);
            }
        }
    } else {
        assert(longer[longer.len() - 1] == digit);
        assert(!decimal::is_digit(longer[longer.len() - 1]));
    }
}

/// A plus sign in front changes nothing, a minus sign negates, and a sign alone
/// or an empty text is no number. Unsigned numbers have no minus sign.
pub proof fn law_signs_stand_in_front(digits: Seq<char>, limit: nat)
    requires
        all_digits(digits),
        digits.len() > 0,
    ensures
        unsigned_value(seq!['+'] + digits, limit) == unsigned_value(digits, limit),
        unsigned_value(seq!['-'] + digits, limit) is None,
        unsigned_value(Seq::empty(), limit) is None,
        unsigned_value(seq!['+'], limit) is None,
        signed_value(seq!['-']) is None && signed_value(seq!['+']) is None,
        digits_value(digits) <= 0x8000_0000 ==> signed_value(seq!['-'] + digits) == Some(
            -(digits_value(digits) as int),
        ),
        digits_value(digits) > 0x8000_0000 ==> signed_value(seq!['-'] + digits) is None,
        digits_value(digits) <= 0x7fff_ffff ==> signed_value(digits) == Some(
            digits_value(digits) as int,
        ),
        digits_value(digits) > 0x7fff_ffff ==> signed_value(digits) is None,
{
    let plus = seq!['+'] + digits;
    let minus = seq!['-'] + digits;
    assert(plus.skip(1) =~= digits);
    assert(minus.skip(1) =~= digits);
    assert(decimal::is_digit(digits[0]));
    assert(plus[0] == '+');
    assert(minus[0] == '-');
    assert(!decimal::is_digit(minus[0]));
    assert(seq!['+'].skip(1) =~= Seq::<char>::empty());
    assert(seq!['-'].skip(1) =~= Seq::<char>::empty());
}

/// What is written has no leading zero, and a minus sign exactly if the number
/// is negative.
pub proof fn law_numbers_are_written_without_leading_zeros(n: nat, signed: int)
    ensures
        n > 0 ==> decimal(n)[0] != '0',
        n == 0 ==> decimal(n) == seq!['0'],
        signed_decimal(signed).len() > 0,
        signed < 0 <==> signed_decimal(signed)[0] == '-',
    decreases n,
{
    if n >= 10 {
        law_numbers_are_written_without_leading_zeros(n / 10, signed);
        decimal::lemma_decimal_reads_back(n / 10);
        assert(decimal(n)[0] == decimal(n / 10)[0]);
    } else {
        assert(decimal(0) =~= seq!['0']);
    }
    if signed >= 0 {
        decimal::lemma_decimal_reads_back(signed as nat);
        assert(decimal::is_digit(decimal(signed as nat)[0]));
    }
}

/// A byte is written with two hexadecimal digits, the higher one first, and the
/// bytes one behind the other.
pub proof fn law_bytes_are_written_in_hexadecimal(bytes: Seq<u8>, i: int)
    requires
        0 <= i < bytes.len(),
    ensures
        hexadecimal_bytes(bytes).len() == 2 * bytes.len(),
        hexadecimal_value(hexadecimal_bytes(bytes)[2 * i]) * 16 + hexadecimal_value(
            hexadecimal_bytes(bytes)[2 * i + 1],
        ) == bytes[i],
        0 <= hexadecimal_value(hexadecimal_bytes(bytes)[2 * i]) < 16,
        0 <= hexadecimal_value(hexadecimal_bytes(bytes)[2 * i + 1]) < 16,
    decreases bytes.len(),
{
    let head = bytes.drop_last();
    lemma_bytes_length(head);
    reveal_with_fuel(hexadecimal_digits, 3);
    let last = hexadecimal_digits(bytes.last() as nat, 2);
    assert(last.len() == 2);
    if i < head.len() {
        law_bytes_are_written_in_hexadecimal(head, i);
        assert(head[i] == bytes[i]);
    }
}

proof fn lemma_bytes_length(bytes: Seq<u8>)
    ensures
        hexadecimal_bytes(bytes).len() == 2 * bytes.len(),
    decreases bytes.len(),
{
    if bytes.len() > 0 {
        lemma_bytes_length(bytes.drop_last());
        reveal_with_fuel(hexadecimal_digits, 3);
    }
}

/// A number below 256 is written behind `0x` with one hexadecimal digit or two.
pub proof fn law_small_numbers_are_written_in_hexadecimal(n: nat)
    requires
        n < 256,
    ensures
        hexadecimal(n)[0] == '0' && hexadecimal(n)[1] == 'x',
        n < 16 ==> hexadecimal(n).len() == 3 && hexadecimal_value(hexadecimal(n)[2]) == n,
        n >= 16 ==> hexadecimal(n).len() == 4 && hexadecimal_value(hexadecimal(n)[2]) * 16
            + hexadecimal_value(hexadecimal(n)[3]) == n,
{
}

} // verus!
