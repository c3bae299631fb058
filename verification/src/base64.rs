//! Strict base64: padded, without line breaks, from the standard alphabet.

use vstd::arithmetic::div_mod::lemma_fundamental_div_mod_converse;
use vstd::prelude::*;

verus! {

/// The six bits that a base64 letter stands for.
pub open spec fn sextet(letter: u8) -> Option<int> {
    if 65 <= letter <= 90 {
        Some(letter - 65)
    } else if 97 <= letter <= 122 {
        Some(letter - 97 + 26)
    } else if 48 <= letter <= 57 {
        Some(letter - 48 + 52)
    } else if letter == 43 {
        Some(62int)
    } else if letter == 47 {
        Some(63int)
    } else {
        None
    }
}

/// Whether the letter is padding.
pub open spec fn is_padding(letter: u8) -> bool {
    letter == 61
}

/// The three bytes of a 24-bit number.
pub open spec fn three_bytes(n: int) -> Seq<u8> {
    seq![(n / 65536) as u8, (n / 256 % 256) as u8, (n % 256) as u8]
}

/// The bytes of one block of four letters. Only the last block may end in
/// padding: one letter for each byte that it falls short of three.
pub open spec fn block_bytes(a: u8, b: u8, c: u8, d: u8, last: bool) -> Option<Seq<u8>> {
    if is_padding(c) && !is_padding(d) || is_padding(d) && !last {
        None
    } else {
        let third = if is_padding(c) {
            Some(0int)
        } else {
            sextet(c)
        };
        let fourth = if is_padding(d) {
            Some(0int)
        } else {
            sextet(d)
        };
        match (sextet(a), sextet(b), third, fourth) {
            (Some(p), Some(q), Some(r), Some(s)) => Some(
                three_bytes(p * 262144 + q * 4096 + r * 64 + s).take(
                    if is_padding(c) {
                        1
                    } else if is_padding(d) {
                        2
                    } else {
                        3
                    },
                ),
            ),
            _ => None,
        }
    }
}

/// The bytes of the first `count` blocks.
pub open spec fn blocks_bytes(letters: Seq<u8>, count: nat) -> Option<Seq<u8>>
    decreases count,
{
    if count == 0 {
        Some(Seq::empty())
    } else {
        let at = (count - 1) * 4;
        match (
            blocks_bytes(letters, (count - 1) as nat),
            block_bytes(
                letters[at],
                letters[at + 1],
                letters[at + 2],
                letters[at + 3],
                count == letters.len() / 4,
            ),
        ) {
            (Some(head), Some(block)) => Some(head + block),
            _ => None,
        }
    }
}

/// The bytes that base64 text encodes, if it is strict base64.
pub open spec fn encoded_bytes(letters: Seq<u8>) -> Option<Seq<u8>> {
    if letters.len() % 4 == 0 {
        blocks_bytes(letters, (letters.len() / 4) as nat)
    } else {
        None
    }
}

proof fn lemma_blocks_len(letters: Seq<u8>, count: nat)
    ensures
        blocks_bytes(letters, count) matches Some(bytes) ==> bytes.len() <= count * 3,
    decreases count,
{
    if count > 0 {
        lemma_blocks_len(letters, (count - 1) as nat);
    }
}

/// Decoding never yields more than three bytes for four letters.
pub proof fn law_decoded_length_is_bounded(letters: Seq<u8>)
    ensures
        encoded_bytes(letters) matches Some(bytes) ==> bytes.len() * 4 <= letters.len() * 3,
{
    lemma_blocks_len(letters, (letters.len() / 4) as nat);
}

/// The letter that stands for six bits.
pub open spec fn letter(bits: int) -> u8 {
    if bits < 26 {
        (bits + 65) as u8
    } else if bits < 52 {
        (bits - 26 + 97) as u8
    } else if bits < 62 {
        (bits - 52 + 48) as u8
    } else if bits == 62 {
        43
    } else {
        47
    }
}

/// A byte as a number; zero behind the end.
pub open spec fn byte_at(bytes: Seq<u8>, at: int) -> int {
    if at < bytes.len() {
        bytes[at] as int
    } else {
        0
    }
}

/// The 24-bit number that the three bytes from `at` on make.
pub open spec fn triple(bytes: Seq<u8>, at: int) -> int {
    byte_at(bytes, at) * 65536 + byte_at(bytes, at + 1) * 256 + byte_at(bytes, at + 2)
}

/// The letter at a place of the standard padded encoding: four for every three
/// bytes, and padding for each byte that the last three fall short.
pub open spec fn encoded_letter(bytes: Seq<u8>, place: int) -> u8 {
    let at = place / 4 * 3;
    let n = triple(bytes, at);
    if place % 4 == 0 {
        letter(n / 262144)
    } else if place % 4 == 1 {
        letter(n / 4096 % 64)
    } else if place % 4 == 2 {
        if at + 1 < bytes.len() {
            letter(n / 64 % 64)
        } else {
            61
        }
    } else {
        if at + 2 < bytes.len() {
            letter(n % 64)
        } else {
            61
        }
    }
}

/// The standard padded encoding.
pub open spec fn encoding(bytes: Seq<u8>) -> Seq<u8> {
    Seq::new(((bytes.len() + 2) / 3 * 4) as nat, |place: int| encoded_letter(bytes, place))
}

proof fn lemma_letter(bits: int)
    requires
        0 <= bits < 64,
    ensures
        sextet(letter(bits)) == Some(bits),
        !is_padding(letter(bits)),
{
}

/// The letters of one block give its bytes back.
proof fn lemma_encoded_block(x: int, y: int, z: int)
    requires
        0 <= x < 256,
        0 <= y < 256,
        0 <= z < 256,
    ensures
        ({
            let n = x * 65536 + y * 256 + z;
            let p = n / 262144;
            let q = n / 4096 % 64;
            let r = n / 64 % 64;
            let s = n % 64;
            &&& 0 <= p < 64 && 0 <= q < 64 && 0 <= r < 64 && 0 <= s < 64
            &&& p * 262144 + q * 4096 + r * 64 + s == n
            &&& y == 0 && z == 0 ==> r == 0
            &&& z == 0 ==> s == 0
            &&& n / 65536 == x && n / 256 % 256 == y && n % 256 == z
        }),
{
    let n = x * 65536 + y * 256 + z;
    let (a, b) = (x / 4, x % 4);
    let (c, d) = (y / 16, y % 16);
    let (e, f) = (z / 64, z % 64);
    let q = b * 16 + c;
    let r = d * 4 + e;
    lemma_fundamental_div_mod_converse(n, 262144, a, q * 4096 + r * 64 + f);
    lemma_fundamental_div_mod_converse(n, 4096, a * 64 + q, r * 64 + f);
    lemma_fundamental_div_mod_converse(a * 64 + q, 64, a, q);
    lemma_fundamental_div_mod_converse(n, 64, (a * 64 + q) * 64 + r, f);
    lemma_fundamental_div_mod_converse((a * 64 + q) * 64 + r, 64, a * 64 + q, r);
    lemma_fundamental_div_mod_converse(n, 65536, x, y * 256 + z);
    lemma_fundamental_div_mod_converse(n, 256, x * 256 + y, z);
    lemma_fundamental_div_mod_converse(x * 256 + y, 256, x, y);
}

/// The letters of block `count` give its bytes back.
proof fn lemma_block_of_encoding(bytes: Seq<u8>, count: int)
    requires
        0 <= count,
        count * 3 < bytes.len(),
    ensures
        ({
            let letters = encoding(bytes);
            let place = count * 4;
            let at = count * 3;
            &&& place + 3 < letters.len()
            &&& block_bytes(
                letters[place],
                letters[place + 1],
                letters[place + 2],
                letters[place + 3],
                count + 1 == letters.len() / 4,
            ) == Some(
                bytes.subrange(
                    at,
                    if at + 3 <= bytes.len() {
                        at + 3
                    } else {
                        bytes.len() as int
                    },
                ),
            )
        }),
{
    let letters = encoding(bytes);
    let place = count * 4;
    let at = count * 3;
    let (x, y, z) = (byte_at(bytes, at), byte_at(bytes, at + 1), byte_at(bytes, at + 2));
    let n = triple(bytes, at);
    lemma_fundamental_div_mod_converse(place, 4, count, 0);
    lemma_fundamental_div_mod_converse(place + 1, 4, count, 1);
    lemma_fundamental_div_mod_converse(place + 2, 4, count, 2);
    lemma_fundamental_div_mod_converse(place + 3, 4, count, 3);
    assert(letters[place] == encoded_letter(bytes, place));
    assert(letters[place + 1] == encoded_letter(bytes, place + 1));
    assert(letters[place + 2] == encoded_letter(bytes, place + 2));
    assert(letters[place + 3] == encoded_letter(bytes, place + 3));
    lemma_encoded_block(x, y, z);
    lemma_letter(n / 262144);
    lemma_letter(n / 4096 % 64);
    lemma_letter(n / 64 % 64);
    lemma_letter(n % 64);
    let to = if at + 3 <= bytes.len() {
        at + 3
    } else {
        bytes.len() as int
    };
    assert(three_bytes(n).take(to - at) =~= bytes.subrange(at, to));
}

proof fn lemma_blocks_of_encoding(bytes: Seq<u8>, count: nat)
    requires
        count * 3 <= bytes.len() + 2,
    ensures
        blocks_bytes(encoding(bytes), count) == Some(
            bytes.take(
                if count * 3 <= bytes.len() {
                    count as int * 3
                } else {
                    bytes.len() as int
                },
            ),
        ),
    decreases count,
{
    if count == 0 {
        assert(bytes.take(0) =~= Seq::<u8>::empty());
    } else {
        let at = (count - 1) * 3;
        let to = if at + 3 <= bytes.len() {
            at + 3
        } else {
            bytes.len() as int
        };
        lemma_blocks_of_encoding(bytes, (count - 1) as nat);
        lemma_block_of_encoding(bytes, count - 1);
        assert(bytes.take(at) + bytes.subrange(at, to) =~= bytes.take(to));
    }
}

/// Decoding undoes the standard padded encoding, of any bytes.
pub proof fn law_decoding_undoes_encoding(bytes: Seq<u8>)
    ensures
        encoded_bytes(encoding(bytes)) == Some(bytes),
{
    lemma_blocks_of_encoding(bytes, ((bytes.len() + 2) / 3) as nat);
    assert(bytes.take(bytes.len() as int) =~= bytes);
}

/// Whether the text is letters of the alphabet with `padding` padding letters
/// behind them.
pub open spec fn padded_by(letters: Seq<u8>, padding: int) -> bool {
    &&& 0 <= padding <= 2
    &&& padding <= letters.len()
    &&& forall|i: int|
        0 <= i < letters.len() - padding ==> sextet(#[trigger] letters[i]) is Some
    &&& forall|i: int|
        letters.len() - padding <= i < letters.len() ==> is_padding(#[trigger] letters[i])
}

proof fn lemma_inner_blocks(letters: Seq<u8>, count: nat)
    requires
        count * 4 < letters.len(),
        letters.len() % 4 == 0,
    ensures
        blocks_bytes(letters, count) is Some <==> forall|i: int|
            0 <= i < count * 4 ==> sextet(#[trigger] letters[i]) is Some,
        blocks_bytes(letters, count) matches Some(bytes) ==> bytes.len() == count * 3,
    decreases count,
{
    if count > 0 {
        let at = (count - 1) * 4;
        lemma_inner_blocks(letters, (count - 1) as nat);
        let (a, b, c, d) = (letters[at], letters[at + 1], letters[at + 2], letters[at + 3]);
        assert(count != letters.len() / 4);
        assert(block_bytes(a, b, c, d, false) is Some <==> sextet(a) is Some && sextet(b) is Some
            && sextet(c) is Some && sextet(d) is Some);
        assert forall|i: int|
            0 <= i < count * 4 && blocks_bytes(letters, count) is Some implies sextet(
            #[trigger] letters[i],
        ) is Some by {
            assert(i < at || i == at || i == at + 1 || i == at + 2 || i == at + 3);
        }
    }
}

/// What decodes is exactly the text of whole blocks of four letters that are
/// all of the alphabet but for at most two padding letters at the end. Four
/// letters give three bytes, less one for each padding letter.
pub proof fn law_strict_base64_decodes(letters: Seq<u8>)
    ensures
        encoded_bytes(letters) is Some <==> letters.len() % 4 == 0 && exists|padding: int|
            #[trigger] padded_by(letters, padding),
        forall|padding: int|
            letters.len() % 4 == 0 && #[trigger] padded_by(letters, padding) ==> encoded_bytes(
                letters,
            )->0.len() == letters.len() / 4 * 3 - padding,
{
    if letters.len() == 0 {
        assert(padded_by(letters, 0));
    } else if letters.len() % 4 == 0 {
        let count = (letters.len() / 4) as nat;
        let at = (count - 1) * 4;
        lemma_inner_blocks(letters, (count - 1) as nat);
        let (a, b, c, d) = (letters[at], letters[at + 1], letters[at + 2], letters[at + 3]);
        if encoded_bytes(letters) is Some {
            let padding: int = if is_padding(c) {
                2
            } else if is_padding(d) {
                1
            } else {
                0
            };
            assert forall|i: int| 0 <= i < letters.len() - padding implies sextet(
                #[trigger] letters[i],
            ) is Some by {
                assert(i < at || i == at || i == at + 1 || i == at + 2 || i == at + 3);
            }
            assert forall|i: int| letters.len() - padding <= i < letters.len() implies is_padding(
                #[trigger] letters[i],
            ) by {
                assert(i == at + 2 || i == at + 3);
            }
            assert(padded_by(letters, padding));
        }
        assert forall|padding: int| #[trigger] padded_by(letters, padding) implies encoded_bytes(
            letters,
        ) is Some && encoded_bytes(letters)->0.len() == letters.len() / 4 * 3 - padding by {
            assert(sextet(a) is Some && sextet(b) is Some);
            assert(padding == 2 ==> is_padding(c) && is_padding(d));
            assert(padding == 1 ==> sextet(c) is Some && is_padding(d));
            assert(padding == 0 ==> sextet(c) is Some && sextet(d) is Some);
            assert(block_bytes(a, b, c, d, true) is Some);
        }
    }
}

proof fn lemma_failed_block_decides(letters: Seq<u8>, shorter: nat, count: nat)
    requires
        shorter <= count,
        blocks_bytes(letters, shorter) is None,
    ensures
        blocks_bytes(letters, count) is None,
    decreases count,
{
    if shorter < count {
        lemma_failed_block_decides(letters, shorter, (count - 1) as nat);
    }
}

fn decode_letter(letter: u8) -> (value: Option<u32>)
    ensures
        match value {
            Some(bits) => sextet(letter) == Some(bits as int) && bits < 64,
            None => sextet(letter) is None,
        },
{
    if 65 <= letter && letter <= 90 {
        Some((letter - 65) as u32)
    } else if 97 <= letter && letter <= 122 {
        Some((letter - 71) as u32)
    } else if 48 <= letter && letter <= 57 {
        Some((letter + 4) as u32)
    } else if letter == 43 {
        Some(62)
    } else if letter == 47 {
        Some(63)
    } else {
        None
    }
}

/// Appends the bytes of one block; tells whether the block was in order.
fn decode_block(decoded: &mut Vec<u8>, a: u8, b: u8, c: u8, d: u8, last: bool) -> (fine: bool)
    ensures
        match block_bytes(a, b, c, d, last) {
            Some(bytes) => fine && final(decoded)@ == old(decoded)@ + bytes,
            None => !fine,
        },
{
    let ghost before = decoded@;
    let pad_c: bool = c == 61;
    let pad_d: bool = d == 61;
    if pad_c && !pad_d || pad_d && !last {
        return false;
    }
    let p: u32 = match decode_letter(a) {
        Some(bits) => bits,
        None => {
            return false;
        },
    };
    let q: u32 = match decode_letter(b) {
        Some(bits) => bits,
        None => {
            return false;
        },
    };
    let r: u32 = if pad_c {
        0
    } else {
        match decode_letter(c) {
            Some(bits) => bits,
            None => {
                return false;
            },
        }
    };
    let s: u32 = if pad_d {
        0
    } else {
        match decode_letter(d) {
            Some(bits) => bits,
            None => {
                return false;
            },
        }
    };
    let n: u32 = p * 262144 + q * 4096 + r * 64 + s;
    decoded.push((n / 65536) as u8);
    if !pad_c {
        decoded.push((n / 256 % 256) as u8);
    }
    if !pad_d {
        decoded.push((n % 256) as u8);
    }
    assert(decoded@ =~= before + block_bytes(a, b, c, d, last)->0);
    true
}

/// Decodes strict base64.
pub fn decode(letters: &[u8]) -> (bytes: Option<Vec<u8>>)
    ensures
        match bytes {
            Some(decoded) => encoded_bytes(letters@) == Some(decoded@),
            None => encoded_bytes(letters@) is None,
        },
{
    if letters.len() % 4 != 0 {
        return None;
    }
    let count: usize = letters.len() / 4;
    let mut decoded: Vec<u8> = Vec::new();
    let mut i: usize = 0;
    while i < count
        invariant
            i <= count,
            count * 4 == letters@.len(),
            count * 4 <= usize::MAX,
            blocks_bytes(letters@, i as nat) == Some(decoded@),
        decreases count - i,
    {
        let at: usize = i * 4;
        let fine: bool = decode_block(
            &mut decoded,
            letters[at],
            letters[at + 1],
            letters[at + 2],
            letters[at + 3],
            i + 1 == count,
        );
        if !fine {
            proof {
                assert(blocks_bytes(letters@, (i + 1) as nat) is None);
                lemma_failed_block_decides(letters@, (i + 1) as nat, count as nat);
            }
            return None;
        }
        i += 1;
    }
    Some(decoded)
}

} // verus!
