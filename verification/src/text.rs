//! Text as a sequence of characters: splitting, joining, and moving between
//! bytes, characters and `String`s.

use vstd::prelude::*;
use vstd::utf8::*;

verus! {

/// `String::push` appends one character to the end of the text.
pub assume_specification[ String::push ](target: &mut String, c: char)
    ensures
        final(target)@ == old(target)@.push(c),
;

/// The characters that a run of ASCII bytes stands for.
pub open spec fn ascii_chars(bytes: Seq<u8>) -> Seq<char> {
    Seq::new(bytes.len(), |i: int| bytes[i] as char)
}

/// The texts held by a list of `String`s.
pub open spec fn texts(strings: Seq<String>) -> Seq<Seq<char>> {
    Seq::new(strings.len(), |i: int| strings[i]@)
}

/// Where the first byte that satisfies `wanted` stands.
pub open spec fn first_where(bytes: Seq<u8>, wanted: spec_fn(u8) -> bool) -> Option<int>
    decreases bytes.len(),
{
    if bytes.len() == 0 {
        None
    } else {
        match first_where(bytes.drop_last(), wanted) {
            Some(index) => Some(index),
            None => if wanted(bytes.last()) {
                Some(bytes.len() - 1)
            } else {
                None
            },
        }
    }
}

/// `first_where` names an index in range whose byte is wanted, with no wanted
/// byte before it; it names none exactly when no byte is wanted.
pub proof fn lemma_first_where(bytes: Seq<u8>, wanted: spec_fn(u8) -> bool)
    ensures
        match first_where(bytes, wanted) {
            Some(index) => {
                &&& 0 <= index < bytes.len()
                &&& wanted(bytes[index])
                &&& forall|i: int| 0 <= i < index ==> !wanted(#[trigger] bytes[i])
            },
            None => forall|i: int| 0 <= i < bytes.len() ==> !wanted(#[trigger] bytes[i]),
        },
    decreases bytes.len(),
{
    if bytes.len() > 0 {
        let head = bytes.drop_last();
        lemma_first_where(head, wanted);
        assert forall|i: int| 0 <= i < head.len() implies head[i] == #[trigger] bytes[i] by {}
    }
}

/// Extending the bytes does not move the first wanted one.
pub proof fn lemma_first_where_prefix(bytes: Seq<u8>, wanted: spec_fn(u8) -> bool, end: int)
    requires
        0 <= end <= bytes.len(),
        first_where(bytes.take(end), wanted) is Some,
    ensures
        first_where(bytes, wanted) == first_where(bytes.take(end), wanted),
    decreases bytes.len() - end,
{
    if end < bytes.len() {
        assert(bytes.take(end + 1).drop_last() =~= bytes.take(end));
        lemma_first_where_prefix(bytes, wanted, end + 1);
    } else {
        assert(bytes.take(end) =~= bytes);
    }
}

/// The pieces of `text` between the occurrences of `separator`; a text
/// without one is a single piece.
pub open spec fn split(text: Seq<char>, separator: char) -> Seq<Seq<char>>
    decreases text.len(),
{
    if text.len() == 0 {
        seq![Seq::<char>::empty()]
    } else {
        let head = split(text.drop_last(), separator);
        if text.last() == separator {
            head.push(Seq::<char>::empty())
        } else {
            head.drop_last().push(head.last().push(text.last()))
        }
    }
}

/// The pieces put together again with `separator` between each two of them.
pub open spec fn join(pieces: Seq<Seq<char>>, separator: char) -> Seq<char>
    decreases pieces.len(),
{
    if pieces.len() == 0 {
        Seq::<char>::empty()
    } else if pieces.len() == 1 {
        pieces[0]
    } else {
        join(pieces.drop_last(), separator).push(separator) + pieces.last()
    }
}

/// A split has at least one piece, and no piece holds the separator.
pub proof fn lemma_split_pieces(text: Seq<char>, separator: char)
    ensures
        split(text, separator).len() >= 1,
        split(text, separator).len() <= text.len() + 1,
        forall|i: int|
            0 <= i < split(text, separator).len() ==> !(#[trigger] split(
                text,
                separator,
            )[i]).contains(separator),
    decreases text.len(),
{
    if text.len() > 0 {
        lemma_split_pieces(text.drop_last(), separator);
        let head = split(text.drop_last(), separator);
        let all = split(text, separator);
        assert forall|i: int| 0 <= i < all.len() implies !(#[trigger] all[i]).contains(separator) by {
            if i < head.len() - 1 {
                assert(all[i] == head[i]);
            } else if text.last() == separator && i == head.len() - 1 {
                assert(all[i] == head[i]);
            } else if text.last() != separator {
                let grown = head.last().push(text.last());
                assert(all[i] == grown);
                assert(!head[head.len() - 1].contains(separator));
                if grown.contains(separator) {
                    let at = choose|k: int| 0 <= k < grown.len() && grown[k] == separator;
                    assert(head.last()[at] == separator);
                }
            }
        }
    }
}

/// Joining the pieces of a split gives the text back.
pub proof fn lemma_join_of_split(text: Seq<char>, separator: char)
    ensures
        join(split(text, separator), separator) == text,
    decreases text.len(),
{
    lemma_split_pieces(text, separator);
    if text.len() > 0 {
        let head = split(text.drop_last(), separator);
        lemma_split_pieces(text.drop_last(), separator);
        lemma_join_of_split(text.drop_last(), separator);
        if text.last() == separator {
            assert(head.push(Seq::<char>::empty()).drop_last() =~= head);
            assert(join(split(text, separator), separator) =~= text);
        } else {
            let grown = head.drop_last().push(head.last().push(text.last()));
            assert(grown.drop_last() =~= head.drop_last());
            assert(join(grown, separator) =~= join(head, separator).push(text.last()));
            assert(join(grown, separator) =~= text);
        }
    }
}

/// Splitting a joined list of pieces, none of which holds the separator,
/// gives the pieces back.
pub proof fn lemma_split_of_join(pieces: Seq<Seq<char>>, separator: char)
    requires
        pieces.len() >= 1,
        forall|i: int| 0 <= i < pieces.len() ==> !(#[trigger] pieces[i]).contains(separator),
    ensures
        split(join(pieces, separator), separator) == pieces,
    decreases pieces.len(),
{
    if pieces.len() == 1 {
        lemma_split_tail(Seq::<char>::empty(), pieces[0], separator);
        assert(Seq::<char>::empty() + pieces[0] =~= pieces[0]);
        assert(split(Seq::<char>::empty(), separator) =~= seq![Seq::<char>::empty()]);
        assert(split(pieces[0], separator) =~= pieces);
    } else {
        let head = pieces.drop_last();
        assert forall|i: int| 0 <= i < head.len() implies !(#[trigger] head[i]).contains(
            separator,
        ) by {
            assert(head[i] == pieces[i]);
        }
        lemma_split_of_join(head, separator);
        let opened = join(head, separator).push(separator);
        assert(opened.drop_last() =~= join(head, separator));
        assert(split(opened, separator) =~= head.push(Seq::<char>::empty()));
        assert(!pieces[pieces.len() - 1].contains(separator));
        lemma_split_tail(opened, pieces.last(), separator);
        assert(split(join(pieces, separator), separator) =~= pieces);
    }
}

/// Text without the separator only lengthens the last piece.
pub proof fn lemma_split_tail(head: Seq<char>, tail: Seq<char>, separator: char)
    requires
        !tail.contains(separator),
    ensures
        split(head, separator).len() >= 1,
        split(head + tail, separator) == split(head, separator).drop_last().push(
            split(head, separator).last() + tail,
        ),
    decreases tail.len(),
{
    lemma_split_pieces(head, separator);
    let pieces = split(head, separator);
    if tail.len() == 0 {
        assert(head + tail =~= head);
        assert(pieces.last() + tail =~= pieces.last());
        assert(pieces.drop_last().push(pieces.last()) =~= pieces);
    } else {
        assert(tail[tail.len() - 1] == tail.last());
        assert(!tail.drop_last().contains(separator)) by {
            if tail.drop_last().contains(separator) {
                let at = choose|k: int|
                    0 <= k < tail.drop_last().len() && tail.drop_last()[k] == separator;
                assert(tail[at] == separator);
            }
        }
        lemma_split_tail(head, tail.drop_last(), separator);
        assert((head + tail).drop_last() =~= head + tail.drop_last());
        let before = split(head + tail.drop_last(), separator);
        assert(before.drop_last() =~= pieces.drop_last());
        assert((pieces.last() + tail.drop_last()).push(tail.last()) =~= pieces.last() + tail);
    }
}

/// ASCII characters are encoded as themselves.
pub proof fn lemma_ascii_round_trip(bytes: Seq<u8>)
    requires
        forall|i: int| 0 <= i < bytes.len() ==> #[trigger] bytes[i] < 128,
    ensures
        is_ascii_chars(ascii_chars(bytes)),
        encode_utf8(ascii_chars(bytes)) == bytes,
{
    let chars = ascii_chars(bytes);
    assert forall|i| 0 <= i < chars.len() implies '\0' <= #[trigger] chars[i] <= '\u{7f}' by {
        assert(bytes[i] < 128);
    }
    is_ascii_chars_encode_utf8(chars);
    assert forall|i: int| 0 <= i < bytes.len() implies encode_utf8(chars)[i] == bytes[i] by {
        assert(chars[i] as u8 == encode_utf8(chars)[i]);
        assert(bytes[i] < 128);
    }
    assert(encode_utf8(chars) =~= bytes);
}

/// Text whose encoding has only ASCII bytes is ASCII, and its bytes are its
/// characters.
pub proof fn lemma_ascii_bytes(text: Seq<char>)
    requires
        forall|i: int|
            0 <= i < encode_utf8(text).len() ==> #[trigger] encode_utf8(text)[i] < 128,
    ensures
        is_ascii_chars(text),
        text == ascii_chars(encode_utf8(text)),
        text.len() == encode_utf8(text).len(),
{
    let bytes = encode_utf8(text);
    lemma_ascii_round_trip(bytes);
    encode_utf8_decode_utf8(text);
    encode_utf8_decode_utf8(ascii_chars(bytes));
}

/// Two texts with the same encoding are the same text.
pub proof fn lemma_encoding_is_injective(a: Seq<char>, b: Seq<char>)
    requires
        encode_utf8(a) == encode_utf8(b),
    ensures
        a == b,
{
    encode_utf8_decode_utf8(a);
    encode_utf8_decode_utf8(b);
}

/// The characters of a text.
pub fn chars_of(text: &str) -> (chars: Vec<char>)
    ensures
        chars@ == text@,
{
    let mut chars: Vec<char> = Vec::new();
    for c in it: text.chars()
        invariant
            it.seq() == text@,
            chars@ == text@.take(it.index() as int),
    {
        chars.push(c);
    }
    assert(text@.take(text@.len() as int) =~= text@);
    chars
}

/// Whether two runs of bytes are the same.
pub fn same_bytes(a: &[u8], b: &[u8]) -> (same: bool)
    ensures
        same == (a@ == b@),
{
    if a.len() != b.len() {
        return false;
    }
    let mut i: usize = 0;
    while i < a.len()
        invariant
            a@.len() == b@.len(),
            i <= a@.len(),
            forall|k: int| 0 <= k < i ==> a@[k] == b@[k],
        decreases a@.len() - i,
    {
        if a[i] != b[i] {
            return false;
        }
        i += 1;
    }
    assert(a@ =~= b@);
    true
}

/// Whether two texts are the same.
pub fn same_text(a: &str, b: &str) -> (same: bool)
    ensures
        same == (a@ == b@),
{
    let same: bool = same_bytes(a.as_bytes(), b.as_bytes());
    proof {
        if same {
            lemma_encoding_is_injective(a@, b@);
        }
    }
    same
}

/// Whether a text begins with another one.
pub fn begins_with(text: &str, prefix: &str) -> (answer: bool)
    ensures
        answer == prefix@.is_prefix_of(text@),
{
    let all: Vec<char> = chars_of(text);
    let wanted: Vec<char> = chars_of(prefix);
    if all.len() < wanted.len() {
        return false;
    }
    let mut i: usize = 0;
    while i < wanted.len()
        invariant
            all@ == text@,
            wanted@ == prefix@,
            i <= wanted@.len() <= all@.len(),
            forall|k: int| 0 <= k < i ==> wanted@[k] == all@[k],
        decreases wanted@.len() - i,
    {
        if wanted[i] != all[i] {
            assert(text@.subrange(0, prefix@.len() as int)[i as int] == all@[i as int]);
            return false;
        }
        i += 1;
    }
    assert(prefix@ =~= text@.subrange(0, prefix@.len() as int));
    true
}

/// The text of the ASCII bytes from `from` up to `to`.
pub fn ascii_string(bytes: &[u8], from: usize, to: usize) -> (text: String)
    requires
        from <= to <= bytes@.len(),
        forall|i: int| from <= i < to ==> #[trigger] bytes@[i] < 128,
    ensures
        text@ == ascii_chars(bytes@.subrange(from as int, to as int)),
{
    let mut text = String::new();
    let mut i: usize = from;
    while i < to
        invariant
            from <= i <= to <= bytes@.len(),
            text@ == ascii_chars(bytes@.subrange(from as int, i as int)),
        decreases to - i,
    {
        text.push(bytes[i] as char);
        i += 1;
        assert(text@ =~= ascii_chars(bytes@.subrange(from as int, i as int)));
    }
    text
}

/// A copy of a list of texts.
pub fn copy_strings(strings: &Vec<String>) -> (copy: Vec<String>)
    ensures
        texts(copy@) == texts(strings@),
{
    let mut copy: Vec<String> = Vec::new();
    let mut i: usize = 0;
    while i < strings.len()
        invariant
            i <= strings@.len(),
            copy@.len() == i,
            forall|k: int| 0 <= k < i ==> (#[trigger] copy@[k])@ == strings@[k]@,
        decreases strings@.len() - i,
    {
        copy.push(strings[i].clone());
        i += 1;
    }
    assert(texts(copy@) =~= texts(strings@));
    copy
}

} // verus!
