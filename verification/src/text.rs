//! Character-level operations on text, with their models.
//!
//! Text is modelled as `Seq<char>`, the view of `str` and `String`. Here is
//! what an identifier, a document path and a message need: splitting at a
//! separator, replacing one character by another, and writing a number in
//! decimal. Splitting has an inverse, joining, and the laws that relate the
//! two are proved below.

use vstd::prelude::*;

verus! {

/// `String::push` appends the given character to the end of the string.
pub assume_specification[ String::push ](s: &mut String, ch: char)
    ensures
        final(s)@ == old(s)@.push(ch),
;

/// How many elements of `s` equal `c`.
pub open spec fn occurrences(s: Seq<char>, c: char) -> nat
    decreases s.len(),
{
    if s.len() == 0 {
        0
    } else {
        occurrences(s.drop_last(), c) + if s.last() == c {
            1nat
        } else {
            0nat
        }
    }
}

/// The segments of `s` between the occurrences of `sep`, in order. There is
/// always at least one segment, and a segment may be empty.
pub open spec fn split_spec(s: Seq<char>, sep: char) -> Seq<Seq<char>>
    decreases s.len(),
{
    if s.len() == 0 {
        seq![Seq::<char>::empty()]
    } else {
        let before = split_spec(s.drop_last(), sep);
        if s.last() == sep {
            before.push(Seq::<char>::empty())
        } else {
            before.drop_last().push(before.last().push(s.last()))
        }
    }
}

/// The segments written one after the other with `sep` between neighbours.
pub open spec fn join_spec(segments: Seq<Seq<char>>, sep: char) -> Seq<char>
    decreases segments.len(),
{
    if segments.len() == 0 {
        Seq::<char>::empty()
    } else if segments.len() == 1 {
        segments[0]
    } else {
        join_spec(segments.drop_last(), sep).push(sep) + segments.last()
    }
}

/// `s` with every `from` replaced by `to`.
pub open spec fn replace_spec(s: Seq<char>, from: char, to: char) -> Seq<char> {
    s.map_values(
        |c: char|
            if c == from {
                to
            } else {
                c
            },
    )
}

/// The decimal digit of `d`, for `d` below ten.
pub open spec fn digit_spec(d: nat) -> char {
    seq!['0', '1', '2', '3', '4', '5', '6', '7', '8', '9'][d as int]
}

/// `n` in decimal notation, without leading zeros.
pub open spec fn decimal_spec(n: nat) -> Seq<char>
    decreases n,
{
    if n < 10 {
        seq![digit_spec(n)]
    } else {
        decimal_spec(n / 10).push(digit_spec(n % 10))
    }
}

/// Splitting gives one segment more than there are separators.
pub proof fn lemma_split_len(s: Seq<char>, sep: char)
    ensures
        split_spec(s, sep).len() == occurrences(s, sep) + 1,
    decreases s.len(),
{
    if s.len() > 0 {
        lemma_split_len(s.drop_last(), sep);
    }
}

/// No segment of a split holds the separator.
pub proof fn lemma_split_segments_exclude_sep(s: Seq<char>, sep: char)
    ensures
        forall|i: int|
            0 <= i < split_spec(s, sep).len() ==> !(#[trigger] split_spec(s, sep)[i]).contains(sep),
    decreases s.len(),
{
    if s.len() > 0 {
        lemma_split_segments_exclude_sep(s.drop_last(), sep);
        lemma_split_len(s.drop_last(), sep);
    }
}

/// Two segments join to the first, the separator and the second.
pub proof fn lemma_join_of_pair(first: Seq<char>, second: Seq<char>, sep: char)
    ensures
        join_spec(seq![first, second], sep) == first + seq![sep] + second,
{
    let pair = seq![first, second];
    assert(join_spec(pair, sep) == join_spec(pair.drop_last(), sep).push(sep) + second);
}

/// Joining the segments of a split gives the text back.
pub proof fn lemma_join_of_split(s: Seq<char>, sep: char)
    ensures
        join_spec(split_spec(s, sep), sep) == s,
    decreases s.len(),
{
    if s.len() > 0 {
        let before = split_spec(s.drop_last(), sep);
        let after = split_spec(s, sep);
        lemma_join_of_split(s.drop_last(), sep);
        lemma_split_len(s.drop_last(), sep);
        if s.last() == sep {
            assert(after.drop_last() == before);
        } else if before.len() > 1 {
            assert(after.drop_last() == before.drop_last());
        }
        assert(s.drop_last().push(s.last()) == s);
    }
}

/// Text without a separator that follows a text only lengthens the last
/// segment of that text.
pub proof fn lemma_split_of_extension(s: Seq<char>, tail: Seq<char>, sep: char)
    requires
        !tail.contains(sep),
    ensures
        split_spec(s + tail, sep) == split_spec(s, sep).drop_last().push(
            split_spec(s, sep).last() + tail,
        ),
    decreases tail.len(),
{
    let segments = split_spec(s, sep);
    lemma_split_len(s, sep);
    if tail.len() > 0 {
        let shorter = tail.drop_last();
        lemma_split_of_extension(s, shorter, sep);
        assert((s + tail).drop_last() == s + shorter);
        assert((segments.last() + shorter).push(tail.last()) == segments.last() + tail);
    }
}

/// Splitting a join of segments that hold no separator gives the segments
/// back.
pub proof fn lemma_split_of_join(segments: Seq<Seq<char>>, sep: char)
    requires
        segments.len() >= 1,
        forall|i: int| 0 <= i < segments.len() ==> !(#[trigger] segments[i]).contains(sep),
    ensures
        split_spec(join_spec(segments, sep), sep) == segments,
    decreases segments.len(),
{
    if segments.len() == 1 {
        lemma_split_of_extension(Seq::<char>::empty(), segments[0], sep);
    } else {
        let init = segments.drop_last();
        let head = join_spec(init, sep).push(sep);
        lemma_split_of_join(init, sep);
        assert(head.drop_last() == join_spec(init, sep));
        lemma_split_of_extension(head, segments.last(), sep);
    }
}

/// Splits `s` at every occurrence of `sep`.
pub fn split(s: &str, sep: char) -> (segments: Vec<String>)
    ensures
        segments.deep_view() == split_spec(s@, sep),
{
    let mut done: Vec<String> = Vec::new();
    let mut current = String::new();
    let chars = s.chars();
    for c in it: chars
        invariant
            it.seq() == s@,
            done.deep_view().push(current@) == split_spec(s@.take(it.index()), sep),
    {
        assert(s@.take(it.index() + 1).drop_last() == s@.take(it.index()));
        if c == sep {
            done.push(current);
            current = String::new();
        } else {
            current.push(c);
        }
    }
    assert(s@.take(s@.len() as int) == s@);
    done.push(current);
    done
}

/// Copies `s` with every `from` replaced by `to`.
pub fn replace(s: &str, from: char, to: char) -> (replaced: String)
    ensures
        replaced@ == replace_spec(s@, from, to),
{
    let mut replaced = String::new();
    let chars = s.chars();
    for c in it: chars
        invariant
            it.seq() == s@,
            replaced@ == replace_spec(s@.take(it.index()), from, to),
    {
        if c == from {
            replaced.push(to);
        } else {
            replaced.push(c);
        }
    }
    replaced
}

/// The decimal digit of `d`.
fn digit(d: u16) -> (c: char)
    requires
        d < 10,
    ensures
        c == digit_spec(d as nat),
{
    match d {
        0 => '0',
        1 => '1',
        2 => '2',
        3 => '3',
        4 => '4',
        5 => '5',
        6 => '6',
        7 => '7',
        8 => '8',
        _ => '9',
    }
}

/// Appends `n` in decimal notation to `text`.
pub fn push_decimal(text: &mut String, n: u16)
    ensures
        final(text)@ == old(text)@ + decimal_spec(n as nat),
    decreases n,
{
    if n >= 10 {
        push_decimal(text, n / 10);
    }
    text.push(digit(n % 10));
}

} // verus!
