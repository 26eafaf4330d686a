//! Byte-level text search. A text is modelled by the sequence of its UTF-8
//! bytes; every pattern the library looks for is ASCII, so searching bytes
//! finds exactly what searching characters would.

use vstd::prelude::*;
use vstd::slice::slice_subrange;
use vstd::string::StringSliceAdditionalSpecFns;
use vstd::utf8::{
    encode_utf8, encode_utf8_decode_utf8, is_char_boundary,
    is_char_boundary_iff_not_is_continuation_byte, is_char_boundary_start_end_of_seq,
    pop_first_scalar, valid_utf8, valid_utf8_split,
};

verus! {

/// `needle` occurs in `hay` at offset `at`.
pub open spec fn occurs_at(hay: Seq<u8>, needle: Seq<u8>, at: int) -> bool {
    &&& 0 <= at
    &&& at + needle.len() <= hay.len()
    &&& hay.subrange(at, at + needle.len()) == needle
}

/// `hay` begins with `needle`.
pub open spec fn starts_with(hay: Seq<u8>, needle: Seq<u8>) -> bool {
    occurs_at(hay, needle, 0)
}

/// `needle` occurs somewhere in `hay`.
pub open spec fn contains(hay: Seq<u8>, needle: Seq<u8>) -> bool {
    exists|at: int| occurs_at(hay, needle, at)
}

/// `at` is the leftmost offset at which `needle` occurs in `hay`.
pub open spec fn is_first_occurrence(hay: Seq<u8>, needle: Seq<u8>, at: int) -> bool {
    &&& occurs_at(hay, needle, at)
    &&& forall|j: int| 0 <= j < at ==> !occurs_at(hay, needle, j)
}

/// The leftmost offset at which `needle` occurs in `hay`; meaningful only
/// when `contains(hay, needle)`.
pub open spec fn first_occurrence(hay: Seq<u8>, needle: Seq<u8>) -> int {
    choose|at: int| is_first_occurrence(hay, needle, at)
}

/// Two patterns occur one right after the other where the two put together
/// occur.
pub proof fn lemma_occurs_in_a_row(hay: Seq<u8>, first: Seq<u8>, second: Seq<u8>, at: int)
    ensures
        occurs_at(hay, first + second, at) <==> occurs_at(hay, first, at) && occurs_at(
            hay,
            second,
            at + first.len(),
        ),
{
    let end = at + first.len() + second.len();
    if occurs_at(hay, first + second, at) {
        let both = hay.subrange(at, end);
        assert(hay.subrange(at, at + first.len()) =~= both.subrange(0, first.len() as int));
        assert(hay.subrange(at + first.len(), end) =~= both.subrange(
            first.len() as int,
            both.len() as int,
        ));
        assert(first =~= (first + second).subrange(0, first.len() as int));
        assert(second =~= (first + second).subrange(
            first.len() as int,
            (first + second).len() as int,
        ));
    }
    if occurs_at(hay, first, at) && occurs_at(hay, second, at + first.len()) {
        assert(hay.subrange(at, end) =~= hay.subrange(at, at + first.len()) + hay.subrange(
            at + first.len(),
            end,
        ));
    }
}

/// A leftmost occurrence is unique, so any offset known to be leftmost is
/// the one `first_occurrence` names.
pub proof fn lemma_first_occurrence_unique(hay: Seq<u8>, needle: Seq<u8>, at: int)
    requires
        is_first_occurrence(hay, needle, at),
    ensures
        contains(hay, needle),
        first_occurrence(hay, needle) == at,
{
}

/// Below any occurrence there is a leftmost one.
proof fn lemma_leftmost_exists(hay: Seq<u8>, needle: Seq<u8>, at: int)
    requires
        occurs_at(hay, needle, at),
    ensures
        exists|first: int| is_first_occurrence(hay, needle, first),
    decreases at,
{
    if exists|j: int| 0 <= j < at && occurs_at(hay, needle, j) {
        let j = choose|j: int| 0 <= j < at && occurs_at(hay, needle, j);
        lemma_leftmost_exists(hay, needle, j);
    } else {
        assert(is_first_occurrence(hay, needle, at));
    }
}

/// Where `needle` occurs at all, `first_occurrence` is its leftmost
/// occurrence.
pub proof fn lemma_first_occurrence(hay: Seq<u8>, needle: Seq<u8>)
    requires
        contains(hay, needle),
    ensures
        is_first_occurrence(hay, needle, first_occurrence(hay, needle)),
{
    let at = choose|at: int| occurs_at(hay, needle, at);
    lemma_leftmost_exists(hay, needle, at);
}

/// The pieces of `text` between the occurrences of the separator `sep`,
/// found from the left and never overlapping. There is always at least one
/// piece; an empty separator separates nothing.
pub open spec fn split(text: Seq<u8>, sep: Seq<u8>) -> Seq<Seq<u8>>
    decreases text.len(),
    via split_decreases
{
    if sep.len() > 0 && contains(text, sep) {
        let at = first_occurrence(text, sep);
        seq![text.subrange(0, at)] + split(
            text.subrange(at + sep.len(), text.len() as int),
            sep,
        )
    } else {
        seq![text]
    }
}

#[via_fn]
proof fn split_decreases(text: Seq<u8>, sep: Seq<u8>) {
    if sep.len() > 0 && contains(text, sep) {
        lemma_first_occurrence(text, sep);
    }
}

/// A text always has a first piece, and where it has no other, that piece
/// is the whole text.
pub proof fn lemma_split_single(text: Seq<u8>, sep: Seq<u8>)
    ensures
        split(text, sep).len() >= 1,
        split(text, sep).len() == 1 ==> split(text, sep) == seq![text],
    decreases text.len(),
{
    if sep.len() > 0 && contains(text, sep) {
        lemma_first_occurrence(text, sep);
        let at = first_occurrence(text, sep);
        lemma_split_single(text.subrange(at + sep.len(), text.len() as int), sep);
    }
}

/// The pieces put together again, with `sep` between any two of them.
pub open spec fn join(pieces: Seq<Seq<u8>>, sep: Seq<u8>) -> Seq<u8>
    decreases pieces.len(),
{
    if pieces.len() == 0 {
        Seq::empty()
    } else if pieces.len() == 1 {
        pieces[0]
    } else {
        pieces[0] + sep + join(pieces.drop_first(), sep)
    }
}

/// Splitting loses nothing: the pieces of a text, joined by the separator,
/// are the text.
pub proof fn lemma_split_joins_back(text: Seq<u8>, sep: Seq<u8>)
    ensures
        join(split(text, sep), sep) == text,
    decreases text.len(),
{
    if sep.len() > 0 && contains(text, sep) {
        lemma_first_occurrence(text, sep);
        let at = first_occurrence(text, sep);
        let rest = text.subrange(at + sep.len(), text.len() as int);
        lemma_split_joins_back(rest, sep);
        lemma_split_single(rest, sep);
        let pieces = split(text, sep);
        assert(pieces.drop_first() =~= split(rest, sep));
    }
}

/// The byte sequences of a list of strings.
pub open spec fn bytes_of(parts: Seq<&str>) -> Seq<Seq<u8>> {
    Seq::new(parts.len(), |i: int| parts[i].spec_bytes())
}

/// In well-formed UTF-8 an ASCII byte is a character of its own: a
/// character starts at it and the next one right after it.
pub proof fn lemma_boundary_after_ascii(bytes: Seq<u8>, i: int)
    requires
        valid_utf8(bytes),
        0 <= i < bytes.len(),
        bytes[i] <= 0x7f,
    ensures
        is_char_boundary(bytes, i),
        is_char_boundary(bytes, i + 1),
{
    is_char_boundary_iff_not_is_continuation_byte(bytes, i);
    if i + 1 == bytes.len() {
        is_char_boundary_start_end_of_seq(bytes);
    } else {
        valid_utf8_split(bytes, i);
        let tail = bytes.subrange(i, bytes.len() as int);
        let rest = pop_first_scalar(tail);
        assert(valid_utf8(rest));
        is_char_boundary_iff_not_is_continuation_byte(bytes, i + 1);
    }
}

/// The bytes of two strings, one after the other, are the bytes of the
/// strings put together.
pub proof fn lemma_bytes_of_concat(a: Seq<char>, b: Seq<char>)
    ensures
        encode_utf8(a + b) == encode_utf8(a) + encode_utf8(b),
    decreases a.len(),
{
    if a.len() > 0 {
        assert((a + b).drop_first() =~= a.drop_first() + b);
        lemma_bytes_of_concat(a.drop_first(), b);
    }
}

/// Two strings with the same bytes are the same string.
pub proof fn lemma_same_bytes_same_chars(a: Seq<char>, b: Seq<char>)
    requires
        encode_utf8(a) == encode_utf8(b),
    ensures
        a == b,
{
    encode_utf8_decode_utf8(a);
    encode_utf8_decode_utf8(b);
}

/// Compares two strings.
pub fn str_eq(a: &str, b: &str) -> (same: bool)
    ensures
        same == (a.spec_bytes() == b.spec_bytes()),
        same == (a@ == b@),
{
    proof {
        if a.spec_bytes() == b.spec_bytes() {
            lemma_same_bytes_same_chars(a@, b@);
        }
    }
    bytes_eq(a.as_bytes(), b.as_bytes())
}

/// Tells whether `token` is among `items`.
pub fn listed(items: &[&str], token: &str) -> (found: bool)
    ensures
        found == bytes_of(items@).contains(token.spec_bytes()),
{
    let mut i: usize = 0;
    while i < items.len()
        invariant
            i <= items.len(),
            forall|k: int| 0 <= k < i ==> bytes_of(items@)[k] != token.spec_bytes(),
        decreases items.len() - i,
    {
        if str_eq(items[i], token) {
            assert(bytes_of(items@)[i as int] == token.spec_bytes());
            return true;
        }
        i += 1;
    }
    false
}

/// Compares two byte strings.
pub fn bytes_eq(a: &[u8], b: &[u8]) -> (same: bool)
    ensures
        same == (a@ == b@),
{
    if a.len() != b.len() {
        return false;
    }
    let mut i: usize = 0;
    while i < a.len()
        invariant
            a.len() == b.len(),
            i <= a.len(),
            forall|k: int| 0 <= k < i ==> a@[k] == b@[k],
        decreases a.len() - i,
    {
        if a[i] != b[i] {
            return false;
        }
        i += 1;
    }
    assert(a@ =~= b@);
    true
}

/// Tells whether `needle` occurs in `hay` at offset `at`.
pub fn matches_at(hay: &[u8], needle: &[u8], at: usize) -> (found: bool)
    ensures
        found == occurs_at(hay@, needle@, at as int),
{
    if needle.len() > hay.len() || at > hay.len() - needle.len() {
        return false;
    }
    bytes_eq(slice_subrange(hay, at, at + needle.len()), needle)
}

/// Tells whether `hay` begins with `needle`.
pub fn has_prefix(hay: &[u8], needle: &[u8]) -> (found: bool)
    ensures
        found == starts_with(hay@, needle@),
{
    matches_at(hay, needle, 0)
}

/// Finds the leftmost occurrence of `needle` in `hay`.
pub fn find(hay: &[u8], needle: &[u8]) -> (found: Option<usize>)
    ensures
        match found {
            Some(at) => is_first_occurrence(hay@, needle@, at as int) && at
                == first_occurrence(hay@, needle@),
            None => !contains(hay@, needle@),
        },
{
    if needle.len() > hay.len() {
        return None;
    }
    let last: usize = hay.len() - needle.len();
    let mut at: usize = 0;
    loop
        invariant
            last == hay.len() - needle.len(),
            at <= last,
            forall|j: int| 0 <= j < at ==> !occurs_at(hay@, needle@, j),
        decreases last - at,
    {
        if matches_at(hay, needle, at) {
            proof {
                lemma_first_occurrence_unique(hay@, needle@, at as int);
            }
            return Some(at);
        }
        if at == last {
            return None;
        }
        at += 1;
    }
}

} // verus!
