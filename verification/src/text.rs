//! Text primitives: trimming, splitting at a delimiter and comparison of
//! string slices, with their meaning stated over sequences of characters.

use vstd::prelude::*;

verus! {

/// Whether `c` counts as white space when a string is trimmed: the Unicode
/// property `White_Space`, as `str::trim` applies it. The table itself is
/// std's; nothing here depends on which characters it holds.
pub uninterp spec fn white_space(c: char) -> bool;

/// `s` without its leading white space.
pub open spec fn trim_start(s: Seq<char>) -> Seq<char>
    decreases s.len(),
{
    if s.len() > 0 && white_space(s.first()) {
        trim_start(s.drop_first())
    } else {
        s
    }
}

/// `s` without its trailing white space.
pub open spec fn trim_end(s: Seq<char>) -> Seq<char>
    decreases s.len(),
{
    if s.len() > 0 && white_space(s.last()) {
        trim_end(s.drop_last())
    } else {
        s
    }
}

/// `s` without leading and trailing white space.
pub open spec fn trimmed(s: Seq<char>) -> Seq<char> {
    trim_end(trim_start(s))
}

/// The number of characters of `s` that stand before its first `delimiter`,
/// or the length of `s` where it holds none.
pub open spec fn prefix_len(s: Seq<char>, delimiter: char) -> nat
    decreases s.len(),
{
    if s.len() == 0 || s.first() == delimiter {
        0
    } else {
        1 + prefix_len(s.drop_first(), delimiter)
    }
}

/// `str::trim`: the slice of `s` that is left when leading and trailing
/// white space is removed, so that what is left neither starts nor ends with
/// white space. Not proved: the contract restates std's documentation over
/// `white_space`.
#[verifier::external_body]
pub(crate) fn trim(s: &str) -> (r: &str)
    ensures
        r@ == trimmed(s@),
        r@.len() > 0 ==> !white_space(r@.first()) && !white_space(r@.last()),
{
    s.trim()
}

/// `str::split_once` with a character as the delimiter: the parts before and
/// after the first occurrence of `delimiter`, or `None` where `s` holds none.
/// Not proved: the contract restates std's documentation.
#[verifier::external_body]
pub(crate) fn split_once(s: &str, delimiter: char) -> (r: Option<(&str, &str)>)
    ensures
        match r {
            Some((head, tail)) => !head@.contains(delimiter) && s@ == head@ + seq![delimiter]
                + tail@,
            None => !s@.contains(delimiter),
        },
{
    s.split_once(delimiter)
}

/// `==` on string slices: they are equal exactly when they hold the same
/// characters. Not proved: the contract restates std's documentation.
#[verifier::external_body]
pub(crate) fn same_text(a: &str, b: &str) -> (r: bool)
    ensures
        r == (a@ == b@),
{
    a == b
}

/// A sequence free of `delimiter` is its own prefix.
pub proof fn lemma_prefix_len_without(s: Seq<char>, delimiter: char)
    requires
        !s.contains(delimiter),
    ensures
        prefix_len(s, delimiter) == s.len(),
    decreases s.len(),
{
    if s.len() > 0 {
        assert forall|c: char| s.drop_first().contains(c) implies s.contains(c) by {
            let i = choose|i: int| 0 <= i < s.drop_first().len() && s.drop_first()[i] == c;
            assert(s[i + 1] == c);
        }
        lemma_prefix_len_without(s.drop_first(), delimiter);
    }
}

/// The prefix of `head + [delimiter] + tail` is `head` when `head` is free of
/// `delimiter`.
pub proof fn lemma_prefix_len_split(head: Seq<char>, delimiter: char, tail: Seq<char>)
    requires
        !head.contains(delimiter),
    ensures
        prefix_len(head + seq![delimiter] + tail, delimiter) == head.len(),
    decreases head.len(),
{
    let s = head + seq![delimiter] + tail;
    if head.len() > 0 {
        assert forall|c: char| head.drop_first().contains(c) implies head.contains(c) by {
            let i = choose|i: int| 0 <= i < head.drop_first().len() && head.drop_first()[i] == c;
            assert(head[i + 1] == c);
        }
        assert(s.drop_first() =~= head.drop_first() + seq![delimiter] + tail);
        lemma_prefix_len_split(head.drop_first(), delimiter, tail);
    }
}

} // verus!
