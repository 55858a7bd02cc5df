//! Joining pieces of source text.

use vstd::prelude::*;

verus! {

/// The pieces in order, with `sep` between neighbours.
pub open spec fn join(parts: Seq<Seq<char>>, sep: Seq<char>) -> Seq<char>
    decreases parts.len(),
{
    if parts.len() == 0 {
        Seq::empty()
    } else if parts.len() == 1 {
        parts[0]
    } else {
        join(parts.drop_last(), sep) + sep + parts.last()
    }
}

/// `needle` occurs in `hay` as a contiguous run of characters.
pub open spec fn occurs_in(needle: Seq<char>, hay: Seq<char>) -> bool {
    exists|at: int|
        0 <= at && at + needle.len() <= hay.len() && #[trigger] hay.subrange(
            at,
            at + needle.len(),
        ) == needle
}

/// Every piece occurs in the joined text.
pub proof fn lemma_join_holds_each(parts: Seq<Seq<char>>, sep: Seq<char>, i: int)
    requires
        0 <= i < parts.len(),
    ensures
        occurs_in(parts[i], join(parts, sep)),
    decreases parts.len(),
{
    let whole = join(parts, sep);
    if parts.len() == 1 {
        assert(whole.subrange(0, 0 + parts[i].len() as int) == parts[i]);
    } else {
        let head = join(parts.drop_last(), sep);
        if i == parts.len() - 1 {
            let at = (head.len() + sep.len()) as int;
            assert(whole.subrange(at, at + parts[i].len()) == parts[i]);
        } else {
            lemma_join_holds_each(parts.drop_last(), sep, i);
            let at = choose|at: int|
                0 <= at && at + parts[i].len() <= head.len() && #[trigger] head.subrange(
                    at,
                    at + parts[i].len(),
                ) == parts[i];
            assert(whole.subrange(at, at + parts[i].len()) == head.subrange(
                at,
                at + parts[i].len(),
            ));
        }
    }
}

/// A text occurs in itself.
pub proof fn lemma_occurs_in_itself(text: Seq<char>)
    ensures
        occurs_in(text, text),
{
    assert(text.subrange(0, 0 + text.len() as int) == text);
}

/// What occurs in a text occurs in it behind any other text.
pub proof fn lemma_occurs_behind(needle: Seq<char>, front: Seq<char>, hay: Seq<char>)
    requires
        occurs_in(needle, hay),
    ensures
        occurs_in(needle, front + hay),
{
    let at = choose|at: int|
        0 <= at && at + needle.len() <= hay.len() && #[trigger] hay.subrange(
            at,
            at + needle.len(),
        ) == needle;
    let whole = front + hay;
    let there = front.len() + at;
    assert(whole.subrange(there, there + needle.len()) == hay.subrange(at, at + needle.len()));
}

/// What occurs in a text occurs in it before any other text.
pub proof fn lemma_occurs_before(needle: Seq<char>, hay: Seq<char>, back: Seq<char>)
    requires
        occurs_in(needle, hay),
    ensures
        occurs_in(needle, hay + back),
{
    let at = choose|at: int|
        0 <= at && at + needle.len() <= hay.len() && #[trigger] hay.subrange(
            at,
            at + needle.len(),
        ) == needle;
    let whole = hay + back;
    assert(whole.subrange(at, at + needle.len()) == hay.subrange(at, at + needle.len()));
}

} // verus!
