//! Small vocabulary for statements about texts.

use vstd::prelude::*;

verus! {

/// `needle` occurs in `hay` as a contiguous run of characters.
pub open spec fn occurs_in(needle: Seq<char>, hay: Seq<char>) -> bool {
    exists|at: int| occurs_at(needle, hay, at)
}

/// `needle` occurs in `hay` starting at position `at`.
pub open spec fn occurs_at(needle: Seq<char>, hay: Seq<char>, at: int) -> bool {
    &&& 0 <= at
    &&& at + needle.len() <= hay.len()
    &&& hay.subrange(at, at + needle.len()) == needle
}

/// `hay` begins with `prefix`.
pub open spec fn starts_with(hay: Seq<char>, prefix: Seq<char>) -> bool {
    occurs_at(prefix, hay, 0)
}

/// A text occurs in any text built by putting something before and after it.
pub proof fn lemma_occurs_between(before: Seq<char>, needle: Seq<char>, after: Seq<char>)
    ensures
        occurs_in(needle, before + needle + after),
{
    let hay = before + needle + after;
    let at = before.len() as int;
    assert(hay.subrange(at, at + needle.len()) =~= needle);
    assert(occurs_at(needle, hay, at));
}

} // verus!
