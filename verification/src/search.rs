//! Finding one character sequence inside another.

use vstd::prelude::*;

verus! {

/// `needle` stands in `hay` at index `at`.
pub open spec fn occurs_at(hay: Seq<char>, needle: Seq<char>, at: int) -> bool {
    &&& 0 <= at
    &&& at + needle.len() <= hay.len()
    &&& hay.subrange(at, at + needle.len()) == needle
}

/// `at` is the least index from `from` on at which `needle` stands in `hay`.
pub open spec fn is_first_occurrence(
    hay: Seq<char>,
    needle: Seq<char>,
    from: int,
    at: int,
) -> bool {
    &&& from <= at
    &&& occurs_at(hay, needle, at)
    &&& forall|k: int| from <= k < at ==> !occurs_at(hay, needle, k)
}

/// The least index from `from` on at which `needle` stands in `hay`, if it
/// stands there at all.
pub open spec fn first_occurrence(hay: Seq<char>, needle: Seq<char>, from: int) -> Option<int> {
    if exists|at: int| is_first_occurrence(hay, needle, from, at) {
        Some(choose|at: int| is_first_occurrence(hay, needle, from, at))
    } else {
        None
    }
}

/// A least index is the only one: it is what [`first_occurrence`] gives.
pub proof fn lemma_first_occurrence_is(hay: Seq<char>, needle: Seq<char>, from: int, at: int)
    requires
        is_first_occurrence(hay, needle, from, at),
    ensures
        first_occurrence(hay, needle, from) == Some(at),
{
    let chosen = choose|i: int| is_first_occurrence(hay, needle, from, i);
    assert(is_first_occurrence(hay, needle, from, chosen));
    if chosen < at {
        assert(!occurs_at(hay, needle, chosen));
    } else if at < chosen {
        assert(!occurs_at(hay, needle, at));
    }
}

/// Where `needle` stands somewhere from `from` on, it stands somewhere first.
pub proof fn lemma_some_occurrence_has_first(hay: Seq<char>, needle: Seq<char>, from: int, at: int)
    requires
        from <= at,
        occurs_at(hay, needle, at),
    ensures
        first_occurrence(hay, needle, from).is_some(),
    decreases at - from,
{
    if exists|k: int| from <= k < at && occurs_at(hay, needle, k) {
        let k = choose|k: int| from <= k < at && occurs_at(hay, needle, k);
        lemma_some_occurrence_has_first(hay, needle, from, k);
    } else {
        assert(is_first_occurrence(hay, needle, from, at));
    }
}

/// What [`first_occurrence`] says of every index: `Some(at)` is a least
/// index, and `None` means that `needle` stands nowhere from `from` on.
pub proof fn lemma_first_occurrence(hay: Seq<char>, needle: Seq<char>, from: int)
    ensures
        match first_occurrence(hay, needle, from) {
            Some(at) => is_first_occurrence(hay, needle, from, at),
            None => forall|k: int| from <= k ==> !occurs_at(hay, needle, k),
        },
{
    if first_occurrence(hay, needle, from).is_none() {
        assert forall|k: int| from <= k implies !occurs_at(hay, needle, k) by {
            if occurs_at(hay, needle, k) {
                lemma_some_occurrence_has_first(hay, needle, from, k);
            }
        }
    }
}

/// Whether `needle` stands in `hay` at index `at`.
pub fn matches_at(hay: &Vec<char>, needle: &Vec<char>, at: usize) -> (found: bool)
    ensures
        found == occurs_at(hay@, needle@, at as int),
{
    if needle.len() > hay.len() || at > hay.len() - needle.len() {
        return false;
    }
    let mut i: usize = 0;
    while i < needle.len()
        invariant
            i <= needle.len(),
            at + needle.len() <= hay.len(),
            forall|j: int| 0 <= j < i ==> hay@[at + j] == needle@[j],
        decreases needle.len() - i,
    {
        if hay[at + i] != needle[i] {
            assert(hay@.subrange(at as int, at + needle.len())[i as int] == hay@[at + i]);
            return false;
        }
        i += 1;
    }
    assert(hay@.subrange(at as int, at + needle.len()) =~= needle@);
    true
}

/// The least index from `from` on at which `needle` stands in `hay`.
pub fn find_from(hay: &Vec<char>, needle: &Vec<char>, from: usize) -> (found: Option<usize>)
    ensures
        match found {
            Some(at) => first_occurrence(hay@, needle@, from as int) == Some(at as int),
            None => first_occurrence(hay@, needle@, from as int).is_none(),
        },
{
    if needle.len() > hay.len() || from > hay.len() - needle.len() {
        proof {
            lemma_first_occurrence(hay@, needle@, from as int);
        }
        return None;
    }
    let last: usize = hay.len() - needle.len();
    let mut at: usize = from;
    loop
        invariant
            from <= at <= last,
            last == hay.len() - needle.len(),
            forall|k: int| from <= k < at ==> !occurs_at(hay@, needle@, k),
        decreases last - at,
    {
        if matches_at(hay, needle, at) {
            proof {
                lemma_first_occurrence_is(hay@, needle@, from as int, at as int);
            }
            return Some(at);
        }
        if at == last {
            proof {
                lemma_first_occurrence(hay@, needle@, from as int);
            }
            return None;
        }
        at += 1;
    }
}

} // verus!
