//! Mathematical vocabulary for captured output: where a marker occurs in a
//! byte sequence, and the concatenation of a sequence of fragments.
use vstd::prelude::*;

verus! {

/// `marker` occurs in `text` starting at position `p`.
pub open spec fn occurs_at(text: Seq<u8>, marker: Seq<u8>, p: int) -> bool {
    0 <= p && p + marker.len() <= text.len() && text.subrange(p, p + marker.len()) == marker
}

/// `marker` occurs somewhere in `text`.
pub open spec fn contains(text: Seq<u8>, marker: Seq<u8>) -> bool {
    exists|p: int| occurs_at(text, marker, p)
}

/// `p` is the leftmost position at which `marker` occurs in `text`.
pub open spec fn first_occurrence(text: Seq<u8>, marker: Seq<u8>, p: int) -> bool {
    occurs_at(text, marker, p) && forall|q: int| 0 <= q < p ==> !occurs_at(text, marker, q)
}

/// All fragments joined in order.
pub open spec fn concat(frags: Seq<Seq<u8>>) -> Seq<u8>
    decreases frags.len(),
{
    if frags.len() == 0 {
        Seq::empty()
    } else {
        concat(frags.drop_last()) + frags.last()
    }
}

/// Whether `marker` occurs in `text` at position `p`.
pub fn matches_at(text: &[u8], marker: &[u8], p: usize) -> (r: bool)
    requires
        p + marker@.len() <= text@.len(),
    ensures
        r == occurs_at(text@, marker@, p as int),
{
    let n = marker.len();
    let len = text.len();
    let mut j: usize = 0;
    while j < n
        invariant
            n == marker@.len(),
            len == text@.len(),
            p + n <= text@.len(),
            j <= n,
            forall|k: int| 0 <= k < j ==> text@[p + k] == marker@[k],
        decreases n - j,
    {
        if text[p + j] != marker[j] {
            assert(text@.subrange(p as int, p + n)[j as int] != marker@[j as int]);
            return false;
        }
        j += 1;
    }
    assert(text@.subrange(p as int, p + n) =~= marker@);
    true
}

/// The leftmost position at or after `start` where `marker` occurs in
/// `text`, given that it occurs nowhere before `start`.
pub fn find_from(text: &[u8], marker: &[u8], start: usize) -> (r: Option<usize>)
    requires
        forall|q: int| 0 <= q < start ==> !occurs_at(text@, marker@, q),
    ensures
        match r {
            Some(p) => first_occurrence(text@, marker@, p as int),
            None => !contains(text@, marker@),
        },
{
    let n = marker.len();
    let len = text.len();
    let mut p: usize = start;
    while p <= len && len - p >= n
        invariant
            n == marker@.len(),
            len == text@.len(),
            start <= p,
            forall|q: int| 0 <= q < p ==> !occurs_at(text@, marker@, q),
        decreases len + 1 - p,
    {
        if matches_at(text, marker, p) {
            return Some(p);
        }
        if n == 0 {
            assert(text@.subrange(p as int, p as int) =~= marker@);
        }
        p += 1;
    }
    assert forall|q: int| #![trigger occurs_at(text@, marker@, q)] !occurs_at(text@, marker@, q) by {
        if q >= p {
            assert(q + n > len);
        }
    }
    None
}

/// The leftmost position where `marker` occurs in `text`, if it does.
pub fn find(text: &[u8], marker: &[u8]) -> (r: Option<usize>)
    ensures
        match r {
            Some(p) => first_occurrence(text@, marker@, p as int),
            None => !contains(text@, marker@),
        },
{
    find_from(text, marker, 0)
}

/// An occurrence that ends inside `text` is unaffected by what is appended.
pub proof fn lemma_occurs_in_prefix(text: Seq<u8>, more: Seq<u8>, marker: Seq<u8>, p: int)
    requires
        0 <= p,
        p + marker.len() <= text.len(),
    ensures
        occurs_at(text, marker, p) == occurs_at(text + more, marker, p),
{
    assert((text + more).subrange(p, p + marker.len()) =~= text.subrange(p, p + marker.len()));
}

/// Appending never removes an occurrence.
pub proof fn lemma_contains_grows(text: Seq<u8>, more: Seq<u8>, marker: Seq<u8>)
    requires
        contains(text, marker),
    ensures
        contains(text + more, marker),
{
    let p = choose|p: int| occurs_at(text, marker, p);
    lemma_occurs_in_prefix(text, more, marker, p);
}

/// The first `i + 1` fragments join to the first `i` followed by fragment `i`.
pub proof fn lemma_concat_take_step(frags: Seq<Seq<u8>>, i: int)
    requires
        0 <= i < frags.len(),
    ensures
        concat(frags.take(i + 1)) == concat(frags.take(i)) + frags[i],
{
    assert(frags.take(i + 1).drop_last() =~= frags.take(i));
}

/// Containment in a prefix of the fragments carries over to every longer prefix.
pub proof fn lemma_contains_prefix_monotone(
    frags: Seq<Seq<u8>>,
    marker: Seq<u8>,
    i: int,
    j: int,
)
    requires
        0 <= i <= j <= frags.len(),
        contains(concat(frags.take(i)), marker),
    ensures
        contains(concat(frags.take(j)), marker),
    decreases j - i,
{
    if i < j {
        lemma_concat_take_step(frags, i);
        lemma_contains_grows(concat(frags.take(i)), frags[i], marker);
        lemma_contains_prefix_monotone(frags, marker, i + 1, j);
    }
}

} // verus!
