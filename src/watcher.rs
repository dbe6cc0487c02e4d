//! The sentinel watcher: accumulates output and reports, exactly once, the
//! moment the accumulated text first contains the completion marker.
use vstd::prelude::*;

use crate::text::{
    concat, contains, find_from, first_occurrence, lemma_concat_take_step,
    lemma_contains_prefix_monotone, lemma_occurs_in_prefix, occurs_at,
};

verus! {

/// Watches a stream of fragments for a fixed, case-sensitive marker.
pub struct SentinelWatcher {
    sentinel: Vec<u8>,
    seen: Vec<u8>,
    found: bool,
}

/// The watcher has reported once it has consumed `i > 0` fragments whose
/// concatenation contains the marker.
pub open spec fn found_after(frags: Seq<Seq<u8>>, marker: Seq<u8>, i: int) -> bool {
    i > 0 && contains(concat(frags.take(i)), marker)
}

/// Fragment `i` is the one on which the watcher reports.
pub open spec fn reported_at(frags: Seq<Seq<u8>>, marker: Seq<u8>, i: int) -> bool {
    !found_after(frags, marker, i) && found_after(frags, marker, i + 1)
}

/// What one call of `feed` does, stated over the watcher's model.
pub open spec fn feed_post(
    pre: SentinelWatcher,
    fragment: Seq<u8>,
    post: SentinelWatcher,
    r: Option<usize>,
) -> bool {
    &&& post.wf()
    &&& post.sentinel() == pre.sentinel()
    &&& post.seen() == if pre.found() {
        pre.seen()
    } else {
        pre.seen() + fragment
    }
    &&& post.found() == (pre.found() || contains(pre.seen() + fragment, pre.sentinel()))
    &&& (r is Some <==> (!pre.found() && contains(pre.seen() + fragment, pre.sentinel())))
    &&& (r matches Some(p) ==> first_occurrence(post.seen(), post.sentinel(), p as int))
}

/// The watcher has consumed the first `i` of `frags`, looking for `marker`.
pub open spec fn watching(w: SentinelWatcher, frags: Seq<Seq<u8>>, marker: Seq<u8>, i: int) -> bool {
    &&& w.wf()
    &&& w.sentinel() == marker
    &&& w.found() == found_after(frags, marker, i)
    &&& (!w.found() ==> w.seen() == concat(frags.take(i)))
}

impl SentinelWatcher {
    /// The marker looked for.
    pub closed spec fn sentinel(&self) -> Seq<u8> {
        self.sentinel@
    }

    /// Everything consumed up to and including the fragment that completed the marker.
    pub closed spec fn seen(&self) -> Seq<u8> {
        self.seen@
    }

    /// Whether completion has been reported.
    pub closed spec fn found(&self) -> bool {
        self.found
    }

    pub closed spec fn wf(&self) -> bool {
        &&& self.found ==> contains(self.seen@, self.sentinel@)
        &&& !self.found ==> (self.seen@.len() == 0 || !contains(self.seen@, self.sentinel@))
    }

    /// A watcher that has seen nothing yet.
    pub fn new(sentinel: Vec<u8>) -> (w: SentinelWatcher)
        ensures
            w.wf(),
            w.sentinel() == sentinel@,
            w.seen() == Seq::<u8>::empty(),
            !w.found(),
    {
        SentinelWatcher { sentinel, seen: Vec::new(), found: false }
    }

    /// Whether completion has been reported.
    pub fn is_found(&self) -> (r: bool)
        ensures
            r == self.found(),
    {
        self.found
    }

    /// The text consumed so far.
    pub fn seen_bytes(&self) -> (r: &Vec<u8>)
        ensures
            r@ == self.seen(),
    {
        &self.seen
    }

    /// Consumes the next fragment. Returns the position of the marker in the
    /// accumulated text on the one call after which that text first contains
    /// it; `None` on every other call. Once the marker is found the watcher
    /// takes in nothing more.
    pub fn feed(&mut self, fragment: &[u8]) -> (r: Option<usize>)
        requires
            old(self).wf(),
            old(self).seen().len() + fragment@.len() <= usize::MAX,
        ensures
            feed_post(*old(self), fragment@, *final(self), r),
    {
        if self.found {
            return None;
        }
        let ghost pre = self.seen@;
        let old_len = self.seen.len();
        let n = self.sentinel.len();
        let mut i: usize = 0;
        while i < fragment.len()
            invariant
                i <= fragment@.len(),
                self.seen@ == pre + fragment@.subrange(0, i as int),
                self.sentinel@ == old(self).sentinel@,
                self.sentinel@.len() == n,
                !self.found,
                !old(self).found,
                pre == old(self).seen@,
                pre.len() == old_len,
                old_len + fragment@.len() <= usize::MAX,
            decreases fragment@.len() - i,
        {
            self.seen.push(fragment[i]);
            i += 1;
            assert(self.seen@ =~= pre + fragment@.subrange(0, i as int));
        }
        assert(fragment@.subrange(0, fragment@.len() as int) =~= fragment@);
        let ghost all = self.seen@;
        let ghost marker = self.sentinel@;
        let start: usize = if n > 0 && old_len >= n {
            old_len - (n - 1)
        } else {
            0
        };
        proof {
            // An occurrence that starts before `start` would lie wholly in what
            // had been seen already, where none was.
            assert forall|q: int| 0 <= q < start implies !occurs_at(all, marker, q) by {
                if q + n <= old_len {
                    lemma_occurs_in_prefix(pre, fragment@, marker, q);
                }
            }
        }
        let r = find_from(self.seen.as_slice(), self.sentinel.as_slice(), start);
        if r.is_some() {
            self.found = true;
        } else if n == 0 {
            assert(all.subrange(0, 0) =~= marker);
            assert(occurs_at(all, marker, 0));
        }
        r
    }
}

/// For any chunking of a stream whose concatenation contains the marker,
/// there is exactly one fragment on which the watcher reports, and it is the
/// fragment whose consumption makes the accumulated text first contain the
/// marker.
pub proof fn lemma_reported_exactly_once(frags: Seq<Seq<u8>>, marker: Seq<u8>) -> (k: int)
    requires
        frags.len() > 0,
        contains(concat(frags), marker),
    ensures
        0 <= k < frags.len(),
        reported_at(frags, marker, k),
        contains(concat(frags.take(k + 1)), marker),
        forall|i: int| 0 <= i < frags.len() && reported_at(frags, marker, i) ==> i == k,
{
    assert(frags.take(frags.len() as int) =~= frags);
    let m = lemma_least_found(frags, marker, frags.len() as int);
    assert forall|i: int| 0 <= i < frags.len() && reported_at(frags, marker, i) implies i == m - 1 by {
        if i + 1 < m {
            assert(!found_after(frags, marker, i + 1));
        } else if i >= m {
            lemma_contains_prefix_monotone(frags, marker, m, i);
        }
    }
    if m > 1 {
        assert(!found_after(frags, marker, m - 1));
    }
    m - 1
}

/// The least number of fragments after which the watcher has reported.
proof fn lemma_least_found(frags: Seq<Seq<u8>>, marker: Seq<u8>, n: int) -> (m: int)
    requires
        1 <= n <= frags.len(),
        found_after(frags, marker, n),
    ensures
        1 <= m <= n,
        found_after(frags, marker, m),
        forall|j: int| 1 <= j < m ==> !#[trigger] found_after(frags, marker, j),
    decreases n,
{
    if n > 1 && found_after(frags, marker, n - 1) {
        lemma_least_found(frags, marker, n - 1)
    } else {
        assert forall|j: int| 1 <= j < n implies !#[trigger] found_after(frags, marker, j) by {
            if found_after(frags, marker, j) {
                lemma_contains_prefix_monotone(frags, marker, j, n - 1);
            }
        }
        n
    }
}

/// One call of `feed` on fragment `i` keeps the watcher in step with the
/// fragments, and it reports on exactly the fragment of `reported_at`.
pub proof fn lemma_feed_in_step(
    pre: SentinelWatcher,
    post: SentinelWatcher,
    frags: Seq<Seq<u8>>,
    marker: Seq<u8>,
    i: int,
    r: Option<usize>,
)
    requires
        0 <= i < frags.len(),
        watching(pre, frags, marker, i),
        feed_post(pre, frags[i], post, r),
    ensures
        watching(post, frags, marker, i + 1),
        r is Some <==> reported_at(frags, marker, i),
{
    lemma_concat_take_step(frags, i);
    if pre.found() {
        lemma_contains_prefix_monotone(frags, marker, i, i + 1);
    }
}

} // verus!
