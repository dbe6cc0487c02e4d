//! The output streamer's line buffer: raw reads go in, complete lines come
//! out, and nothing is lost, reordered or split across two lines.
use vstd::prelude::*;

use crate::text::concat;

verus! {

/// The byte that ends a line.
pub const NEWLINE: u8 = 10;

/// `s` holds no line end.
pub open spec fn no_newline(s: Seq<u8>) -> bool {
    forall|i: int| 0 <= i < s.len() ==> s[i] != NEWLINE
}

/// `l` is one complete line: text without a line end, then a line end.
pub open spec fn is_line(l: Seq<u8>) -> bool {
    l.len() > 0 && l.last() == NEWLINE && no_newline(l.drop_last())
}

/// The contents of a sequence of buffers.
pub open spec fn views(v: Seq<Vec<u8>>) -> Seq<Seq<u8>> {
    v.map_values(|l: Vec<u8>| l@)
}

proof fn lemma_concat_push(lines: Seq<Vec<u8>>, l: Vec<u8>)
    ensures
        concat(views(lines.push(l))) == concat(views(lines)) + l@,
{
    assert(views(lines.push(l)) =~= views(lines).push(l@));
    assert(views(lines).push(l@).drop_last() =~= views(lines));
}

/// Holds the tail of the stream that does not yet end in a line end.
pub struct LineBuffer {
    pending: Vec<u8>,
}

impl LineBuffer {
    /// The bytes received after the last line end.
    pub closed spec fn pending(&self) -> Seq<u8> {
        self.pending@
    }

    pub open spec fn wf(&self) -> bool {
        no_newline(self.pending())
    }

    /// An empty buffer.
    pub fn new() -> (b: LineBuffer)
        ensures
            b.wf(),
            b.pending() == Seq::<u8>::empty(),
    {
        LineBuffer { pending: Vec::new() }
    }

    /// Takes in the bytes of one read and returns the lines they complete, in
    /// order. The lines returned, followed by what stays buffered, are exactly
    /// what was buffered before followed by `bytes`.
    pub fn push(&mut self, bytes: &[u8]) -> (lines: Vec<Vec<u8>>)
        requires
            old(self).wf(),
        ensures
            final(self).wf(),
            concat(views(lines@)) + final(self).pending() == old(self).pending() + bytes@,
            forall|i: int| 0 <= i < lines@.len() ==> is_line(#[trigger] lines@[i]@),
    {
        let mut cur: Vec<u8> = Vec::new();
        std::mem::swap(&mut cur, &mut self.pending);
        let mut lines: Vec<Vec<u8>> = Vec::new();
        let mut i: usize = 0;
        proof {
            assert(concat(views(lines@)) =~= Seq::<u8>::empty());
            assert(bytes@.subrange(0, 0) =~= Seq::<u8>::empty());
            assert(old(self).pending() + bytes@.subrange(0, 0) =~= cur@);
        }
        while i < bytes.len()
            invariant
                i <= bytes@.len(),
                no_newline(cur@),
                concat(views(lines@)) + cur@ == old(self).pending() + bytes@.subrange(0, i as int),
                forall|k: int| 0 <= k < lines@.len() ==> is_line(#[trigger] lines@[k]@),
            decreases bytes@.len() - i,
        {
            let b = bytes[i];
            let ghost before = cur@;
            cur.push(b);
            proof {
                assert(bytes@.subrange(0, i + 1) =~= bytes@.subrange(0, i as int).push(b));
                assert(cur@.drop_last() =~= before);
                let acc = concat(views(lines@));
                let seen = old(self).pending() + bytes@.subrange(0, i as int);
                assert(acc + before == seen);
                assert(acc + cur@ =~= (acc + before).push(b));
                assert(seen.push(b) =~= old(self).pending() + bytes@.subrange(0, i + 1));
            }
            if b == NEWLINE {
                let ghost done = lines@;
                let mut line: Vec<u8> = Vec::new();
                std::mem::swap(&mut line, &mut cur);
                lines.push(line);
                proof {
                    lemma_concat_push(done, line);
                    assert(lines@ == done.push(line));
                    assert(cur@ =~= Seq::<u8>::empty());
                    assert(concat(views(lines@)) + cur@ =~= concat(views(done)) + line@);
                }
            }
            i += 1;
        }
        self.pending = cur;
        proof {
            assert(bytes@.subrange(0, bytes@.len() as int) =~= bytes@);
        }
        lines
    }

    /// Ends the stream: hands out what is buffered as a final line, if any,
    /// and leaves the buffer empty.
    pub fn finish(&mut self) -> (last: Option<Vec<u8>>)
        requires
            old(self).wf(),
        ensures
            final(self).wf(),
            final(self).pending() == Seq::<u8>::empty(),
            match last {
                Some(l) => old(self).pending().len() > 0 && l@ == old(self).pending(),
                None => old(self).pending().len() == 0,
            },
    {
        let mut rest: Vec<u8> = Vec::new();
        std::mem::swap(&mut rest, &mut self.pending);
        if rest.len() == 0 {
            None
        } else {
            Some(rest)
        }
    }
}

} // verus!
