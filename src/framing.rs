//! Newline-delimited framing of a streamed response body.
//!
//! The body arrives in pieces that need not end on a line boundary; the
//! framer keeps the unfinished tail of the last piece and hands out each
//! complete line, without its newline, in order.

use vstd::prelude::*;

verus! {

pub const NEWLINE: u8 = 10;

/// The bytes of a sequence of lines, each followed by a newline.
pub open spec fn joined(lines: Seq<Seq<u8>>) -> Seq<u8>
    decreases lines.len(),
{
    if lines.len() == 0 {
        Seq::empty()
    } else {
        joined(lines.drop_last()) + lines.last() + seq![NEWLINE]
    }
}

pub open spec fn no_newline(s: Seq<u8>) -> bool {
    !s.contains(NEWLINE)
}

pub open spec fn views_of(lines: Seq<Vec<u8>>) -> Seq<Seq<u8>> {
    lines.map_values(|l: Vec<u8>| l@)
}

/// Splits a byte stream into lines.
pub struct LineFramer {
    /// The bytes after the last newline seen.
    pub pending: Vec<u8>,
}

impl LineFramer {
    pub open spec fn wf(&self) -> bool {
        no_newline(self.pending@)
    }

    /// A framer that has seen nothing.
    pub fn new() -> (r: LineFramer)
        ensures
            r.wf(),
            r.pending@.len() == 0,
    {
        LineFramer { pending: Vec::new() }
    }

    /// Takes the next piece of the body and returns the lines that it
    /// completes. The lines, each with its newline, followed by what is now
    /// pending, are exactly what was pending before followed by the piece.
    pub fn push(&mut self, piece: &[u8]) -> (lines: Vec<Vec<u8>>)
        requires
            old(self).wf(),
        ensures
            final(self).wf(),
            forall|i: int| 0 <= i < lines@.len() ==> no_newline(#[trigger] lines@[i]@),
            joined(views_of(lines@)) + final(self).pending@ == old(self).pending@ + piece@,
    {
        let mut lines: Vec<Vec<u8>> = Vec::new();
        let mut i: usize = 0;
        while i < piece.len()
            invariant
                i <= piece@.len(),
                no_newline(self.pending@),
                forall|k: int| 0 <= k < lines@.len() ==> no_newline(#[trigger] lines@[k]@),
                joined(views_of(lines@)) + self.pending@ == old(self).pending@ + piece@.subrange(
                    0,
                    i as int,
                ),
            decreases piece@.len() - i,
        {
            let b = piece[i];
            let ghost before = joined(views_of(lines@));
            let ghost pend = self.pending@;
            let ghost prev_lines = lines@;
            if b == NEWLINE {
                let mut line: Vec<u8> = Vec::new();
                std::mem::swap(&mut line, &mut self.pending);
                lines.push(line);
                proof {
                    assert(views_of(lines@).drop_last() =~= views_of(prev_lines));
                    assert(views_of(lines@).last() == pend);
                }
            } else {
                self.pending.push(b);
                proof {
                    if self.pending@.contains(NEWLINE) {
                        let k = choose|k: int| 0 <= k < self.pending@.len() && self.pending@[k] == NEWLINE;
                        assert(k < pend.len() ==> pend[k] == NEWLINE);
                    }
                }
            }
            proof {
                assert(piece@.subrange(0, i + 1) =~= piece@.subrange(0, i as int) + seq![b]);
                assert(joined(views_of(lines@)) + self.pending@ =~= before + pend + seq![b]);
            }
            i = i + 1;
        }
        proof {
            assert(piece@.subrange(0, i as int) =~= piece@);
        }
        lines
    }

    /// Ends the body: returns the unfinished last line, if anything is
    /// pending.
    pub fn finish(self) -> (r: Option<Vec<u8>>)
        ensures
            self.pending@.len() == 0 ==> r.is_none(),
            self.pending@.len() > 0 ==> r.is_some() && r.unwrap()@ == self.pending@,
    {
        if self.pending.len() == 0 {
            None
        } else {
            Some(self.pending)
        }
    }
}

} // verus!
