//! The log book: an append-only record of completed relays and dispatch
//! failures, one line each.
//!
//! This is the ledger behind the log file: lines are only ever appended, in
//! call order, and none is altered or lost. The writer that puts them on
//! disk flushes after each append; failures of that writer are the
//! operator's to see and never the caller's to handle.

use vstd::prelude::*;

verus! {

/// Append-only sequence of log lines, oldest first.
pub struct LogBook {
    lines: Vec<String>,
}

impl View for LogBook {
    type V = Seq<Seq<char>>;

    closed spec fn view(&self) -> Seq<Seq<char>> {
        self.lines@.map(|i: int, l: String| l@)
    }
}

impl LogBook {
    pub fn new() -> (r: LogBook)
        ensures
            r@ == Seq::<Seq<char>>::empty(),
    {
        let book = LogBook { lines: Vec::new() };
        proof {
            assert(book@ =~= Seq::<Seq<char>>::empty());
        }
        book
    }

    pub fn len(&self) -> (n: usize)
        ensures
            n == self@.len(),
    {
        self.lines.len()
    }

    /// Appends one whole line after everything recorded so far.
    pub fn append(&mut self, line: String)
        ensures
            final(self)@ == old(self)@.push(line@),
    {
        let ghost before = self@;
        let ghost text = line@;
        self.lines.push(line);
        proof {
            assert(self@ =~= before.push(text));
        }
    }

    /// A copy of the line at position `i`, oldest line first.
    pub fn line_at(&self, i: usize) -> (r: String)
        requires
            i < self@.len(),
        ensures
            r@ == self@[i as int],
    {
        self.lines[i].clone()
    }
}

} // verus!
