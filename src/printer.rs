//! Sinks that receive the lines of a statement.
use vstd::prelude::*;
use crate::statement::texts;

verus! {

/// Receives printed lines one at a time, in order.
pub trait Printer {
    /// Every line received so far, in the order received.
    spec fn printed(&self) -> Seq<Seq<char>>;

    /// Receives `line`.
    fn print(&mut self, line: &str)
        ensures
            final(self).printed() == old(self).printed().push(line@),
    ;
}

/// A printer that keeps every line it receives.
pub struct RecordingPrinter {
    lines: Vec<String>,
}

impl RecordingPrinter {
    /// A printer that has received nothing.
    pub fn new() -> (r: RecordingPrinter)
        ensures
            r.printed() == Seq::<Seq<char>>::empty(),
    {
        let r = RecordingPrinter { lines: Vec::new() };
        assert(texts(r.lines@) =~= Seq::<Seq<char>>::empty());
        r
    }

    /// The lines received so far, in order.
    pub fn lines(&self) -> (r: &Vec<String>)
        ensures
            texts(r@) == self.printed(),
    {
        &self.lines
    }
}

impl Printer for RecordingPrinter {
    closed spec fn printed(&self) -> Seq<Seq<char>> {
        texts(self.lines@)
    }

    fn print(&mut self, line: &str) {
        let s = String::from_str(line);
        self.lines.push(s);
        assert(texts(self.lines@) =~= texts(old(self).lines@).push(line@));
    }
}

} // verus!
