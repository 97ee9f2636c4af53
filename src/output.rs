//! An in-memory destination for the text that workflows print.
use vstd::prelude::*;

verus! {

/// Collects written text in memory, so that what a workflow prints can be inspected.
pub struct OutputStream {
    written: String,
}

impl View for OutputStream {
    type V = Seq<char>;

    closed spec fn view(&self) -> Seq<char> {
        self.written@
    }
}

impl OutputStream {
    /// An empty stream backed by memory.
    pub fn new_vec() -> (r: OutputStream)
        ensures
            r@ == Seq::<char>::empty(),
    {
        OutputStream { written: String::new() }
    }

    /// Everything written so far.
    pub fn as_str(&self) -> (r: &str)
        ensures
            r@ == self@,
    {
        self.written.as_str()
    }

    /// Appends `s` to what was written.
    pub fn write_str(&mut self, s: &str)
        ensures
            final(self)@ == old(self)@ + s@,
    {
        self.written.append(s);
    }

    /// Nothing is buffered, so flushing changes nothing.
    pub fn flush(&mut self)
        ensures
            final(self)@ == old(self)@,
    {
    }
}

} // verus!
