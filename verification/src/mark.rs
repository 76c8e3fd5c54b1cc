//! The firewall mark (`SO_MARK`) that the proxy puts on the sockets it opens
//! towards the outside, so that the packets it sends are not intercepted again.

use vstd::prelude::*;

verus! {

/// Holds the current mark. A fresh one holds 0.
pub struct Mark {
    value: u32,
}

impl View for Mark {
    type V = u32;

    closed spec fn view(&self) -> u32 {
        self.value
    }
}

impl Mark {
    /// A holder of the mark 0.
    pub fn new() -> (m: Mark)
        ensures
            m@ == 0,
    {
        Mark { value: 0 }
    }

    /// The holder after a write of `val`: it holds `val`, whatever it held before.
    pub open spec fn written(self, val: u32) -> Mark {
        Mark::with_value(val)
    }

    /// The holder that holds `val`.
    pub closed spec fn with_value(val: u32) -> Mark {
        Mark { value: val }
    }
}

/// Stores `val` as the mark.
pub fn set_mark(mark: &mut Mark, val: u32)
    ensures
        *final(mark) == old(mark).written(val),
        final(mark)@ == val,
{
    mark.value = val;
}

/// The mark last stored, 0 if none was.
pub fn get_mark(mark: &Mark) -> (r: u32)
    ensures
        r == mark@,
{
    mark.value
}

/// A read gives back the last value written, and a write does not depend on
/// what was held before it.
pub proof fn lemma_read_after_write(before: Mark, other: Mark, val: u32)
    ensures
        before.written(val)@ == val,
        before.written(val) == other.written(val),
{
}

} // verus!
