//! The boolean stack of the little machine.
//!
//! Popping an empty stack never faults: it yields `false` by convention,
//! so every machine operation is total.

use vstd::prelude::*;

verus! {

/// What one underflow-safe pop does to a stack of booleans: the popped
/// value and the remaining stack.  An empty stack yields `false` and
/// stays empty.
pub open spec fn pop_default(s: Seq<bool>) -> (Seq<bool>, bool) {
    if s.len() == 0 {
        (s, false)
    } else {
        (s.drop_last(), s.last())
    }
}

/// A stack of booleans with underflow-safe popping.
pub struct BoolStack(pub Vec<bool>);

impl View for BoolStack {
    type V = Seq<bool>;

    open spec fn view(&self) -> Seq<bool> {
        self.0@
    }
}

impl BoolStack {
    /// The empty stack.
    pub fn new() -> (s: Self)
        ensures
            s@ == Seq::<bool>::empty(),
    {
        BoolStack(Vec::new())
    }

    /// Pop the top value, or `false` if the stack is empty.
    pub fn pop(&mut self) -> (b: bool)
        ensures
            b == pop_default(old(self)@).1,
            final(self)@ == pop_default(old(self)@).0,
    {
        match self.0.pop() {
            Some(b) => b,
            None => false,
        }
    }

    /// Push a value on top.
    pub fn push(&mut self, b: bool)
        ensures
            final(self)@ == old(self)@.push(b),
    {
        self.0.push(b);
    }
}

} // verus!
