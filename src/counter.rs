use vstd::prelude::*;

use crate::node::GraphNode;

verus! {

/// A stateful node: each run on `()` adds one to its count and returns the new count.
pub struct Counter {
    pub count: u64,
}

impl Counter {
    /// A counter that has not run yet.
    pub fn new() -> (c: Self)
        ensures
            c.count == 0,
    {
        Counter { count: 0 }
    }
}

impl GraphNode<(), u64> for Counter {
    /// The count must still have room to grow.
    open spec fn accepts(&self, input: ()) -> bool {
        self.count < u64::MAX
    }

    open spec fn yields(&self, input: (), next: Self, output: u64) -> bool {
        &&& next.count == self.count + 1
        &&& output == next.count
    }

    fn run(&mut self, input: ()) -> (output: u64) {
        self.count = self.count + 1;
        self.count
    }
}

} // verus!
