//! A small demo counter, independent of the pipeline: state the surrounding
//! application keeps and mutates through an ordinary increment/decrement API.

use vstd::prelude::*;

verus! {

/// A signed counter starting at zero.
#[derive(Clone, Copy, Debug)]
pub struct Counter {
    value: i32,
}

impl Counter {
    /// The counter's current value.
    pub closed spec fn value_spec(self) -> int {
        self.value as int
    }

    pub fn new() -> (counter: Self)
        ensures
            counter.value_spec() == 0,
    {
        Counter { value: 0 }
    }

    pub fn inc(&mut self)
        requires
            old(self).value_spec() < i32::MAX,
        ensures
            final (self).value_spec() == old(self).value_spec() + 1,
    {
        self.value = self.value + 1;
    }

    pub fn dec(&mut self)
        requires
            old(self).value_spec() > i32::MIN,
        ensures
            final (self).value_spec() == old(self).value_spec() - 1,
    {
        self.value = self.value - 1;
    }

    pub fn reset(&mut self)
        ensures
            final (self).value_spec() == 0,
    {
        self.value = 0;
    }

    /// The current value, for display.
    pub fn get(&self) -> (value: i32)
        ensures
            value == self.value_spec(),
    {
        self.value
    }
}

} // verus!
