//! A counter, as an example of a state that an actor can own.

use vstd::prelude::*;

verus! {

pub trait Inc {
    /// Whether one more can be counted.
    spec fn can_inc(&self) -> bool;

    fn inc(&mut self)
        requires
            old(self).can_inc(),
    ;
}

pub trait Dec {
    /// Whether one less can be counted.
    spec fn can_dec(&self) -> bool;

    fn dec(&mut self)
        requires
            old(self).can_dec(),
    ;
}

pub trait Get {
    fn get(&self) -> u32;
}

pub struct Counter {
    counter: u32,
}

impl View for Counter {
    type V = u32;

    closed spec fn view(&self) -> u32 {
        self.counter
    }
}

impl Counter {
    pub fn new(counter: u32) -> (c: Counter)
        ensures
            c@ == counter,
    {
        Counter { counter }
    }

    pub fn foo() {
    }
}

impl Inc for Counter {
    open spec fn can_inc(&self) -> bool {
        self@ < u32::MAX
    }

    fn inc(&mut self)
        ensures
            final(self)@ == old(self)@ + 1,
    {
        self.counter += 1;
    }
}

impl Dec for Counter {
    open spec fn can_dec(&self) -> bool {
        self@ > 0
    }

    fn dec(&mut self)
        ensures
            final(self)@ == old(self)@ - 1,
    {
        self.counter -= 1;
    }
}

impl Get for Counter {
    fn get(&self) -> (value: u32)
        ensures
            value == self@,
    {
        self.counter
    }
}

} // verus!
