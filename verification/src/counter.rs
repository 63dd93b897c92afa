//! A source of items that are handed out one at a time, and a counter that
//! is one.

use vstd::prelude::*;

verus! {

/// A source of items, handed out one at a time until it runs dry.
pub trait Iterator: Sized {
    /// What the source hands out.
    type Item;

    /// The item that the next call yields, if the source has one left.
    spec fn upcoming(&self) -> Option<Self::Item>;

    /// The source as the next call leaves it.
    spec fn advanced(&self) -> Self;

    /// Hands out the next item, or `None` once the source is dry.
    fn next(&mut self) -> (item: Option<Self::Item>)
        ensures
            item == old(self).upcoming(),
            *final(self) == old(self).advanced(),
    ;
}

/// Counts upwards from `count` and stops before `max`.
pub struct Counter {
    pub count: u32,
    pub max: u32,
}

impl Counter {
    /// How many items the counter has yet to hand out.
    pub open spec fn remaining(&self) -> nat {
        if self.count < self.max {
            (self.max - self.count) as nat
        } else {
            0
        }
    }
}

impl Iterator for Counter {
    type Item = u32;

    open spec fn upcoming(&self) -> Option<u32> {
        if self.count < self.max {
            Some(self.count)
        } else {
            None
        }
    }

    open spec fn advanced(&self) -> Counter {
        if self.count < self.max {
            Counter { count: (self.count + 1) as u32, max: self.max }
        } else {
            *self
        }
    }

    fn next(&mut self) -> (item: Option<u32>) {
        if self.count < self.max {
            let current = self.count;
            self.count += 1;
            Some(current)
        } else {
            None
        }
    }
}

/// Each item handed out leaves one fewer to come, and a dry counter stays
/// as it is.
pub proof fn law_counter_runs_down(counter: Counter)
    ensures
        counter.upcoming() is Some ==> counter.advanced().remaining() + 1 == counter.remaining(),
        counter.upcoming() is None <==> counter.remaining() == 0,
        counter.upcoming() is None ==> counter.advanced() == counter,
{
}

} // verus!
