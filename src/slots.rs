use vstd::prelude::*;

verus! {

/// One of the two inputs of an A/B comparison.
#[derive(Clone, Copy, Debug, PartialEq, Eq, Structural)]
pub enum Slot {
    A,
    B,
}

/// Where a decoded curve is delivered: to the batch list, or to one slot of
/// the comparison.
#[derive(Clone, Copy, Debug, PartialEq, Eq, Structural)]
pub enum Delivery {
    Batch,
    Compare(Slot),
}

/// The slot named by a tag character: `'A'` or `'B'`; no other tag names one.
pub open spec fn slot_of_tag(c: char) -> Option<Slot> {
    if c == 'A' {
        Some(Slot::A)
    } else if c == 'B' {
        Some(Slot::B)
    } else {
        None
    }
}

impl Slot {
    pub fn from_tag(c: char) -> (r: Option<Slot>)
        ensures
            r == slot_of_tag(c),
    {
        if c == 'A' {
            Some(Slot::A)
        } else if c == 'B' {
            Some(Slot::B)
        } else {
            None
        }
    }

    pub fn tag(&self) -> (r: char)
        ensures
            r == (if *self == Slot::A { 'A' } else { 'B' }),
            slot_of_tag(r) == Some(*self),
    {
        match self {
            Slot::A => 'A',
            Slot::B => 'B',
        }
    }
}

/// The two inputs of a comparison, each filled independently.
pub struct SlotPair<T> {
    pub a: Option<T>,
    pub b: Option<T>,
}

impl<T> SlotPair<T> {
    pub fn new() -> (r: SlotPair<T>)
        ensures
            r.a is None,
            r.b is None,
    {
        SlotPair { a: None, b: None }
    }

    pub open spec fn ready(self) -> bool {
        self.a is Some && self.b is Some
    }

    /// Stores `value` in `slot`, replacing what it held, and tells whether both
    /// slots are now filled, in which case the comparison is to be run again.
    pub fn fill(&mut self, slot: Slot, value: T) -> (r: bool)
        ensures
            slot == Slot::A ==> final(self).a == Some(value) && final(self).b == old(self).b,
            slot == Slot::B ==> final(self).b == Some(value) && final(self).a == old(self).a,
            r == final(self).ready(),
    {
        match slot {
            Slot::A => self.a = Some(value),
            Slot::B => self.b = Some(value),
        }
        self.a.is_some() && self.b.is_some()
    }
}

} // verus!
