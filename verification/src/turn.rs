//! Turns: a turn number played by one side.  Axis plays first in every turn
//! number, Allies second.
use vstd::prelude::*;
use crate::save::Side;
use core::cmp::Ordering;
use vstd::std_specs::cmp::PartialOrdSpecImpl;

verus! {

/// A turn of a game: the turn number and the side whose turn it is.
#[derive(Debug, Clone, Copy, PartialEq, Eq, Hash, Structural)]
pub struct Turn {
    pub side: Side,
    pub number: u32,
}

/// Where a side stands within one turn number: Axis before Allies.
pub open spec fn side_rank(side: Side) -> int {
    match side {
        Side::Axis => 0,
        Side::Allies => 1,
    }
}

/// The position of a turn in the order of play.
pub open spec fn turn_index(t: Turn) -> int {
    2 * t.number + side_rank(t.side)
}

impl Turn {
    /// The turn that follows this one.
    pub open spec fn spec_next(self) -> Turn {
        match self.side {
            Side::Axis => Turn { side: Side::Allies, number: self.number },
            Side::Allies => Turn { side: Side::Axis, number: (self.number + 1) as u32 },
        }
    }

    /// A turn of `side` with the given number.
    pub fn new(side: Side, number: u32) -> (r: Turn)
        ensures
            r == (Turn { side, number }),
    {
        Turn { side, number }
    }

    /// The turn that follows this one: Allies after Axis in the same turn
    /// number, Axis after Allies in the next turn number.
    pub fn next(&self) -> (r: Turn)
        requires
            self.side == Side::Allies ==> self.number < u32::MAX,
        ensures
            r == self.spec_next(),
            turn_index(r) == turn_index(*self) + 1,
    {
        match self.side {
            Side::Axis => Turn::new(Side::Allies, self.number),
            Side::Allies => Turn::new(Side::Axis, self.number + 1),
        }
    }
}

/// The order of two turns in play: by turn number, then Axis before Allies.
pub open spec fn turn_order(a: Turn, b: Turn) -> Ordering {
    if turn_index(a) < turn_index(b) {
        Ordering::Less
    } else if turn_index(a) == turn_index(b) {
        Ordering::Equal
    } else {
        Ordering::Greater
    }
}

impl PartialOrdSpecImpl for Turn {
    open spec fn obeys_partial_cmp_spec() -> bool {
        true
    }

    open spec fn partial_cmp_spec(&self, other: &Turn) -> Option<Ordering> {
        Some(turn_order(*self, *other))
    }
}

impl PartialOrd for Turn {
    fn partial_cmp(&self, other: &Turn) -> (r: Option<Ordering>) {
        if self.number < other.number {
            Some(Ordering::Less)
        } else if self.number > other.number {
            Some(Ordering::Greater)
        } else {
            match (self.side, other.side) {
                (Side::Axis, Side::Allies) => Some(Ordering::Less),
                (Side::Allies, Side::Axis) => Some(Ordering::Greater),
                _ => Some(Ordering::Equal),
            }
        }
    }
}

} // verus!
