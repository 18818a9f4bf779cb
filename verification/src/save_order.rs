//! The order of saves: by turn (the side first, Axis before Allies, then
//! the number), then by part, saves without a part after those with one.
//! The player is not looked at.
use vstd::prelude::*;
use core::cmp::Ordering;
use crate::save::{Save, SaveView, Side};
use crate::text::{lemma_text_rank_reverses, lemma_text_rank_transitive, rank_texts, text_rank};

verus! {

/// The order of two sides: Axis before Allies.
pub open spec fn side_order(a: Side, b: Side) -> Ordering {
    if a == b {
        Ordering::Equal
    } else if a == Side::Axis {
        Ordering::Less
    } else {
        Ordering::Greater
    }
}

/// The order of two numbers.
pub open spec fn number_order(a: u32, b: u32) -> Ordering {
    if a < b {
        Ordering::Less
    } else if a == b {
        Ordering::Equal
    } else {
        Ordering::Greater
    }
}

/// The lexicographic order of two texts by their characters, which is the
/// order of their UTF-8 bytes.
pub open spec fn text_order(a: Seq<char>, b: Seq<char>) -> Ordering {
    if text_rank(a, b) < 0 {
        Ordering::Less
    } else if text_rank(a, b) == 0 {
        Ordering::Equal
    } else {
        Ordering::Greater
    }
}

/// The order of two saves: by side, then turn number, then part (a save
/// without a part comes after those with one).
pub open spec fn save_order(a: SaveView, b: SaveView) -> Ordering {
    let by_turn = match side_order(a.turn.side, b.turn.side) {
        Ordering::Equal => number_order(a.turn.number, b.turn.number),
        o => o,
    };
    match by_turn {
        Ordering::Equal => match (a.part, b.part) {
            (Some(x), Some(y)) => text_order(x, y),
            (None, Some(_)) => Ordering::Greater,
            (Some(_), None) => Ordering::Less,
            (None, None) => Ordering::Equal,
        },
        o => o,
    }
}

/// Saves are totally ordered, as `Ord` asks of them: two saves stand level
/// exactly when their turns and parts are the same (whoever made them);
/// comparing the other way round gives the opposite answer; and a save before
/// one that is before a third is before the third.
pub proof fn lemma_save_order_is_total(a: SaveView, b: SaveView, c: SaveView)
    ensures
        (save_order(a, b) == Ordering::Equal) == (a.turn == b.turn && a.part == b.part),
        (save_order(a, b) == Ordering::Less) == (save_order(b, a) == Ordering::Greater),
        save_order(a, b) == Ordering::Less && save_order(b, c) == Ordering::Less ==> save_order(a, c)
            == Ordering::Less,
{
    if let (Some(x), Some(y)) = (a.part, b.part) {
        lemma_text_rank_reverses(x, y);
    }
    if let (Some(x), Some(y), Some(z)) = (a.part, b.part, c.part) {
        lemma_text_rank_reverses(y, z);
        lemma_text_rank_reverses(x, z);
        if text_rank(x, y) < 0 && text_rank(y, z) < 0 {
            lemma_text_rank_transitive(x, y, z);
        }
    }
}

fn order_texts(a: &str, b: &str) -> (r: Ordering)
    ensures
        r == text_order(a@, b@),
{
    let rank = rank_texts(a, b);
    if rank < 0 {
        Ordering::Less
    } else if rank == 0 {
        Ordering::Equal
    } else {
        Ordering::Greater
    }
}

impl Save {
    /// How this save is ordered against `other`, see [`save_order`].
    pub fn compare(&self, other: &Save) -> (r: Ordering)
        ensures
            r == save_order(self@, other@),
    {
        let by_side = if self.turn.side == other.turn.side {
            Ordering::Equal
        } else if self.turn.side == Side::Axis {
            Ordering::Less
        } else {
            Ordering::Greater
        };
        let by_turn = match by_side {
            Ordering::Equal => if self.turn.number < other.turn.number {
                Ordering::Less
            } else if self.turn.number == other.turn.number {
                Ordering::Equal
            } else {
                Ordering::Greater
            },
            o => o,
        };
        match by_turn {
            Ordering::Equal => match (&self.part, &other.part) {
                (Some(a), Some(b)) => order_texts(a.as_str(), b.as_str()),
                (None, Some(_)) => Ordering::Greater,
                (Some(_), None) => Ordering::Less,
                (None, None) => Ordering::Equal,
            },
            o => o,
        }
    }
}

} // verus!
