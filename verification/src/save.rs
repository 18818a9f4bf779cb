//! The model of a game save: which side's turn it belongs to, who played it
//! and which part of a turn it is.
use vstd::prelude::*;
use crate::text::{decimal, push_char, push_decimal, push_str};
use crate::turn::Turn;

verus! {

/// The two teams of a game.
#[derive(Debug, Clone, Copy, PartialEq, Eq, Hash, Structural)]
pub enum Side {
    Axis,
    Allies,
}

/// The name a side is shown with.
pub open spec fn side_name(side: Side) -> Seq<char> {
    match side {
        Side::Axis => seq!['A', 'x', 'i', 's'],
        Side::Allies => seq!['A', 'l', 'l', 'i', 'e', 's'],
    }
}

/// The opposing side.
pub open spec fn opposite(side: Side) -> Side {
    match side {
        Side::Axis => Side::Allies,
        Side::Allies => Side::Axis,
    }
}

/// Each side is the other side's opposite, and never its own.
pub proof fn lemma_opposite_sides(side: Side)
    ensures
        opposite(opposite(side)) == side,
        opposite(side) != side,
{
}

impl Side {
    /// The opposing side.
    pub fn other_side(&self) -> (r: Side)
        ensures
            r == opposite(*self),
    {
        match self {
            Side::Allies => Side::Axis,
            Side::Axis => Side::Allies,
        }
    }

    /// The side that plays first in every turn.
    pub fn first() -> (r: Side)
        ensures
            r == Side::Axis,
    {
        Side::Axis
    }

    /// The name of the side, as it is displayed.
    pub fn to_string(&self) -> (r: String)
        ensures
            r@ == side_name(*self),
    {
        let mut s = String::new();
        match self {
            Side::Axis => push_str(&mut s, "Axis"),
            Side::Allies => push_str(&mut s, "Allies"),
        }
        proof {
            reveal_strlit("Axis");
            reveal_strlit("Allies");
        }
        s
    }
}

/// The abstract value of a [`Save`]: its texts as character sequences.
pub struct SaveView {
    pub player: Option<Seq<char>>,
    pub turn: Turn,
    pub part: Option<Seq<char>>,
}

/// A save of a game: the turn it was made in, who made it and which part of
/// the turn it is.  A save without a player is the start of a turn.
#[derive(Debug, Clone, PartialEq, Eq, Hash)]
pub struct Save {
    pub player: Option<String>,
    pub turn: Turn,
    pub part: Option<String>,
}

/// The characters of an optional string.
pub open spec fn opt_view(s: Option<String>) -> Option<Seq<char>> {
    match s {
        Some(t) => Some(t@),
        None => None,
    }
}

impl View for Save {
    type V = SaveView;

    open spec fn view(&self) -> SaveView {
        SaveView { player: opt_view(self.player), turn: self.turn, part: opt_view(self.part) }
    }
}

/// The turn start save of `turn`.
pub open spec fn start_save(turn: Turn) -> SaveView {
    SaveView { player: None, turn, part: None }
}

/// The name of a save as it is displayed and used for file names, such as
/// `Axis DM 12` or `Allies 3`.  A part is only shown together with a player.
pub open spec fn save_name(s: SaveView) -> Seq<char> {
    let head = side_name(s.turn.side) + seq![' '];
    let number = decimal(s.turn.number as nat);
    match (s.player, s.part) {
        (Some(player), Some(part)) => head + player + seq![' '] + number + part,
        (Some(player), None) => head + player + seq![' '] + number,
        _ => head + number,
    }
}

/// A copy of an optional string.
pub fn copy_opt(s: &Option<String>) -> (r: Option<String>)
    ensures
        opt_view(r) == opt_view(*s),
{
    match s {
        Some(t) => Some(t.clone()),
        None => None,
    }
}

/// Equality of two optional strings by their characters.
pub fn opt_str_eq(a: &Option<String>, b: &Option<String>) -> (r: bool)
    ensures
        r == (opt_view(*a) == opt_view(*b)),
{
    match (a, b) {
        (Some(x), Some(y)) => *x == *y,
        (None, None) => true,
        _ => false,
    }
}

impl Save {
    /// A new turn start save for the given side and turn number.
    pub fn new(side: Side, turn: u32) -> (r: Save)
        ensures
            r@ == start_save(Turn { side, number: turn }),
    {
        Save { turn: Turn::new(side, turn), player: None, part: None }
    }

    /// The same save, made by `player`.
    pub fn player(self, player: &str) -> (r: Save)
        ensures
            r@ == (SaveView { player: Some(player@), ..self@ }),
    {
        let mut name = String::new();
        push_str(&mut name, player);
        Save { player: Some(name), ..self }
    }

    /// The same save, as the given part of a turn.
    pub fn part(self, part: &str) -> (r: Save)
        ensures
            r@ == (SaveView { part: Some(part@), ..self@ }),
    {
        let mut name = String::new();
        push_str(&mut name, part);
        Save { part: Some(name), ..self }
    }

    /// The turn start save of the turn that follows this save's turn.
    pub fn next_turn(self) -> (r: Save)
        requires
            self.turn.side == Side::Allies ==> self.turn.number < u32::MAX,
        ensures
            r@ == start_save(self.turn.spec_next()),
    {
        Save { player: None, turn: self.turn.next(), part: None }
    }

    /// A copy of this save.
    pub fn duplicate(&self) -> (r: Save)
        ensures
            r@ == self@,
    {
        Save { player: copy_opt(&self.player), turn: self.turn, part: copy_opt(&self.part) }
    }

    /// Two saves are the same save.
    pub fn same_as(&self, other: &Save) -> (r: bool)
        ensures
            r == (self@ == other@),
    {
        self.turn.side == other.turn.side && self.turn.number == other.turn.number && opt_str_eq(
            &self.player,
            &other.player,
        ) && opt_str_eq(&self.part, &other.part)
    }

    /// The displayed name of this save, see [`save_name`].
    pub fn to_string(&self) -> (r: String)
        ensures
            r@ == save_name(self@),
    {
        let mut s = self.turn.side.to_string();
        push_char(&mut s, ' ');
        match (&self.player, &self.part) {
            (Some(player), Some(part)) => {
                push_str(&mut s, player.as_str());
                push_char(&mut s, ' ');
                push_decimal(&mut s, self.turn.number);
                push_str(&mut s, part.as_str());
            },
            (Some(player), None) => {
                push_str(&mut s, player.as_str());
                push_char(&mut s, ' ');
                push_decimal(&mut s, self.turn.number);
            },
            _ => {
                push_decimal(&mut s, self.turn.number);
            },
        }
        s
    }
}

/// A save that may instead be the game's autosave.
#[derive(Debug, Clone)]
pub enum SaveOrAutosave {
    Save(Save),
    Autosave,
}

impl SaveOrAutosave {
    /// The save within, unless this is the autosave.
    pub fn borrow(&self) -> (r: Option<&Save>)
        ensures
            match self {
                SaveOrAutosave::Save(s) => r == Some(s),
                SaveOrAutosave::Autosave => r is None,
            },
    {
        match self {
            SaveOrAutosave::Save(save) => Some(save),
            SaveOrAutosave::Autosave => None,
        }
    }

    /// The save within, to be changed in place, unless this is the autosave.
    pub fn to_mut(&mut self) -> (r: Option<&mut Save>)
        ensures
            match *old(self) {
                SaveOrAutosave::Save(s) => r matches Some(m) && *m == s && *final(self)
                    == SaveOrAutosave::Save(*final(m)),
                SaveOrAutosave::Autosave => r is None && *final(self) == SaveOrAutosave::Autosave,
            },
    {
        match self {
            SaveOrAutosave::Save(save) => Some(save),
            SaveOrAutosave::Autosave => None,
        }
    }

    /// The save within, unless this is the autosave.
    pub fn into_save(self) -> (r: Option<Save>)
        ensures
            match self {
                SaveOrAutosave::Save(s) => r == Some(s),
                SaveOrAutosave::Autosave => r is None,
            },
    {
        match self {
            SaveOrAutosave::Save(save) => Some(save),
            SaveOrAutosave::Autosave => None,
        }
    }

    /// A save that is not the autosave.
    pub fn save(save: Save) -> (r: SaveOrAutosave)
        ensures
            r == SaveOrAutosave::Save(save),
    {
        SaveOrAutosave::Save(save)
    }

    /// The autosave.
    pub fn autosave() -> (r: SaveOrAutosave)
        ensures
            r == SaveOrAutosave::Autosave,
    {
        SaveOrAutosave::Autosave
    }

    /// The displayed name: the save's name, or `autosave`.
    pub fn to_string(&self) -> (r: String)
        ensures
            match self {
                SaveOrAutosave::Save(s) => r@ == save_name(s@),
                SaveOrAutosave::Autosave => r@ == seq!['a', 'u', 't', 'o', 's', 'a', 'v', 'e'],
            },
    {
        match self {
            SaveOrAutosave::Save(save) => save.to_string(),
            SaveOrAutosave::Autosave => {
                let mut s = String::new();
                push_str(&mut s, "autosave");
                proof {
                    reveal_strlit("autosave");
                }
                s
            },
        }
    }
}

} // verus!
