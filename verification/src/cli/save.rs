//! Saves as the command line tool names them: a turn save, or the autosave.
use vstd::prelude::*;
use crate::grammar::{fields_at, fields_at_exec, token_at, token_at_exec, FieldsView, Fields,
    Grammar, GrammarView, SideToken, SideTokenView, SpaceRule};
use crate::parse::ParseSaveError;
use crate::save::{Side, opt_view, save_name, SaveView};
use crate::text::chars_of;
use crate::turn::Turn;

verus! {

/// A save of one side's turn, as the command line tool sees it.
#[derive(Clone, Debug, PartialEq, Eq)]
pub struct TurnSave {
    pub player: Option<String>,
    pub side: Side,
    pub turn: u32,
    pub part: Option<String>,
}

impl View for TurnSave {
    type V = FieldsView;

    open spec fn view(&self) -> FieldsView {
        FieldsView { side: self.side, player: opt_view(self.player), turn: self.turn, part: opt_view(self.part) }
    }
}

/// The abstract value of a command line [`Save`].
pub enum SaveNameView {
    Autosave,
    Turn(FieldsView),
}

/// A save file of the command line tool: the autosave or a turn save.
#[derive(Clone, Debug, PartialEq, Eq)]
pub enum Save {
    Autosave,
    Turn(TurnSave),
}

impl View for Save {
    type V = SaveNameView;

    open spec fn view(&self) -> SaveNameView {
        match self {
            Save::Autosave => SaveNameView::Autosave,
            Save::Turn(t) => SaveNameView::Turn(t@),
        }
    }
}

/// The two file formats of saves: a save of the game, or a compressed archive.
#[derive(Debug, Clone, Copy, PartialEq, Eq, Structural)]
pub enum SavOrArchive {
    Sav,
    Archive,
}

/// The file extension of a save format.
pub open spec fn extension_of(kind: SavOrArchive) -> Seq<char> {
    match kind {
        SavOrArchive::Sav => seq!['s', 'a', 'v'],
        SavOrArchive::Archive => seq!['7', 'z'],
    }
}

impl SavOrArchive {
    /// The file extension of this format, `sav` or `7z`.
    pub fn extension(&self) -> (r: &'static str)
        ensures
            r@ == extension_of(*self),
    {
        proof {
            reveal_strlit("sav");
            reveal_strlit("7z");
        }
        match self {
            SavOrArchive::Sav => "sav",
            SavOrArchive::Archive => "7z",
        }
    }
}

impl Save {
    /// Whether this is the autosave.
    pub fn is_autosave(&self) -> (r: bool)
        ensures
            r == (*self is Autosave),
    {
        match self {
            Save::Autosave => true,
            Save::Turn(_) => false,
        }
    }
}

/// The save of the elements of a turn save, as the library's save model sees it.
pub open spec fn turn_save_view(f: FieldsView) -> SaveView {
    SaveView { player: f.player, turn: Turn { side: f.side, number: f.turn }, part: f.part }
}

/// The turn save that starts the turn after `f`'s: the other side plays
/// next, and after Allies the turn number goes up.
pub open spec fn next_turn_fields(f: FieldsView) -> FieldsView {
    FieldsView {
        player: None,
        side: match f.side { Side::Axis => Side::Allies, Side::Allies => Side::Axis },
        turn: match f.side { Side::Axis => f.turn, Side::Allies => (f.turn + 1) as u32 },
        part: None,
    }
}

impl TurnSave {
    /// A copy of this save.
    pub fn duplicate(&self) -> (r: TurnSave)
        ensures
            r@ == self@,
    {
        TurnSave {
            player: crate::save::copy_opt(&self.player),
            side: self.side,
            turn: self.turn,
            part: crate::save::copy_opt(&self.part),
        }
    }

    /// The turn start save of the turn after this one.
    pub fn next_turn(self) -> (r: TurnSave)
        requires
            self.side == Side::Allies ==> self.turn < u32::MAX,
        ensures
            r@ == next_turn_fields(self@),
    {
        let next_turn = match self.side {
            // Axis go first, so Allies play the same turn number next
            Side::Axis => self.turn,
            // Allies go last, so Axis play the next turn number next
            Side::Allies => self.turn + 1,
        };
        TurnSave { player: None, side: self.side.other_side(), turn: next_turn, part: None }
    }

    /// The displayed name of this save, such as `Allies DM 12`.
    pub fn to_string(&self) -> (r: String)
        ensures
            r@ == save_name(turn_save_view(self@)),
    {
        let s = crate::save::Save {
            player: crate::save::copy_opt(&self.player),
            turn: Turn::new(self.side, self.turn),
            part: crate::save::copy_opt(&self.part),
        };
        s.to_string()
    }
}

/// The grammar of the command line tool: sides are written `Allies`,
/// `allies`, `Axis` or `axis`, and at most one space separates elements.
pub open spec fn cli_grammar() -> GrammarView {
    GrammarView {
        sides: seq![
            SideTokenView { text: seq!['A', 'l', 'l', 'i', 'e', 's'], ci: false, side: Side::Allies },
            SideTokenView { text: seq!['a', 'l', 'l', 'i', 'e', 's'], ci: false, side: Side::Allies },
            SideTokenView { text: seq!['A', 'x', 'i', 's'], ci: false, side: Side::Axis },
            SideTokenView { text: seq!['a', 'x', 'i', 's'], ci: false, side: Side::Axis },
        ],
        spaces: SpaceRule::AtMostOne,
    }
}

fn token(side: Side, text: &str) -> (r: SideToken)
    ensures
        r@ == (SideTokenView { text: text@, ci: false, side }),
{
    SideToken { text: chars_of(text), ci: false, side }
}

/// The grammar of the command line tool.
pub fn cli_grammar_exec() -> (g: Grammar)
    ensures
        g@ == cli_grammar(),
{
    proof {
        reveal_strlit("Allies");
        reveal_strlit("allies");
        reveal_strlit("Axis");
        reveal_strlit("axis");
    }
    let sides = vec![
        token(Side::Allies, "Allies"),
        token(Side::Allies, "allies"),
        token(Side::Axis, "Axis"),
        token(Side::Axis, "axis"),
    ];
    assert("Allies"@ =~= seq!['A', 'l', 'l', 'i', 'e', 's']);
    assert("allies"@ =~= seq!['a', 'l', 'l', 'i', 'e', 's']);
    assert("Axis"@ =~= seq!['A', 'x', 'i', 's']);
    assert("axis"@ =~= seq!['a', 'x', 'i', 's']);
    let g = Grammar { sides, spaces: SpaceRule::AtMostOne };
    assert(g@.sides[0] == cli_grammar().sides[0]);
    assert(g@.sides[1] == cli_grammar().sides[1]);
    assert(g@.sides[2] == cli_grammar().sides[2]);
    assert(g@.sides[3] == cli_grammar().sides[3]);
    assert(g@.sides =~= cli_grammar().sides);
    g
}

/// The save a name stands for: `autosave` or `Autosave` at its start is the
/// autosave; otherwise the turn save at its start.  Text after the save is
/// not looked at.
pub open spec fn spec_parse_cli_save(s: Seq<char>) -> Option<SaveNameView> {
    if token_at(s, 0, seq!['a', 'u', 't', 'o', 's', 'a', 'v', 'e'], false) || token_at(
        s,
        0,
        seq!['A', 'u', 't', 'o', 's', 'a', 'v', 'e'],
        false,
    ) {
        Some(SaveNameView::Autosave)
    } else {
        match fields_at(cli_grammar(), s, 0) {
            Some((f, _)) => Some(SaveNameView::Turn(f)),
            None => None,
        }
    }
}

pub open spec fn result_view(r: Result<Save, ParseSaveError>) -> Option<SaveNameView> {
    match r {
        Ok(s) => Some(s@),
        Err(_) => None,
    }
}

fn into_turn_save(f: Fields) -> (r: TurnSave)
    ensures
        r@ == f@,
{
    TurnSave { player: f.player, side: f.side, turn: f.turn, part: f.part }
}

/// Parses the save at the start of `input`, see [`spec_parse_cli_save`].
pub fn parse_save(input: &str) -> (r: Result<Save, ParseSaveError>)
    ensures
        result_view(r) == spec_parse_cli_save(input@),
{
    let s = chars_of(input);
    proof {
        reveal_strlit("autosave");
        reveal_strlit("Autosave");
    }
    let lower = chars_of("autosave");
    let upper = chars_of("Autosave");
    if token_at_exec(&s, 0, &lower, false) || token_at_exec(&s, 0, &upper, false) {
        assert(lower@ =~= seq!['a', 'u', 't', 'o', 's', 'a', 'v', 'e']);
        assert(upper@ =~= seq!['A', 'u', 't', 'o', 's', 'a', 'v', 'e']);
        return Ok(Save::Autosave);
    }
    assert(lower@ =~= seq!['a', 'u', 't', 'o', 's', 'a', 'v', 'e']);
    assert(upper@ =~= seq!['A', 'u', 't', 'o', 's', 'a', 'v', 'e']);
    let g = cli_grammar_exec();
    match fields_at_exec(&g, &s, 0) {
        Some((f, _)) => Ok(Save::Turn(into_turn_save(f))),
        None => Err(ParseSaveError),
    }
}

/// The save the file at a `/`-separated path stands for: the part of its
/// file name before the first `.` is parsed.
pub fn from_path(path: &str) -> (r: Result<Save, ParseSaveError>)
    ensures
        result_view(r) == match crate::parse::file_name(path@) {
            Some(n) => spec_parse_cli_save(crate::parse::stem(n)),
            None => None,
        },
{
    match crate::parse::file_stem(path) {
        Some(stem) => parse_save(stem.as_str()),
        None => Err(ParseSaveError),
    }
}

impl core::str::FromStr for Save {
    type Err = ParseSaveError;

    /// The save `s` names, see [`parse_save`].
    fn from_str(s: &str) -> (r: Result<Save, ParseSaveError>)
        ensures
            result_view(r) == spec_parse_cli_save(s@),
    {
        parse_save(s)
    }
}

impl Save {
    /// The save the file at a `/`-separated path stands for, see [`from_path`].
    pub fn try_from_path(path: &str) -> (r: Result<Save, ParseSaveError>)
        ensures
            result_view(r) == match crate::parse::file_name(path@) {
                Some(n) => spec_parse_cli_save(crate::parse::stem(n)),
                None => None,
            },
    {
        from_path(path)
    }
}

} // verus!
