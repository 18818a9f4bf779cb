//! Finding saves among the files of a directory listing, shared by the
//! download and upload commands.
use vstd::prelude::*;
use crate::cli::save::{Save, SaveNameView, SavOrArchive, TurnSave, extension_of, result_view, spec_parse_cli_save};
use crate::config::Config;
use crate::grammar::FieldsView;
use crate::parse::{extension, file_extension, file_name, stem};
use crate::save::Side;
use crate::text::{chars_of, same_chars};

verus! {

/// The save the file at a path stands for.
pub open spec fn path_save(p: Seq<char>) -> Option<SaveNameView> {
    match file_name(p) {
        Some(n) => spec_parse_cli_save(stem(n)),
        None => None,
    }
}

/// The turn saves among the files of `listing` with extension `ext`, each
/// with its file, in the order of the listing.  Autosaves and files whose
/// names are not saves are left out.
pub open spec fn listed_turn_saves(listing: Seq<Seq<char>>, ext: Seq<char>) -> Seq<(FieldsView, Seq<char>)>
    decreases listing.len(),
{
    if listing.len() == 0 {
        Seq::empty()
    } else {
        let rest = listed_turn_saves(listing.drop_last(), ext);
        let p = listing.last();
        if extension(p) == Some(ext) {
            match path_save(p) {
                Some(SaveNameView::Turn(f)) => rest.push((f, p)),
                _ => rest,
            }
        } else {
            rest
        }
    }
}

/// Which turn saves are looked for.
#[derive(Debug, Clone, Copy, PartialEq, Eq, Structural)]
pub enum Wanted {
    /// the start save of the turn: no player
    Start,
    /// the save of the player
    Own,
    /// a save of a teammate: another player
    Team,
}

/// The turn save `f` is of the wanted kind for `side`, `player` and `turn`.
pub open spec fn is_wanted(kind: Wanted, f: FieldsView, side: Side, player: Seq<char>, turn: u32) -> bool {
    &&& f.turn == turn
    &&& f.side == side
    &&& match kind {
        Wanted::Start => f.player is None,
        Wanted::Own => f.player == Some(player),
        Wanted::Team => f.player is Some && f.player != Some(player),
    }
}

/// The first entry of `es` of the wanted kind.
pub open spec fn first_wanted(es: Seq<(FieldsView, Seq<char>)>, kind: Wanted, side: Side, player: Seq<char>, turn: u32) -> Option<(FieldsView, Seq<char>)>
    decreases es.len(),
{
    if es.len() == 0 {
        None
    } else if is_wanted(kind, es[0].0, side, player, turn) {
        Some(es[0])
    } else {
        first_wanted(es.drop_first(), kind, side, player, turn)
    }
}

/// All entries of `es` of the wanted kind, in order.
pub open spec fn all_wanted(es: Seq<(FieldsView, Seq<char>)>, kind: Wanted, side: Side, player: Seq<char>, turn: u32) -> Seq<(FieldsView, Seq<char>)>
    decreases es.len(),
{
    if es.len() == 0 {
        Seq::empty()
    } else {
        let rest = all_wanted(es.drop_last(), kind, side, player, turn);
        if is_wanted(kind, es.last().0, side, player, turn) {
            rest.push(es.last())
        } else {
            rest
        }
    }
}

/// The file of the first autosave among the files of `listing` with
/// extension `sav`.
pub open spec fn first_autosave(listing: Seq<Seq<char>>) -> Option<Seq<char>>
    decreases listing.len(),
{
    if listing.len() == 0 {
        None
    } else if extension(listing[0]) == Some(seq!['s', 'a', 'v']) && path_save(listing[0]) == Some(SaveNameView::Autosave) {
        Some(listing[0])
    } else {
        first_autosave(listing.drop_first())
    }
}

pub open spec fn entry_view(e: (TurnSave, String)) -> (FieldsView, Seq<char>) {
    (e.0@, e.1@)
}

pub open spec fn entries_view(es: Seq<(TurnSave, String)>) -> Seq<(FieldsView, Seq<char>)> {
    es.map_values(|e: (TurnSave, String)| entry_view(e))
}

pub open spec fn opt_entry_view(e: Option<(TurnSave, String)>) -> Option<(FieldsView, Seq<char>)> {
    match e {
        Some(x) => Some(entry_view(x)),
        None => None,
    }
}

pub open spec fn listing_view(listing: Seq<String>) -> Seq<Seq<char>> {
    listing.map_values(|p: String| p@)
}

pub(crate) fn has_extension(path: &str, ext: &str) -> (r: bool)
    ensures
        r == (extension(path@) == Some(ext@)),
{
    match file_extension(path) {
        Some(x) => {
            let a = chars_of(x.as_str());
            let b = chars_of(ext);
            same_chars(&a, &b)
        },
        None => false,
    }
}

fn duplicate_turn_save(t: &TurnSave) -> (r: TurnSave)
    ensures
        r@ == t@,
{
    TurnSave {
        player: crate::save::copy_opt(&t.player),
        side: t.side,
        turn: t.turn,
        part: crate::save::copy_opt(&t.part),
    }
}

/// The turn saves among the files of `listing` with extension `extension`,
/// each with its file, see [`listed_turn_saves`].
pub fn iter_turn_saves_in_dir(listing: &Vec<String>, extension: &str) -> (r: Vec<(TurnSave, String)>)
    ensures
        entries_view(r@) == listed_turn_saves(listing_view(listing@), extension@),
{
    let ghost ps = listing_view(listing@);
    let mut r: Vec<(TurnSave, String)> = Vec::new();
    let mut i: usize = 0;
    while i < listing.len()
        invariant
            i <= listing@.len(),
            ps == listing_view(listing@),
            entries_view(r@) == listed_turn_saves(ps.take(i as int), extension@),
        decreases listing.len() - i,
    {
        proof {
            assert(ps.take(i + 1).drop_last() =~= ps.take(i as int));
            assert(ps.take(i + 1).last() == listing@[i as int]@);
        }
        let path = &listing[i];
        if has_extension(path.as_str(), extension) {
            match Save::try_from_path(path.as_str()) {
                Ok(Save::Turn(t)) => {
                    let ghost before = r@;
                    let ghost tv = t@;
                    r.push((t, path.clone()));
                    assert(entries_view(r@) =~= entries_view(before).push((tv, path@)));
                },
                _ => {},
            }
        }
        i += 1;
    }
    assert(ps.take(i as int) =~= ps);
    r
}

fn is_wanted_exec(kind: Wanted, f: &TurnSave, side: Side, player: &str, turn: u32) -> (r: bool)
    ensures
        r == is_wanted(kind, f@, side, player@, turn),
{
    if f.turn != turn || f.side != side {
        return false;
    }
    match kind {
        Wanted::Start => f.player.is_none(),
        Wanted::Own => match &f.player {
            Some(p) => {
                let a = chars_of(p.as_str());
                let b = chars_of(player);
                same_chars(&a, &b)
            },
            None => false,
        },
        Wanted::Team => match &f.player {
            Some(p) => {
                let a = chars_of(p.as_str());
                let b = chars_of(player);
                !same_chars(&a, &b)
            },
            None => false,
        },
    }
}

/// The first of `entries` of the wanted kind.
pub fn find_wanted(entries: &Vec<(TurnSave, String)>, kind: Wanted, side: Side, player: &str, turn: u32) -> (r: Option<(TurnSave, String)>)
    ensures
        opt_entry_view(r) == first_wanted(entries_view(entries@), kind, side, player@, turn),
{
    let ghost es = entries_view(entries@);
    let mut i: usize = 0;
    assert(es.skip(0) =~= es);
    while i < entries.len()
        invariant
            i <= entries@.len(),
            es == entries_view(entries@),
            first_wanted(es, kind, side, player@, turn) == first_wanted(es.skip(i as int), kind, side, player@, turn),
        decreases entries.len() - i,
    {
        proof {
            assert(es.skip(i as int).drop_first() =~= es.skip(i + 1));
            assert(es.skip(i as int)[0] == es[i as int]);
        }
        if is_wanted_exec(kind, &entries[i].0, side, player, turn) {
            return Some((duplicate_turn_save(&entries[i].0), entries[i].1.clone()));
        }
        i += 1;
    }
    None
}

/// All of `entries` of the wanted kind, in order.
pub fn find_all_wanted(entries: &Vec<(TurnSave, String)>, kind: Wanted, side: Side, player: &str, turn: u32) -> (r: Vec<(TurnSave, String)>)
    ensures
        entries_view(r@) == all_wanted(entries_view(entries@), kind, side, player@, turn),
{
    let ghost es = entries_view(entries@);
    let mut r: Vec<(TurnSave, String)> = Vec::new();
    let mut i: usize = 0;
    while i < entries.len()
        invariant
            i <= entries@.len(),
            es == entries_view(entries@),
            entries_view(r@) == all_wanted(es.take(i as int), kind, side, player@, turn),
        decreases entries.len() - i,
    {
        proof {
            assert(es.take(i + 1).drop_last() =~= es.take(i as int));
            assert(es.take(i + 1).last() == es[i as int]);
        }
        if is_wanted_exec(kind, &entries[i].0, side, player, turn) {
            let ghost before = r@;
            let e = (duplicate_turn_save(&entries[i].0), entries[i].1.clone());
            let ghost ev = entry_view(e);
            r.push(e);
            assert(entries_view(r@) =~= entries_view(before).push(ev));
        }
        i += 1;
    }
    assert(es.take(i as int) =~= es);
    r
}

/// The start save of `side`'s turn `turn` among the archives of `listing`.
pub fn find_turn_start_save(listing: &Vec<String>, side: Side, turn: u32) -> (r: Option<(TurnSave, String)>)
    ensures
        opt_entry_view(r) == first_wanted(
            listed_turn_saves(listing_view(listing@), extension_of(SavOrArchive::Archive)),
            Wanted::Start,
            side,
            Seq::empty(),
            turn,
        ),
{
    let ext = SavOrArchive::Archive.extension();
    let saves = iter_turn_saves_in_dir(listing, ext);
    let none = "";
    proof {
        reveal_strlit("");
    }
    assert(none@ =~= Seq::<char>::empty());
    find_wanted(&saves, Wanted::Start, side, none, turn)
}

/// The save of `player` for `side`'s turn `turn` among the files of
/// `listing` of the given type.
pub fn find_save(listing: &Vec<String>, side: Side, player: &String, turn: u32, file_type: SavOrArchive) -> (r: Option<(TurnSave, String)>)
    ensures
        opt_entry_view(r) == first_wanted(listed_turn_saves(listing_view(listing@), extension_of(file_type)), Wanted::Own, side, player@, turn),
{
    let saves = iter_turn_saves_in_dir(listing, file_type.extension());
    find_wanted(&saves, Wanted::Own, side, player.as_str(), turn)
}

/// A save of a teammate of `player` for `side`'s turn `turn` among the
/// files of `listing` of the given type.
pub fn find_team_save(listing: &Vec<String>, side: Side, player: &String, turn: u32, file_type: SavOrArchive) -> (r: Option<(TurnSave, String)>)
    ensures
        opt_entry_view(r) == first_wanted(listed_turn_saves(listing_view(listing@), extension_of(file_type)), Wanted::Team, side, player@, turn),
{
    let saves = iter_turn_saves_in_dir(listing, file_type.extension());
    find_wanted(&saves, Wanted::Team, side, player.as_str(), turn)
}

/// All saves of teammates of `player` for `side`'s turn `turn` among the
/// files of `listing` of the given type.
pub fn find_team_saves(listing: &Vec<String>, side: Side, player: &String, turn: u32, file_type: SavOrArchive) -> (r: Vec<(TurnSave, String)>)
    ensures
        entries_view(r@) == all_wanted(listed_turn_saves(listing_view(listing@), extension_of(file_type)), Wanted::Team, side, player@, turn),
{
    let saves = iter_turn_saves_in_dir(listing, file_type.extension());
    find_all_wanted(&saves, Wanted::Team, side, player.as_str(), turn)
}

/// Whether a teammate's save of the configured side's turn `turn` is among
/// the files of `saves_listing` (the listing of the saves folder).
pub fn check_for_team_save(config: &Config, saves_listing: &Vec<String>, turn: u32, file_type: SavOrArchive) -> (r: bool)
    ensures
        r == first_wanted(listed_turn_saves(listing_view(saves_listing@), extension_of(file_type)), Wanted::Team, config.side, config.player@, turn) is Some,
{
    find_team_save(saves_listing, config.side, &config.player, turn, file_type).is_some()
}

/// The autosave among the `sav` files of `listing`, and its file.
pub fn find_autosave(listing: &Vec<String>) -> (r: Option<(Save, String)>)
    ensures
        match r {
            Some((s, p)) => s is Autosave && first_autosave(listing_view(listing@)) == Some(p@),
            None => first_autosave(listing_view(listing@)) is None,
        },
{
    let ghost ps = listing_view(listing@);
    let sav = "sav";
    proof {
        reveal_strlit("sav");
    }
    assert(sav@ =~= seq!['s', 'a', 'v']);
    let mut i: usize = 0;
    assert(ps.skip(0) =~= ps);
    while i < listing.len()
        invariant
            i <= listing@.len(),
            ps == listing_view(listing@),
            sav@ == seq!['s', 'a', 'v'],
            first_autosave(ps) == first_autosave(ps.skip(i as int)),
        decreases listing.len() - i,
    {
        proof {
            assert(ps.skip(i as int).drop_first() =~= ps.skip(i + 1));
            assert(ps.skip(i as int)[0] == listing@[i as int]@);
        }
        let path = &listing[i];
        if has_extension(path.as_str(), sav) {
            let parsed = Save::try_from_path(path.as_str());
            if parsed.is_ok() && parsed.unwrap().is_autosave() {
                return Some((Save::Autosave, path.clone()));
            }
        }
        i += 1;
    }
    None
}

} // verus!
