//! What the download command decides: which saves to extract from the
//! shared folder into the game's saves folder, and what to tell the user.
use vstd::prelude::*;
use crate::cli::save::{SavOrArchive, TurnSave, extension_of, turn_save_view};
use crate::cli::shared::{
    Wanted, all_wanted, entries_view, find_team_saves, find_turn_start_save, first_wanted,
    listed_turn_saves, listing_view,
};
use crate::config::Config;
use crate::grammar::FieldsView;
use crate::save::{Side, save_name};

verus! {

/// The abstract value of a [`DownloadableSave`].
pub struct DownloadableView {
    pub src: Seq<char>,
    pub dst: Seq<char>,
    pub save: FieldsView,
}

/// A save to download: the archive to extract, the folder to extract it
/// into, and the save it holds.
#[derive(Debug)]
pub struct DownloadableSave {
    pub src: String,
    pub dst: String,
    pub save: TurnSave,
}

impl View for DownloadableSave {
    type V = DownloadableView;

    open spec fn view(&self) -> DownloadableView {
        DownloadableView { src: self.src@, dst: self.dst@, save: self.save@ }
    }
}

/// The download of the save found at `e` into the folder `saves`.
pub open spec fn download_of(e: (FieldsView, Seq<char>), saves: Seq<char>) -> DownloadableView {
    DownloadableView { src: e.1, dst: saves, save: e.0 }
}

impl DownloadableSave {
    /// The download of `save`, found at `path`, into the configured saves
    /// folder.
    pub fn new(path: String, save: TurnSave, config: &Config) -> (r: DownloadableSave)
        ensures
            r@ == download_of((save@, path@), config.saves@),
    {
        DownloadableSave { src: path, dst: config.saves.clone(), save }
    }

    /// The name of the save downloaded.
    pub fn to_string(&self) -> (r: String)
        ensures
            r@ == save_name(turn_save_view(self.save@)),
    {
        self.save.to_string()
    }
}

/// What was found, which decides what the user is told.
#[derive(Debug, Clone, Copy, PartialEq, Eq, Structural)]
pub enum DownloadReport {
    /// The start save and one teammate's save.
    StartAndTeamSave,
    /// The start save and several parts of teammates' saves.
    StartAndTeamParts,
    /// The start save and no teammate's save.
    StartOnly,
    /// No start save on the very first turn, and one teammate's save.
    FirstTurnTeamSave,
    /// No start save on the very first turn, and several teammates' saves.
    FirstTurnTeamParts,
    /// No start save, and one teammate's save.
    NoStartTeamSave,
    /// No start save, and several teammates' saves.
    NoStartTeamParts,
    /// Nothing to download on the very first turn.
    NothingOnFirstTurn,
    /// Nothing to download.
    Nothing,
}

impl DownloadReport {
    /// Whether there is nothing to download, so the command stops.
    pub open spec fn spec_is_nothing(self) -> bool {
        self == DownloadReport::NothingOnFirstTurn || self == DownloadReport::Nothing
    }

    pub fn is_nothing(&self) -> (r: bool)
        ensures
            r == self.spec_is_nothing(),
    {
        match self {
            DownloadReport::NothingOnFirstTurn | DownloadReport::Nothing => true,
            _ => false,
        }
    }
}

/// What the user is told, from whether the start save was found, how many
/// teammates' saves were found and whether it is the very first turn (when
/// the side that plays first has no start save).
pub open spec fn classify(has_start: bool, team_count: nat, very_first_turn: bool) -> DownloadReport {
    if has_start {
        if team_count == 1 {
            DownloadReport::StartAndTeamSave
        } else if team_count > 1 {
            DownloadReport::StartAndTeamParts
        } else {
            DownloadReport::StartOnly
        }
    } else if very_first_turn && team_count == 1 {
        DownloadReport::FirstTurnTeamSave
    } else if very_first_turn && team_count > 1 {
        DownloadReport::FirstTurnTeamParts
    } else if team_count == 1 {
        DownloadReport::NoStartTeamSave
    } else if team_count > 1 {
        DownloadReport::NoStartTeamParts
    } else if very_first_turn {
        DownloadReport::NothingOnFirstTurn
    } else {
        DownloadReport::Nothing
    }
}

/// What the user is told, see [`classify`].
pub fn classify_download(has_start: bool, team_count: usize, very_first_turn: bool) -> (r: DownloadReport)
    ensures
        r == classify(has_start, team_count as nat, very_first_turn),
{
    if has_start {
        if team_count == 1 {
            DownloadReport::StartAndTeamSave
        } else if team_count > 1 {
            DownloadReport::StartAndTeamParts
        } else {
            DownloadReport::StartOnly
        }
    } else if very_first_turn && team_count == 1 {
        DownloadReport::FirstTurnTeamSave
    } else if very_first_turn && team_count > 1 {
        DownloadReport::FirstTurnTeamParts
    } else if team_count == 1 {
        DownloadReport::NoStartTeamSave
    } else if team_count > 1 {
        DownloadReport::NoStartTeamParts
    } else if very_first_turn {
        DownloadReport::NothingOnFirstTurn
    } else {
        DownloadReport::Nothing
    }
}

/// The saves to download.
#[derive(Debug)]
pub struct Downloader {
    pub start_save: Option<DownloadableSave>,
    pub team_saves: Vec<DownloadableSave>,
}

/// What the download command will do for a turn.
#[derive(Debug)]
pub struct DownloadPlan {
    pub turn: u32,
    pub downloader: Downloader,
    pub report: DownloadReport,
}

/// The teammates' saves found for a turn: those of the turn itself, then
/// those of the turn before, if it is a turn.
pub open spec fn team_saves_found(listing: Seq<Seq<char>>, side: Side, player: Seq<char>, turn: u32) -> Seq<(FieldsView, Seq<char>)> {
    let archives = listed_turn_saves(listing, extension_of(SavOrArchive::Archive));
    let current = all_wanted(archives, Wanted::Team, side, player, turn);
    if turn >= 2 {
        current + all_wanted(archives, Wanted::Team, side, player, (turn - 1) as u32)
    } else {
        current
    }
}

fn downloads_of(found: &Vec<(TurnSave, String)>, config: &Config) -> (r: Vec<DownloadableSave>)
    ensures
        r@.len() == found@.len(),
        forall|i: int| 0 <= i < r@.len() ==> #[trigger] r@[i]@ == download_of(entries_view(found@)[i], config.saves@),
{
    let mut r: Vec<DownloadableSave> = Vec::new();
    let mut i: usize = 0;
    while i < found.len()
        invariant
            i <= found@.len(),
            r@.len() == i,
            forall|k: int| 0 <= k < i ==> #[trigger] r@[k]@ == download_of(entries_view(found@)[k], config.saves@),
        decreases found.len() - i,
    {
        r.push(DownloadableSave::new(found[i].1.clone(), found[i].0.duplicate(), config));
        i += 1;
    }
    r
}

/// What the download command does for turn `turn_override` (or the
/// configured turn): the start save of the configured side's turn and the
/// teammates' saves of that turn and the one before, found among the
/// archives of the shared folder's `dropbox_listing`, each extracted into the
/// saves folder; and what the user is told, see [`classify`].
pub fn plan_download(turn_override: Option<u32>, config: &Config, dropbox_listing: &Vec<String>) -> (r: DownloadPlan)
    ensures
        r.turn == match turn_override {
            Some(t) => t,
            None => config.turn,
        },
        match first_wanted(
            listed_turn_saves(listing_view(dropbox_listing@), extension_of(SavOrArchive::Archive)),
            Wanted::Start,
            config.side,
            Seq::empty(),
            r.turn,
        ) {
            Some(e) => r.downloader.start_save matches Some(d) && d@ == download_of(e, config.saves@),
            None => r.downloader.start_save is None,
        },
        r.downloader.team_saves@.len() == team_saves_found(listing_view(dropbox_listing@), config.side, config.player@, r.turn).len(),
        forall|i: int| 0 <= i < r.downloader.team_saves@.len() ==> #[trigger] r.downloader.team_saves@[i]@
            == download_of(team_saves_found(listing_view(dropbox_listing@), config.side, config.player@, r.turn)[i], config.saves@),
        r.report == classify(
            r.downloader.start_save is Some,
            r.downloader.team_saves@.len(),
            r.turn == 1 && config.side == Side::Axis,
        ),
{
    let turn = match turn_override {
        Some(t) => t,
        None => config.turn,
    };
    let start_save = match find_turn_start_save(dropbox_listing, config.side, turn) {
        Some((save, path)) => Some(DownloadableSave::new(path, save, config)),
        None => None,
    };
    let mut found = find_team_saves(dropbox_listing, config.side, &config.player, turn, SavOrArchive::Archive);
    let ghost current = entries_view(found@);
    if turn >= 2 {
        let mut previous = find_team_saves(dropbox_listing, config.side, &config.player, turn - 1, SavOrArchive::Archive);
        let ghost prev = entries_view(previous@);
        found.append(&mut previous);
        assert(entries_view(found@) =~= current + prev);
    }
    let team_saves = downloads_of(&found, config);
    let very_first_turn = turn == 1 && config.side == Side::first();
    let report = classify_download(start_save.is_some(), team_saves.len(), very_first_turn);
    DownloadPlan { turn, downloader: Downloader { start_save, team_saves }, report }
}

/// The download command stops with nothing to do exactly when neither the
/// turn start save nor any teammate's save was found: a start save found is
/// always downloaded, alone when no teammate's save was found; and it tells
/// that it is the very first turn exactly on the very first turn.
pub proof fn lemma_download_stops_only_when_nothing_is_found(has_start: bool, team_count: nat, very_first_turn: bool)
    ensures
        classify(has_start, team_count, very_first_turn).spec_is_nothing() <==> (!has_start && team_count == 0),
        has_start && team_count == 0 ==> classify(has_start, team_count, very_first_turn) == DownloadReport::StartOnly,
        has_start && team_count == 1 ==> classify(has_start, team_count, very_first_turn) == DownloadReport::StartAndTeamSave,
        has_start && team_count > 1 ==> classify(has_start, team_count, very_first_turn) == DownloadReport::StartAndTeamParts,
        !has_start && team_count == 0 ==> (classify(has_start, team_count, very_first_turn) == DownloadReport::NothingOnFirstTurn
            <==> very_first_turn),
{
}

} // verus!
