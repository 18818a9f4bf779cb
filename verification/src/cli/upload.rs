//! What the upload command decides: which of the user's saves to compress
//! into the shared folder, and whether the autosave goes with it as the
//! start of the next turn.
use vstd::prelude::*;
use crate::cli::save::{SavOrArchive, TurnSave, extension_of, next_turn_fields, turn_save_view};
use crate::cli::shared::{
    Wanted, check_for_team_save, find_autosave, find_save, first_autosave, first_wanted,
    listed_turn_saves, listing_view,
};
use crate::config::{Config, ConfigError, Key, Setting, spec_set, SettingView};
use crate::grammar::FieldsView;
use crate::path::{join, join_path};
use crate::save::{Side, save_name};

verus! {

/// The abstract value of an [`UploadableSave`].
pub struct UploadableView {
    pub src: Seq<char>,
    pub dst: Seq<char>,
    pub save: FieldsView,
}

/// A save to upload: the file to compress, the archive to make, and the
/// save it holds.
#[derive(Debug)]
pub struct UploadableSave {
    pub src: String,
    pub dst: String,
    pub save: TurnSave,
}

impl View for UploadableSave {
    type V = UploadableView;

    open spec fn view(&self) -> UploadableView {
        UploadableView { src: self.src@, dst: self.dst@, save: self.save@ }
    }
}

/// The upload of the file at `src` as `save` into the shared folder
/// `dropbox`: an archive named after the save.
pub open spec fn upload_of(src: Seq<char>, save: FieldsView, dropbox: Seq<char>) -> UploadableView {
    UploadableView {
        src,
        dst: join(dropbox, save_name(turn_save_view(save)) + seq!['.', '7', 'z']),
        save,
    }
}

impl UploadableSave {
    /// The upload of the file at `path` as `save` into the configured shared
    /// folder.
    pub fn new(path: String, save: TurnSave, config: &Config) -> (r: UploadableSave)
        ensures
            r@ == upload_of(path@, save@, config.dropbox@),
    {
        let mut name = save.to_string();
        crate::text::push_str(&mut name, ".7z");
        proof {
            reveal_strlit(".7z");
        }
        assert(name@ =~= save_name(turn_save_view(save@)) + seq!['.', '7', 'z']);
        let dst = join_path(config.dropbox.as_str(), name.as_str());
        UploadableSave { src: path, dst, save }
    }

    /// The name of the save uploaded.
    pub fn to_string(&self) -> (r: String)
        ensures
            r@ == save_name(turn_save_view(self.save@)),
    {
        self.save.to_string()
    }
}

/// The saves to upload: the user's save for their teammate, and the
/// autosave as the start of the next turn when both teammates have played.
#[derive(Debug)]
pub struct Uploader {
    pub your_save: UploadableSave,
    pub next_save: Option<UploadableSave>,
}

/// What the upload command will do for a turn.
#[derive(Debug)]
pub enum UploadPlan {
    /// The user's save of the turn is missing: nothing is uploaded.
    SaveMissing { turn: u32 },
    /// Upload these saves; whether a teammate's save of the turn was found in
    /// the saves folder, and whether the autosave is uploaded because it was
    /// forced.
    Upload { turn: u32, uploader: Uploader, teammate_found: bool, forced: bool },
}

/// The configuration's save for turn `turn`: the user's side and player.
pub open spec fn config_turn_save(config: Config, turn: u32) -> FieldsView {
    FieldsView { player: Some(config.player@), side: config.side, turn, part: None }
}

impl TurnSave {
    /// The configured user's save of the configured turn.
    pub fn from_config(config: &Config) -> (r: TurnSave)
        ensures
            r@ == config_turn_save(*config, config.turn),
    {
        TurnSave { player: Some(config.player.clone()), side: config.side, turn: config.turn, part: None }
    }
}

/// The start save of the turn after the user's turn `turn`, uploaded from
/// the autosave in the saves folder when there is one.
pub fn find_next_save(config: &Config, saves_listing: &Vec<String>, turn: u32) -> (r: Option<UploadableSave>)
    requires
        config.side == Side::Allies ==> turn < u32::MAX,
    ensures
        match first_autosave(listing_view(saves_listing@)) {
            Some(p) => r matches Some(u) && u@ == upload_of(p, next_turn_fields(config_turn_save(*config, turn)), config.dropbox@),
            None => r is None,
        },
{
    let next_start_save = {
        let mut config_save = TurnSave::from_config(config);
        config_save.turn = turn;
        config_save.next_turn()
    };
    match find_autosave(saves_listing) {
        Some((_save, path)) => Some(UploadableSave::new(path, next_start_save, config)),
        None => None,
    }
}

/// What the upload command does for turn `turn_override` (or the configured
/// turn): it uploads the user's `sav` save of the turn from the saves folder
/// (whose files are `saves_listing`), and when a teammate's save of the turn
/// is there too, or when forced, also the autosave as the start of the next
/// turn.  The start of the next turn is worked out only then, and for an
/// Allies player it has the next turn number, so that turn must not be the
/// last one.
pub fn plan_upload(turn_override: Option<u32>, force: bool, config: &Config, saves_listing: &Vec<String>) -> (r: UploadPlan)
    requires
        ({
            let turn = match turn_override {
                Some(t) => t,
                None => config.turn,
            };
            let saves = listed_turn_saves(listing_view(saves_listing@), extension_of(SavOrArchive::Sav));
            turn < u32::MAX || config.side == Side::Axis || first_wanted(saves, Wanted::Own, config.side, config.player@, turn) is None
                || !(force || first_wanted(saves, Wanted::Team, config.side, config.player@, turn) is Some)
        }),
    ensures
        ({
            let turn = match turn_override {
                Some(t) => t,
                None => config.turn,
            };
            let saves = listed_turn_saves(listing_view(saves_listing@), extension_of(SavOrArchive::Sav));
            let teammate = first_wanted(saves, Wanted::Team, config.side, config.player@, turn) is Some;
            match first_wanted(saves, Wanted::Own, config.side, config.player@, turn) {
                None => r == UploadPlan::SaveMissing { turn },
                Some(e) => r matches UploadPlan::Upload { turn: t, uploader, teammate_found, forced }
                    && t == turn && teammate_found == teammate && forced == force
                    && uploader.your_save@ == upload_of(e.1, e.0, config.dropbox@)
                    && if teammate || force {
                        match first_autosave(listing_view(saves_listing@)) {
                            Some(p) => uploader.next_save matches Some(u) && u@ == upload_of(
                                p,
                                next_turn_fields(config_turn_save(*config, turn)),
                                config.dropbox@,
                            ),
                            None => uploader.next_save is None,
                        }
                    } else {
                        uploader.next_save is None
                    },
            }
        }),
{
    let turn = match turn_override {
        Some(t) => t,
        None => config.turn,
    };
    let your_save = match find_save(saves_listing, config.side, &config.player, turn, SavOrArchive::Sav) {
        Some((save, path)) => UploadableSave::new(path, save, config),
        None => return UploadPlan::SaveMissing { turn },
    };
    let teammate_found = check_for_team_save(config, saves_listing, turn, SavOrArchive::Sav);
    let next_save = if teammate_found || force {
        find_next_save(config, saves_listing, turn)
    } else {
        None
    };
    UploadPlan::Upload { turn, uploader: Uploader { your_save, next_save }, teammate_found, forced: force }
}

/// The configuration after the saves of turn `turn` were uploaded: the next
/// turn is to be played.
pub fn config_after_upload(config: Config, turn: u32) -> (r: Result<Config, ConfigError>)
    requires
        turn < u32::MAX,
    ensures
        match r {
            Ok(c) => spec_set(config@, Key::Turn, SettingView::Turn((turn + 1) as u32)) == Some(c@),
            Err(_) => false,
        },
{
    config.set(Key::Turn, Setting::Turn(turn + 1))
}

} // verus!
