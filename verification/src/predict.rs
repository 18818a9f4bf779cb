//! Predicting, from the saves in local and remote storage, what turn a
//! player is on, what to download and upload, and whether the autosave can
//! be uploaded.
use vstd::prelude::*;
use crate::index::{Index, any, is_latest, lemma_search_gives_the_matching_saves, matched_by, matching, views};
use crate::prediction::{all_saves, contains_save, lemma_missing_from, lemma_start_save_found, missing_from, own_saves_query, saves_not_in, start_save_query};
use crate::query::{
    Bool, Query, QueryView, ParamView, SideQueryParam, TextParamView, TurnOrdering, TurnQueryParam,
    apply_view, apply_joined_view, or_op, and_op,
};
use crate::save::{Save, SaveView, Side, start_save};
use crate::storage::{LocalStorage, RemoteStorage, StorageError};
use crate::turn::{Turn, turn_index};

verus! {

/// The turns a prediction is made from.
#[derive(Debug, Clone, Copy, PartialEq, Eq, Structural)]
pub struct TurnDetail {
    /// the latest turn the player uploaded a save of
    pub your_turn: Turn,
    /// the latest turn a teammate uploaded a save of
    pub teammate_turn: Turn,
    /// the latest turn of the player's side whose start save is uploaded
    pub next_friendly_turn: Turn,
    /// the enemy turn that follows it, which the autosave starts
    pub next_enemy_turn: Turn,
}

/// Why the autosave is not to be uploaded now.
#[derive(Debug, Clone, Copy, PartialEq, Eq, Structural)]
pub enum AutosavePredictionReason {
    /// It is uploaded already; uploading it again would overwrite it.
    AutosaveAlreadyUploaded,
    /// The teammate has not uploaded a save of this turn: they have not
    /// played their part of it yet.
    TeammateSaveNotUploaded,
    /// There are saves to download: the teammate played a turn not seen yet.
    NewTurnAvailable,
    /// There is no autosave in local storage to upload.
    AutosaveNotAvailable,
}

/// The save an autosave would be uploaded as, and whether it is ready.
#[derive(Debug, PartialEq, Eq)]
pub enum AutosavePrediction {
    Ready(Save),
    NotReady(Save, AutosavePredictionReason),
}

/// What to upload and download, and what becomes of the autosave.
#[derive(Debug)]
pub struct Prediction {
    pub autosave: AutosavePrediction,
    pub uploads: Vec<Save>,
    pub downloads: Vec<Save>,
}

/// The saves by teammates of `player` in `side`: saves of `side` with a
/// player other than `player`.
pub open spec fn teammate_saves_query(side: Side, player: Seq<char>) -> QueryView {
    apply_joined_view(
        ParamView::Player(TextParamView { boolean: Bool::Not, text: None }),
        and_op(),
        apply_view(
            ParamView::Player(TextParamView { boolean: Bool::Not, text: Some(player) }),
            apply_view(ParamView::Side(SideQueryParam { boolean: Bool::Is, side }), all_saves()),
        ),
    )
}

/// The start saves of `side`.
pub open spec fn start_saves_query(side: Side) -> QueryView {
    apply_view(
        ParamView::Player(TextParamView { boolean: Bool::Is, text: None }),
        apply_view(ParamView::Side(SideQueryParam { boolean: Bool::Is, side }), all_saves()),
    )
}

/// The players' saves of the teammate's turn, or the start save of the next
/// friendly turn.
pub open spec fn turn_downloads_query(d: TurnDetail) -> QueryView {
    apply_joined_view(
        ParamView::Player(TextParamView { boolean: Bool::Is, text: None }),
        or_op(),
        apply_joined_view(
            ParamView::Turn(TurnQueryParam { order: TurnOrdering::Equal, turn: d.next_friendly_turn, boolean: Bool::Is }),
            or_op(),
            apply_view(
                ParamView::Player(TextParamView { boolean: Bool::Not, text: None }),
                apply_view(
                    ParamView::Turn(TurnQueryParam { order: TurnOrdering::Equal, turn: d.teammate_turn, boolean: Bool::Is }),
                    all_saves(),
                ),
            ),
        ),
    )
}

/// The saves from the player's turn on.
pub open spec fn turn_uploads_query(d: TurnDetail) -> QueryView {
    apply_view(
        ParamView::Turn(TurnQueryParam { order: TurnOrdering::Greater, turn: d.your_turn, boolean: Bool::Is }),
        all_saves(),
    )
}

/// `n` is the turn number of the latest save matching `q`, or `default`
/// when none does.
pub open spec fn latest_number_or(saves: Seq<SaveView>, q: QueryView, default: u32, n: u32) -> bool {
    if any(saves, matched_by(q)) {
        exists|i: int| is_latest(saves, matched_by(q), i) && #[trigger] saves[i].turn.number == n
    } else {
        n == default
    }
}

/// The turns of `d`, read from the saves of remote storage: the latest
/// turns the player and a teammate uploaded saves of (number 0 when there
/// is none), the latest start save of the player's side (number 1 when
/// there is none) and the enemy turn after it.
pub open spec fn is_turn_detail(remote: Seq<SaveView>, side: Side, player: Seq<char>, d: TurnDetail) -> bool {
    &&& d.your_turn.side == side && latest_number_or(remote, own_saves_query(side, player), 0, d.your_turn.number)
    &&& d.teammate_turn.side == side && latest_number_or(remote, teammate_saves_query(side, player), 0, d.teammate_turn.number)
    &&& d.next_friendly_turn.side == side && latest_number_or(remote, start_saves_query(side), 1, d.next_friendly_turn.number)
    &&& d.next_enemy_turn == d.next_friendly_turn.spec_next()
}

/// What becomes of the autosave, to be uploaded as `save`: it must be
/// there, not be uploaded already, there must be nothing to download, and
/// the teammate must have caught up with the player's turn.
pub open spec fn spec_autosave_prediction(
    save: Save,
    autosave_exists: bool,
    uploaded_already: bool,
    downloads_pending: bool,
    teammate_behind: bool,
) -> AutosavePrediction {
    if !autosave_exists {
        AutosavePrediction::NotReady(save, AutosavePredictionReason::AutosaveNotAvailable)
    } else if uploaded_already {
        AutosavePrediction::NotReady(save, AutosavePredictionReason::AutosaveAlreadyUploaded)
    } else if downloads_pending {
        AutosavePrediction::NotReady(save, AutosavePredictionReason::NewTurnAvailable)
    } else if teammate_behind {
        AutosavePrediction::NotReady(save, AutosavePredictionReason::TeammateSaveNotUploaded)
    } else {
        AutosavePrediction::Ready(save)
    }
}

/// What becomes of the autosave, see [`spec_autosave_prediction`].
pub fn autosave_prediction(
    save: Save,
    autosave_exists: bool,
    uploaded_already: bool,
    downloads_pending: bool,
    teammate_behind: bool,
) -> (r: AutosavePrediction)
    ensures
        r == spec_autosave_prediction(save, autosave_exists, uploaded_already, downloads_pending, teammate_behind),
{
    if !autosave_exists {
        AutosavePrediction::NotReady(save, AutosavePredictionReason::AutosaveNotAvailable)
    } else if uploaded_already {
        AutosavePrediction::NotReady(save, AutosavePredictionReason::AutosaveAlreadyUploaded)
    } else if downloads_pending {
        AutosavePrediction::NotReady(save, AutosavePredictionReason::NewTurnAvailable)
    } else if teammate_behind {
        AutosavePrediction::NotReady(save, AutosavePredictionReason::TeammateSaveNotUploaded)
    } else {
        AutosavePrediction::Ready(save)
    }
}

/// What becomes of the autosave for the turns `d`, with the saves of remote
/// storage `remote`, `downloads_pending` telling whether there are saves to
/// download and `autosave_exists` whether local storage has an autosave.
pub open spec fn autosave_outcome(
    d: TurnDetail,
    remote: Seq<SaveView>,
    downloads_pending: bool,
    autosave_exists: bool,
) -> AutosavePrediction {
    spec_autosave_prediction(
        Save { turn: d.next_enemy_turn, player: None, part: None },
        autosave_exists,
        matching(remote, start_save_query(d.next_enemy_turn)).len() > 0,
        downloads_pending,
        turn_index(d.teammate_turn) < turn_index(d.your_turn),
    )
}

/// The save in an autosave prediction.
pub open spec fn predicted_save(p: AutosavePrediction) -> Save {
    match p {
        AutosavePrediction::Ready(s) => s,
        AutosavePrediction::NotReady(s, _) => s,
    }
}

/// Makes predictions of what to upload and download.
pub trait Predict {
    /// Predicts what should be uploaded and downloaded, and what becomes of
    /// the autosave.
    fn predict<L: LocalStorage, R: RemoteStorage>(&self, side: Side, player: &str, local: &mut L, remote: &mut R) -> Result<Prediction, StorageError>;

    /// Predicts the turns the other predictions are made from.
    fn predict_turn_detail<L: LocalStorage, R: RemoteStorage>(&self, side: Side, player: &str, local: &mut L, remote: &mut R) -> Result<TurnDetail, StorageError>;

    /// The saves that should be downloaded.
    fn predict_downloads<L: LocalStorage, R: RemoteStorage>(&self, detail: &TurnDetail, local: &mut L, remote: &mut R) -> Result<Vec<Save>, StorageError>;

    /// The saves that should be uploaded, besides the autosave.
    fn predict_uploads<L: LocalStorage, R: RemoteStorage>(&self, detail: &TurnDetail, local: &mut L, remote: &mut R) -> Result<Vec<Save>, StorageError>;

    /// What becomes of the autosave, given the saves predicted to download.
    fn predict_autosave<L: LocalStorage, R: RemoteStorage>(&self, detail: &TurnDetail, downloads: &Vec<Save>, local: &mut L, remote: &mut R) -> Result<AutosavePrediction, StorageError>;
}

fn latest_number(saves: &Vec<Save>, query: &Query, default: u32) -> (n: u32)
    ensures
        latest_number_or(views(saves@), query@, default, n),
{
    match crate::index::latest_matching(saves, query) {
        Some(s) => s.turn.number,
        None => default,
    }
}

/// Predicts from the latest saves in remote storage.
#[derive(Debug, Default)]
pub struct SimplePredict;

impl Predict for SimplePredict {
    /// The turn detail, the uploads and downloads for it, and what becomes
    /// of the autosave given those downloads.
    fn predict<L: LocalStorage, R: RemoteStorage>(&self, side: Side, player: &str, local: &mut L, remote: &mut R) -> (r: Result<Prediction, StorageError>)
        ensures
            r is Err <==> old(local).autosave_reported() is None,
            r matches Ok(p) ==> (exists|d: TurnDetail| #[trigger] is_turn_detail(views(old(remote).indexed()), side, player@, d)
                && views(p.downloads@) == missing_from(
                    matching(views(old(remote).indexed()), turn_downloads_query(d)),
                    matching(views(old(local).indexed()), turn_downloads_query(d)),
                ) && views(p.uploads@) == missing_from(
                    matching(views(old(local).indexed()), turn_uploads_query(d)),
                    matching(views(old(remote).indexed()), turn_uploads_query(d)),
                ) && predicted_save(p.autosave)@ == start_save(d.next_enemy_turn)
                && p.autosave == autosave_outcome(
                    d,
                    views(old(remote).indexed()),
                    p.downloads@.len() > 0,
                    old(local).autosave_reported() == Some(true),
                )),
    {
        let detail = match self.predict_turn_detail(side, player, local, remote) {
            Ok(d) => d,
            Err(e) => return Err(e),
        };
        let uploads = match self.predict_uploads(&detail, local, remote) {
            Ok(u) => u,
            Err(e) => return Err(e),
        };
        let downloads = match self.predict_downloads(&detail, local, remote) {
            Ok(d) => d,
            Err(e) => return Err(e),
        };
        let autosave = match self.predict_autosave(&detail, &downloads, local, remote) {
            Ok(a) => a,
            Err(e) => return Err(e),
        };
        Ok(Prediction { autosave, uploads, downloads })
    }

    /// The turns read from remote storage, see [`is_turn_detail`].
    fn predict_turn_detail<L: LocalStorage, R: RemoteStorage>(&self, side: Side, player: &str, local: &mut L, remote: &mut R) -> (r: Result<TurnDetail, StorageError>)
        ensures
            *final(local) == *old(local),
            *final(remote) == *old(remote),
            r matches Ok(d) && is_turn_detail(views(old(remote).indexed()), side, player@, d),
    {
        let saves = remote.saves();
        let yours = Query::new().side(side).player(Some(player));
        let teammates = Query::new().side(side).not_player(Some(player)).and_not_player(None);
        let starts = Query::new().side(side).player(None);
        let your_number = latest_number(saves, &yours, 0);
        let teammate_number = latest_number(saves, &teammates, 0);
        let friendly_number = latest_number(saves, &starts, 1);
        let next_friendly_turn = Turn::new(side, friendly_number);
        let next_enemy_turn = match side {
            Side::Axis => Turn::new(Side::Allies, friendly_number),
            Side::Allies => Turn::new(Side::Axis, friendly_number.wrapping_add(1)),
        };
        proof {
            if side == Side::Allies {
                assert(friendly_number.wrapping_add(1) == (friendly_number + 1) as u32) by (bit_vector);
            }
        }
        Ok(TurnDetail {
            your_turn: Turn::new(side, your_number),
            teammate_turn: Turn::new(side, teammate_number),
            next_friendly_turn,
            next_enemy_turn,
        })
    }

    /// The saves of remote storage that local storage lacks, among the
    /// players' saves of the teammate's turn and the start save of the next
    /// friendly turn.
    fn predict_downloads<L: LocalStorage, R: RemoteStorage>(&self, detail: &TurnDetail, local: &mut L, remote: &mut R) -> (r: Result<Vec<Save>, StorageError>)
        ensures
            *final(local) == *old(local),
            *final(remote) == *old(remote),
            r matches Ok(v) && views(v@) == missing_from(
                matching(views(old(remote).indexed()), turn_downloads_query(*detail)),
                matching(views(old(local).indexed()), turn_downloads_query(*detail)),
            ),
    {
        let query = Query::new().turn(detail.teammate_turn).not_player(None).or_turn(detail.next_friendly_turn).or_player(None);
        let local_saves = local.search(&query);
        let remote_saves = remote.search(&query);
        Ok(saves_not_in(&remote_saves, &local_saves))
    }

    /// The saves of local storage that remote storage lacks, from the
    /// player's turn on.
    fn predict_uploads<L: LocalStorage, R: RemoteStorage>(&self, detail: &TurnDetail, local: &mut L, remote: &mut R) -> (r: Result<Vec<Save>, StorageError>)
        ensures
            *final(local) == *old(local),
            *final(remote) == *old(remote),
            r matches Ok(v) && views(v@) == missing_from(
                matching(views(old(local).indexed()), turn_uploads_query(*detail)),
                matching(views(old(remote).indexed()), turn_uploads_query(*detail)),
            ),
    {
        let query = Query::new().min_turn(detail.your_turn);
        let local_saves = local.search(&query);
        let remote_saves = remote.search(&query);
        Ok(saves_not_in(&local_saves, &remote_saves))
    }

    /// The start save of the next enemy turn, and whether it is ready, see
    /// [`autosave_outcome`]; whether there is an autosave is what local
    /// storage answers, and asking it is the only thing that can fail.
    fn predict_autosave<L: LocalStorage, R: RemoteStorage>(&self, detail: &TurnDetail, downloads: &Vec<Save>, local: &mut L, remote: &mut R) -> (r: Result<AutosavePrediction, StorageError>)
        ensures
            *final(remote) == *old(remote),
            match r {
                Ok(p) => old(local).autosave_reported() is Some && p == autosave_outcome(
                    *detail,
                    views(old(remote).indexed()),
                    downloads@.len() > 0,
                    old(local).autosave_reported() == Some(true),
                ) && predicted_save(p)@ == start_save(detail.next_enemy_turn),
                Err(_) => old(local).autosave_reported() is None,
            },
    {
        let autosave_exists = match local.locate_autosave() {
            Ok(found) => found.is_some(),
            Err(e) => return Err(e),
        };
        let enemy = detail.next_enemy_turn;
        let uploaded = remote.count(&Query::new().side(enemy.side).turn_number(enemy.number).player(None).part(None));
        let teammate_behind = detail.teammate_turn.number < detail.your_turn.number || (detail.teammate_turn.number
            == detail.your_turn.number && detail.teammate_turn.side == Side::Axis && detail.your_turn.side == Side::Allies);
        let save = Save { turn: enemy, player: None, part: None };
        Ok(autosave_prediction(save, autosave_exists, uploaded >= 1, downloads.len() > 0, teammate_behind))
    }
}

/// What becomes of the autosave: it is uploaded as the start save of the
/// enemy turn after the player's side's latest start save, and it is ready
/// exactly when local storage has it, remote storage does not have that start
/// save yet, nothing is to be downloaded, and the teammate's latest uploaded
/// turn is not before the player's.  When all holds but the teammate is
/// behind, it waits for the teammate's save.
pub proof fn lemma_autosave_waits_for_everyone(
    d: TurnDetail,
    remote: Seq<SaveView>,
    downloads_pending: bool,
    autosave_exists: bool,
)
    ensures
        predicted_save(autosave_outcome(d, remote, downloads_pending, autosave_exists))@ == start_save(d.next_enemy_turn),
        autosave_outcome(d, remote, downloads_pending, autosave_exists) is Ready <==> (autosave_exists
            && !remote.contains(start_save(d.next_enemy_turn)) && !downloads_pending
            && turn_index(d.teammate_turn) >= turn_index(d.your_turn)),
        turn_index(d.teammate_turn) < turn_index(d.your_turn) && autosave_exists
            && !remote.contains(start_save(d.next_enemy_turn)) && !downloads_pending
            ==> autosave_outcome(d, remote, downloads_pending, autosave_exists) == AutosavePrediction::NotReady(
            Save { turn: d.next_enemy_turn, player: None, part: None },
            AutosavePredictionReason::TeammateSaveNotUploaded,
        ),
        !autosave_exists ==> autosave_outcome(d, remote, downloads_pending, autosave_exists) matches AutosavePrediction::NotReady(
            _,
            AutosavePredictionReason::AutosaveNotAvailable,
        ),
        autosave_exists && remote.contains(start_save(d.next_enemy_turn)) ==> autosave_outcome(
            d,
            remote,
            downloads_pending,
            autosave_exists,
        ) matches AutosavePrediction::NotReady(_, AutosavePredictionReason::AutosaveAlreadyUploaded),
{
    lemma_start_save_found(remote, d.next_enemy_turn);
}

proof fn lemma_turn_queries_match(d: TurnDetail, s: SaveView)
    ensures
        turn_uploads_query(d).spec_matches(s) == (s.turn.side == d.your_turn.side && s.turn.number >= d.your_turn.number),
        turn_downloads_query(d).spec_matches(s) == ((s.turn == d.teammate_turn && s.player is Some) || (s.turn
            == d.next_friendly_turn && s.player is None)),
{
}

/// What is uploaded and downloaded for the turns `d`: the uploads are
/// exactly the saves of local storage of the player's side from the player's
/// latest uploaded turn number on that remote storage lacks; the downloads
/// are exactly the saves of remote storage that local storage lacks among
/// the players' saves of the teammate's latest turn and the start save of
/// the next friendly turn.
pub proof fn lemma_turn_uploads_and_downloads(local: Seq<SaveView>, remote: Seq<SaveView>, d: TurnDetail)
    ensures
        forall|i: int| 0 <= i < missing_from(matching(local, turn_uploads_query(d)), matching(remote, turn_uploads_query(d))).len()
            ==> {
            let u = #[trigger] missing_from(matching(local, turn_uploads_query(d)), matching(remote, turn_uploads_query(d)))[i];
            &&& local.contains(u) && !remote.contains(u)
            &&& u.turn.side == d.your_turn.side && u.turn.number >= d.your_turn.number
        },
        forall|j: int| 0 <= j < local.len() && (#[trigger] local[j]).turn.side == d.your_turn.side
            && local[j].turn.number >= d.your_turn.number && !remote.contains(local[j]) ==> missing_from(
            matching(local, turn_uploads_query(d)),
            matching(remote, turn_uploads_query(d)),
        ).contains(local[j]),
        forall|i: int| 0 <= i < missing_from(matching(remote, turn_downloads_query(d)), matching(local, turn_downloads_query(d))).len()
            ==> {
            let w = #[trigger] missing_from(matching(remote, turn_downloads_query(d)), matching(local, turn_downloads_query(d)))[i];
            &&& remote.contains(w) && !local.contains(w)
            &&& (w.turn == d.teammate_turn && w.player is Some) || (w.turn == d.next_friendly_turn && w.player is None)
        },
        forall|j: int| 0 <= j < remote.len() && ((#[trigger] remote[j]).turn == d.teammate_turn && remote[j].player is Some
            || remote[j].turn == d.next_friendly_turn && remote[j].player is None) && !local.contains(remote[j])
            ==> missing_from(matching(remote, turn_downloads_query(d)), matching(local, turn_downloads_query(d))).contains(
            remote[j],
        ),
{
    let qu = turn_uploads_query(d);
    let qd = turn_downloads_query(d);
    lemma_search_gives_the_matching_saves(local, qu);
    lemma_search_gives_the_matching_saves(remote, qu);
    lemma_search_gives_the_matching_saves(local, qd);
    lemma_search_gives_the_matching_saves(remote, qd);
    lemma_missing_from(matching(local, qu), matching(remote, qu));
    lemma_missing_from(matching(remote, qd), matching(local, qd));
    let mu = missing_from(matching(local, qu), matching(remote, qu));
    let md = missing_from(matching(remote, qd), matching(local, qd));
    assert forall|i: int| 0 <= i < mu.len() implies {
        let u = #[trigger] mu[i];
        &&& local.contains(u) && !remote.contains(u)
        &&& u.turn.side == d.your_turn.side && u.turn.number >= d.your_turn.number
    } by {
        let u = mu[i];
        let k = choose|k: int| 0 <= k < matching(local, qu).len() && matching(local, qu)[k] == u;
        assert(qu.spec_matches(matching(local, qu)[k]));
        lemma_turn_queries_match(d, u);
        if remote.contains(u) {
            let w = choose|w: int| 0 <= w < remote.len() && remote[w] == u;
            assert(qu.spec_matches(remote[w]));
            assert(matching(remote, qu).contains(remote[w]));
        }
    }
    assert forall|j: int| 0 <= j < local.len() && (#[trigger] local[j]).turn.side == d.your_turn.side
        && local[j].turn.number >= d.your_turn.number && !remote.contains(local[j]) implies mu.contains(local[j]) by {
        lemma_turn_queries_match(d, local[j]);
        assert(matching(local, qu).contains(local[j]));
        if matching(remote, qu).contains(local[j]) {
            let w = choose|w: int| 0 <= w < matching(remote, qu).len() && matching(remote, qu)[w] == local[j];
            assert(remote.contains(matching(remote, qu)[w]));
        }
        let k = choose|k: int| 0 <= k < matching(local, qu).len() && matching(local, qu)[k] == local[j];
        assert(!matching(remote, qu).contains(matching(local, qu)[k]));
    }
    assert forall|i: int| 0 <= i < md.len() implies {
        let w = #[trigger] md[i];
        &&& remote.contains(w) && !local.contains(w)
        &&& (w.turn == d.teammate_turn && w.player is Some) || (w.turn == d.next_friendly_turn && w.player is None)
    } by {
        let w = md[i];
        let k = choose|k: int| 0 <= k < matching(remote, qd).len() && matching(remote, qd)[k] == w;
        assert(qd.spec_matches(matching(remote, qd)[k]));
        lemma_turn_queries_match(d, w);
        if local.contains(w) {
            let v = choose|v: int| 0 <= v < local.len() && local[v] == w;
            assert(qd.spec_matches(local[v]));
            assert(matching(local, qd).contains(local[v]));
        }
    }
    assert forall|j: int| 0 <= j < remote.len() && ((#[trigger] remote[j]).turn == d.teammate_turn && remote[j].player is Some
        || remote[j].turn == d.next_friendly_turn && remote[j].player is None) && !local.contains(remote[j]) implies md.contains(
        remote[j],
    ) by {
        lemma_turn_queries_match(d, remote[j]);
        assert(matching(remote, qd).contains(remote[j]));
        if matching(local, qd).contains(remote[j]) {
            let v = choose|v: int| 0 <= v < matching(local, qd).len() && matching(local, qd)[v] == remote[j];
            assert(local.contains(matching(local, qd)[v]));
        }
        let k = choose|k: int| 0 <= k < matching(remote, qd).len() && matching(remote, qd)[k] == remote[j];
        assert(!matching(local, qd).contains(matching(remote, qd)[k]));
    }
}

} // verus!
