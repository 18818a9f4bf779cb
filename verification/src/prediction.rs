//! Choosing which saves to download, which to upload and what the autosave
//! should be uploaded as.
use vstd::prelude::*;
use crate::index::{Index, any, is_latest, lemma_search_gives_the_matching_saves, matched_by, matching, views};
use crate::query::{
    Bool, Query, QueryView, ParamView, SideQueryParam, TextParamView, TurnNumberQueryParam,
    TurnNumberRange, apply_view, apply_joined_view, empty_sub_query, or_op, opt_str_view,
    lemma_new_query_matches_every_save, lemma_restrict_single, merge_view,
};
use crate::save::{Save, SaveView, Side, start_save};
use crate::storage::{LocalStorage, RemoteStorage, StorageError};
use crate::turn::Turn;

verus! {

/// The query that matches every save.
pub open spec fn all_saves() -> QueryView {
    QueryView::Single { boolean: Bool::Is, sub_query: empty_sub_query() }
}

/// The saves `player` of `side` made.
pub open spec fn own_saves_query(side: Side, player: Seq<char>) -> QueryView {
    apply_view(
        ParamView::Player(TextParamView { boolean: Bool::Is, text: Some(player) }),
        apply_view(ParamView::Side(SideQueryParam { boolean: Bool::Is, side }), all_saves()),
    )
}

/// The saves to download for `side` from turn number `turn`: the players'
/// saves of `side` from that turn on, or the start save of `side` in the
/// next turn number.
pub open spec fn downloads_query(turn: u32, side: Side) -> QueryView {
    apply_joined_view(
        ParamView::TurnNumber(TurnNumberQueryParam { boolean: Bool::Is, range: TurnNumberRange::Single((turn + 1) as u32) }),
        or_op(),
        apply_joined_view(
            ParamView::Player(TextParamView { boolean: Bool::Is, text: None }),
            or_op(),
            apply_joined_view(
                ParamView::Side(SideQueryParam { boolean: Bool::Is, side }),
                or_op(),
                apply_view(
                    ParamView::TurnNumber(TurnNumberQueryParam { boolean: Bool::Is, range: TurnNumberRange::LowerBounded(turn) }),
                    apply_view(
                        ParamView::Player(TextParamView { boolean: Bool::Not, text: None }),
                        apply_view(ParamView::Side(SideQueryParam { boolean: Bool::Is, side }), all_saves()),
                    ),
                ),
            ),
        ),
    )
}

/// The saves of `side` from turn number `turn` on.
pub open spec fn uploads_query(turn: u32, side: Side) -> QueryView {
    apply_view(
        ParamView::TurnNumber(TurnNumberQueryParam { boolean: Bool::Is, range: TurnNumberRange::LowerBounded(turn) }),
        apply_view(ParamView::Side(SideQueryParam { boolean: Bool::Is, side }), all_saves()),
    )
}

/// The start save of `turn`, without parts.
pub open spec fn start_save_query(turn: Turn) -> QueryView {
    apply_view(
        ParamView::Part(TextParamView { boolean: Bool::Is, text: None }),
        apply_view(
            ParamView::Player(TextParamView { boolean: Bool::Is, text: None }),
            apply_view(
                ParamView::TurnNumber(TurnNumberQueryParam { boolean: Bool::Is, range: TurnNumberRange::Single(turn.number) }),
                apply_view(ParamView::Side(SideQueryParam { boolean: Bool::Is, side: turn.side }), all_saves()),
            ),
        ),
    )
}

/// The saves of `a` that are not in `b`, in order.
pub open spec fn missing_from(a: Seq<SaveView>, b: Seq<SaveView>) -> Seq<SaveView>
    decreases a.len(),
{
    if a.len() == 0 {
        Seq::empty()
    } else {
        let rest = missing_from(a.drop_last(), b);
        if b.contains(a.last()) {
            rest
        } else {
            rest.push(a.last())
        }
    }
}

/// The turn number a side starts from when it has uploaded nothing: Axis
/// uploads the start of Allies' turn 1, Allies download it.
pub open spec fn first_turn(side: Side) -> u32 {
    match side {
        Side::Axis => 1,
        Side::Allies => 0,
    }
}

/// `n` is the turn number of the latest save `player` of `side` made, or
/// [`first_turn`] when there is none.
pub open spec fn predicted_turn(saves: Seq<SaveView>, side: Side, player: Seq<char>, n: u32) -> bool {
    let own = matched_by(own_saves_query(side, player));
    if any(saves, own) {
        exists|i: int| is_latest(saves, own, i) && #[trigger] saves[i].turn.number == n
    } else {
        n == first_turn(side)
    }
}

/// The saves to download: those of remote storage that match
/// [`downloads_query`] and are not in local storage.
pub open spec fn predicted_downloads(local: Seq<SaveView>, remote: Seq<SaveView>, turn: u32, side: Side) -> Seq<SaveView> {
    missing_from(matching(remote, downloads_query(turn, side)), matching(local, downloads_query(turn, side)))
}

/// The saves to upload: those of local storage that match [`uploads_query`]
/// and are not in remote storage.
pub open spec fn predicted_uploads(local: Seq<SaveView>, remote: Seq<SaveView>, turn: u32, side: Side) -> Seq<SaveView> {
    missing_from(matching(local, uploads_query(turn, side)), matching(remote, uploads_query(turn, side)))
}

/// Whether `s` is one of `saves`.
pub fn contains_save(saves: &Vec<Save>, s: &Save) -> (r: bool)
    ensures
        r == views(saves@).contains(s@),
{
    let mut i: usize = 0;
    while i < saves.len()
        invariant
            i <= saves@.len(),
            forall|k: int| 0 <= k < i ==> saves@[k]@ != s@,
        decreases saves.len() - i,
    {
        if saves[i].same_as(s) {
            assert(views(saves@)[i as int] == s@);
            return true;
        }
        i += 1;
    }
    assert forall|k: int| 0 <= k < views(saves@).len() implies views(saves@)[k] != s@ by {
        assert(views(saves@)[k] == saves@[k]@);
    }
    false
}

/// The saves of `a` that are not in `b`, see [`missing_from`].
pub fn saves_not_in(a: &Vec<Save>, b: &Vec<Save>) -> (r: Vec<Save>)
    ensures
        views(r@) == missing_from(views(a@), views(b@)),
{
    let mut r: Vec<Save> = Vec::new();
    let mut i: usize = 0;
    while i < a.len()
        invariant
            i <= a@.len(),
            views(r@) == missing_from(views(a@).take(i as int), views(b@)),
        decreases a.len() - i,
    {
        proof {
            assert(views(a@).take(i + 1).drop_last() =~= views(a@).take(i as int));
            assert(views(a@).take(i + 1).last() == a@[i as int]@);
        }
        if !contains_save(b, &a[i]) {
            let ghost before = r@;
            r.push(a[i].duplicate());
            assert(views(r@) =~= views(before).push(a@[i as int]@));
        }
        i += 1;
    }
    assert(views(a@).take(i as int) =~= views(a@));
    r
}

fn own_saves(side: Side, player: &str) -> (q: Query)
    ensures
        q@ == own_saves_query(side, player@),
{
    Query::new().side(side).player(Some(player))
}

fn downloads(turn: u32, side: Side) -> (q: Query)
    requires
        turn < u32::MAX,
    ensures
        q@ == downloads_query(turn, side),
{
    Query::new().side(side).not_player(None).turn_number_in_range(Some(turn), None).or_side(side).or_player(
        None,
    ).or_turn_number(turn + 1)
}

fn uploads(turn: u32, side: Side) -> (q: Query)
    ensures
        q@ == uploads_query(turn, side),
{
    Query::new().side(side).turn_number_in_range(Some(turn), None)
}

fn start_save_of(turn: Turn) -> (q: Query)
    ensures
        q@ == start_save_query(turn),
{
    Query::new().side(turn.side).turn_number(turn.number).player(None).part(None)
}

/// The logic behind choosing which saves to download, which to upload and
/// what turn the autosave should be uploaded as.  The turn given to the
/// predictions is trusted as it is; [`Prediction::predict_turn`] should be
/// asked first, unless the user chose a turn.
pub trait Prediction {
    /// The turn that needs acting on for `side`, if this prediction tells;
    /// unless a prediction says otherwise, it does not tell, and leaves the
    /// storages alone.
    fn predict_turn<L: LocalStorage, R: RemoteStorage>(&self, side: Side, player: &str, local: &mut L, remote: &mut R) -> (r: Result<Option<u32>, StorageError>)
        default_ensures
            r == Ok::<Option<u32>, StorageError>(None),
            *final(local) == *old(local),
            *final(remote) == *old(remote),
    {
        Ok(None)
    }

    /// The saves that should be downloaded.
    fn predict_downloads<L: LocalStorage, R: RemoteStorage>(&self, turn: u32, side: Side, player: &str, local: &mut L, remote: &mut R) -> Result<Vec<Save>, StorageError>
        requires
            turn < u32::MAX,
    ;

    /// The saves that should be uploaded, besides the autosave.
    fn predict_uploads<L: LocalStorage, R: RemoteStorage>(&self, turn: u32, side: Side, player: &str, local: &mut L, remote: &mut R) -> Result<Vec<Save>, StorageError>;

    /// What the autosave should be uploaded as, and whether it should be
    /// uploaded now.
    fn predict_autosave<L: LocalStorage, R: RemoteStorage>(&self, turn: u32, side: Side, player: &str, local: &mut L, remote: &mut R) -> Result<(Save, Option<bool>), StorageError>
        requires
            turn < u32::MAX,
    ;
}

/// Predicts from the saves the user already uploaded.
#[derive(Debug, Default)]
pub struct SimplePrediction;

impl SimplePrediction {
    fn count_predicted_downloads<L: LocalStorage, R: RemoteStorage>(&self, turn: u32, side: Side, player: &str, local: &mut L, remote: &mut R) -> (r: Result<usize, StorageError>)
        requires
            turn < u32::MAX,
        ensures
            *final(local) == *old(local),
            *final(remote) == *old(remote),
            r matches Ok(n) && n == predicted_downloads(views(old(local).indexed()), views(old(remote).indexed()), turn, side).len(),
    {
        match self.predict_downloads(turn, side, player, local, remote) {
            Ok(saves) => Ok(saves.len()),
            Err(e) => Err(e),
        }
    }
}

/// Decides whether the autosave is uploaded now: it must be there, there
/// must be nothing new to download, and it must not be uploaded already.
pub fn autosave_ready(autosave_exists: bool, download_count: usize, uploaded_count: usize) -> (r: bool)
    ensures
        r == (autosave_exists && download_count == 0 && uploaded_count == 0),
{
    autosave_exists && download_count == 0 && !(uploaded_count >= 1)
}

impl Prediction for SimplePrediction {
    /// The turn number of the latest save the player uploaded, or the first
    /// turn of their side when there is none, see [`predicted_turn`].
    fn predict_turn<L: LocalStorage, R: RemoteStorage>(&self, side: Side, player: &str, local: &mut L, remote: &mut R) -> (r: Result<Option<u32>, StorageError>)
        ensures
            *final(local) == *old(local),
            *final(remote) == *old(remote),
            r matches Ok(Some(n)) && predicted_turn(views(old(remote).indexed()), side, player@, n),
    {
        let query = own_saves(side, player);
        let turn = match remote.latest(&query) {
            Some(save) => save.turn.number,
            None => match side {
                Side::Axis => 1,
                Side::Allies => 0,
            },
        };
        Ok(Some(turn))
    }

    /// The saves of remote storage that local storage lacks, among the
    /// players' saves of `side` from `turn` on and the start save of `side`
    /// in the next turn number, see [`predicted_downloads`].
    fn predict_downloads<L: LocalStorage, R: RemoteStorage>(&self, turn: u32, side: Side, player: &str, local: &mut L, remote: &mut R) -> (r: Result<Vec<Save>, StorageError>)
        ensures
            *final(local) == *old(local),
            *final(remote) == *old(remote),
            r matches Ok(v) && views(v@) == predicted_downloads(views(old(local).indexed()), views(old(remote).indexed()), turn, side),
    {
        let query = downloads(turn, side);
        let local_saves = local.search(&query);
        let remote_saves = remote.search(&query);
        Ok(saves_not_in(&remote_saves, &local_saves))
    }

    /// The saves of local storage that remote storage lacks, among the saves
    /// of `side` from `turn` on, see [`predicted_uploads`].
    fn predict_uploads<L: LocalStorage, R: RemoteStorage>(&self, turn: u32, side: Side, player: &str, local: &mut L, remote: &mut R) -> (r: Result<Vec<Save>, StorageError>)
        ensures
            *final(local) == *old(local),
            *final(remote) == *old(remote),
            r matches Ok(v) && views(v@) == predicted_uploads(views(old(local).indexed()), views(old(remote).indexed()), turn, side),
    {
        let query = uploads(turn, side);
        let local_saves = local.search(&query);
        let remote_saves = remote.search(&query);
        Ok(saves_not_in(&local_saves, &remote_saves))
    }

    /// The start save of the turn after `side`'s turn `turn`, which the
    /// autosave becomes; it is uploaded now when local storage reports an
    /// autosave, nothing is to be downloaded and remote storage does not have
    /// that start save yet, see [`autosave_ready`].  Whether there is an
    /// autosave is what local storage answers, and asking it is the only
    /// thing that can fail.
    fn predict_autosave<L: LocalStorage, R: RemoteStorage>(&self, turn: u32, side: Side, player: &str, local: &mut L, remote: &mut R) -> (r: Result<(Save, Option<bool>), StorageError>)
        ensures
            *final(remote) == *old(remote),
            match r {
                Ok((s, ready)) => old(local).autosave_reported() is Some && s@ == start_save(
                    Turn { side, number: turn }.spec_next(),
                ) && ready == Some(old(local).autosave_reported() == Some(true) && predicted_downloads(
                    views(final(local).indexed()),
                    views(old(remote).indexed()),
                    turn,
                    side,
                ).len() == 0 && matching(views(old(remote).indexed()), start_save_query(Turn { side, number: turn }.spec_next())).len() == 0),
                Err(_) => old(local).autosave_reported() is None,
            },
    {
        let autosave_exists = match local.locate_autosave() {
            Ok(found) => found.is_some(),
            Err(e) => return Err(e),
        };
        let download_count = match self.count_predicted_downloads(turn, side, player, local, remote) {
            Ok(n) => n,
            Err(e) => return Err(e),
        };
        let enemy_turn = Turn::new(side, turn).next();
        let uploaded = remote.count(&start_save_of(enemy_turn));
        let save = Save { turn: enemy_turn, player: None, part: None };
        let ready = autosave_ready(autosave_exists, download_count, uploaded);
        Ok((save, Some(ready)))
    }
}

/// Waits for the teammate to upload the start save of the enemy turn; it
/// does not predict a turn.
pub struct PatientPrediction<L, U> {
    pub local_storage: L,
    pub user_interaction: U,
}

impl<L, U> PatientPrediction<L, U> {
    /// This prediction does not tell the turn.
    pub fn predict_turn(&self) -> (r: Option<u32>)
        ensures
            r is None,
    {
        None
    }
}

/// The saves of `a` missing from `b` are saves of `a` that `b` lacks, and
/// every save of `a` that `b` lacks is among them: nothing is downloaded that
/// local storage has, and nothing uploaded that remote storage has.
pub proof fn lemma_missing_from(a: Seq<SaveView>, b: Seq<SaveView>)
    ensures
        forall|i: int| 0 <= i < missing_from(a, b).len() ==> a.contains(#[trigger] missing_from(a, b)[i])
            && !b.contains(missing_from(a, b)[i]),
        forall|j: int| 0 <= j < a.len() && !b.contains(#[trigger] a[j]) ==> missing_from(a, b).contains(a[j]),
    decreases a.len(),
{
    if a.len() > 0 {
        let rest = a.drop_last();
        lemma_missing_from(rest, b);
        let m = missing_from(a, b);
        let mr = missing_from(rest, b);
        assert forall|i: int| 0 <= i < m.len() implies a.contains(#[trigger] m[i]) && !b.contains(m[i]) by {
            if i < mr.len() {
                assert(m[i] == mr[i]);
                let k = choose|k: int| 0 <= k < rest.len() && rest[k] == mr[i];
                assert(a[k] == rest[k]);
            } else {
                assert(m[i] == a.last());
                assert(a[a.len() - 1] == a.last());
            }
        }
        assert forall|j: int| 0 <= j < a.len() && !b.contains(#[trigger] a[j]) implies m.contains(a[j]) by {
            if j < a.len() - 1 {
                assert(rest[j] == a[j]);
                let k = choose|k: int| 0 <= k < mr.len() && mr[k] == rest[j];
                assert(m[k] == mr[k]);
            } else {
                assert(m[m.len() - 1] == a.last());
            }
        }
    }
}

/// A save matches the uploads query exactly when it is of `side` and its
/// turn number is `turn` or later.
proof fn lemma_uploads_query_matches(turn: u32, side: Side, s: SaveView)
    ensures
        uploads_query(turn, side).spec_matches(s) == (s.turn.side == side && s.turn.number >= turn),
{
    let side_param = ParamView::Side(SideQueryParam { boolean: Bool::Is, side });
    let number_param = ParamView::TurnNumber(TurnNumberQueryParam { boolean: Bool::Is, range: TurnNumberRange::LowerBounded(turn) });
    lemma_restrict_single(side_param, empty_sub_query(), s);
    lemma_restrict_single(number_param, merge_view(side_param, empty_sub_query()), s);
    lemma_new_query_matches_every_save(s);
}

/// The saves predicted to upload for `side` from turn number `turn` are
/// exactly the saves of local storage of that side, of turn number `turn` or
/// later, that remote storage lacks: each predicted upload is such a save,
/// and every such save is predicted.
pub proof fn lemma_uploads_are_the_missing_saves_from_the_turn_on(
    local: Seq<SaveView>,
    remote: Seq<SaveView>,
    turn: u32,
    side: Side,
)
    ensures
        forall|i: int| 0 <= i < predicted_uploads(local, remote, turn, side).len() ==> {
            let u = #[trigger] predicted_uploads(local, remote, turn, side)[i];
            &&& local.contains(u)
            &&& u.turn.side == side
            &&& u.turn.number >= turn
            &&& !remote.contains(u)
        },
        forall|j: int| 0 <= j < local.len() && (#[trigger] local[j]).turn.side == side && local[j].turn.number >= turn
            && !remote.contains(local[j]) ==> predicted_uploads(local, remote, turn, side).contains(local[j]),
{
    let q = uploads_query(turn, side);
    let ml = matching(local, q);
    let mr = matching(remote, q);
    lemma_search_gives_the_matching_saves(local, q);
    lemma_search_gives_the_matching_saves(remote, q);
    lemma_missing_from(ml, mr);
    assert forall|i: int| 0 <= i < predicted_uploads(local, remote, turn, side).len() implies {
        let u = #[trigger] predicted_uploads(local, remote, turn, side)[i];
        &&& local.contains(u)
        &&& u.turn.side == side
        &&& u.turn.number >= turn
        &&& !remote.contains(u)
    } by {
        let u = predicted_uploads(local, remote, turn, side)[i];
        assert(ml.contains(u) && !mr.contains(u));
        let k = choose|k: int| 0 <= k < ml.len() && ml[k] == u;
        assert(q.spec_matches(ml[k]));
        lemma_uploads_query_matches(turn, side, u);
        if remote.contains(u) {
            let w = choose|w: int| 0 <= w < remote.len() && remote[w] == u;
            assert(q.spec_matches(remote[w]));
            assert(mr.contains(remote[w]));
        }
    }
    assert forall|j: int| 0 <= j < local.len() && (#[trigger] local[j]).turn.side == side && local[j].turn.number
        >= turn && !remote.contains(local[j]) implies predicted_uploads(local, remote, turn, side).contains(local[j]) by {
        lemma_uploads_query_matches(turn, side, local[j]);
        assert(q.spec_matches(local[j]));
        assert(ml.contains(local[j]));
        let k = choose|k: int| 0 <= k < ml.len() && ml[k] == local[j];
        if mr.contains(local[j]) {
            let w = choose|w: int| 0 <= w < mr.len() && mr[w] == local[j];
            assert(remote.contains(mr[w]));
        }
        assert(!mr.contains(ml[k]));
    }
}

/// A save matches the downloads query exactly when it is of `side` and is
/// either a player's save of turn number `turn` or later, or the start save
/// (no player) of turn number `turn + 1`.
proof fn lemma_downloads_query_matches(turn: u32, side: Side, s: SaveView)
    requires
        turn < u32::MAX,
    ensures
        downloads_query(turn, side).spec_matches(s) == (s.turn.side == side && ((s.player is Some && s.turn.number
            >= turn) || (s.player is None && s.turn.number == turn + 1))),
{
}

/// The saves predicted to download for `side` from turn number `turn` are
/// exactly the saves of remote storage that local storage lacks among the
/// players' saves of that side of turn number `turn` or later and the start
/// save of that side in turn number `turn + 1`.
pub proof fn lemma_downloads_are_the_missing_saves_of_the_turn(
    local: Seq<SaveView>,
    remote: Seq<SaveView>,
    turn: u32,
    side: Side,
)
    requires
        turn < u32::MAX,
    ensures
        forall|i: int| 0 <= i < predicted_downloads(local, remote, turn, side).len() ==> {
            let d = #[trigger] predicted_downloads(local, remote, turn, side)[i];
            &&& remote.contains(d)
            &&& !local.contains(d)
            &&& d.turn.side == side
            &&& (d.player is Some && d.turn.number >= turn) || (d.player is None && d.turn.number == turn + 1)
        },
        forall|j: int| 0 <= j < remote.len() && (#[trigger] remote[j]).turn.side == side && ((remote[j].player is Some
            && remote[j].turn.number >= turn) || (remote[j].player is None && remote[j].turn.number == turn + 1))
            && !local.contains(remote[j]) ==> predicted_downloads(local, remote, turn, side).contains(remote[j]),
{
    let q = downloads_query(turn, side);
    let mr = matching(remote, q);
    let ml = matching(local, q);
    lemma_search_gives_the_matching_saves(local, q);
    lemma_search_gives_the_matching_saves(remote, q);
    lemma_missing_from(mr, ml);
    assert forall|i: int| 0 <= i < predicted_downloads(local, remote, turn, side).len() implies {
        let d = #[trigger] predicted_downloads(local, remote, turn, side)[i];
        &&& remote.contains(d)
        &&& !local.contains(d)
        &&& d.turn.side == side
        &&& (d.player is Some && d.turn.number >= turn) || (d.player is None && d.turn.number == turn + 1)
    } by {
        let d = predicted_downloads(local, remote, turn, side)[i];
        assert(mr.contains(d) && !ml.contains(d));
        let k = choose|k: int| 0 <= k < mr.len() && mr[k] == d;
        assert(q.spec_matches(mr[k]));
        lemma_downloads_query_matches(turn, side, d);
        if local.contains(d) {
            let w = choose|w: int| 0 <= w < local.len() && local[w] == d;
            assert(q.spec_matches(local[w]));
            assert(ml.contains(local[w]));
        }
    }
    assert forall|j: int| 0 <= j < remote.len() && (#[trigger] remote[j]).turn.side == side && ((remote[j].player is Some
        && remote[j].turn.number >= turn) || (remote[j].player is None && remote[j].turn.number == turn + 1))
        && !local.contains(remote[j]) implies predicted_downloads(local, remote, turn, side).contains(remote[j]) by {
        lemma_downloads_query_matches(turn, side, remote[j]);
        assert(q.spec_matches(remote[j]));
        assert(mr.contains(remote[j]));
        let k = choose|k: int| 0 <= k < mr.len() && mr[k] == remote[j];
        if ml.contains(remote[j]) {
            let w = choose|w: int| 0 <= w < ml.len() && ml[w] == remote[j];
            assert(local.contains(ml[w]));
        }
        assert(!ml.contains(mr[k]));
    }
}

/// Remote storage has the start save of `turn` (no player, no part)
/// exactly when one of its saves matches [`start_save_query`].
pub proof fn lemma_start_save_found(saves: Seq<SaveView>, turn: Turn)
    ensures
        (matching(saves, start_save_query(turn)).len() > 0) == saves.contains(start_save(turn)),
{
    let q = start_save_query(turn);
    lemma_search_gives_the_matching_saves(saves, q);
    assert forall|s: SaveView| #[trigger] q.spec_matches(s) == (s == start_save(turn)) by {
        let p1 = ParamView::Side(SideQueryParam { boolean: Bool::Is, side: turn.side });
        let p2 = ParamView::TurnNumber(TurnNumberQueryParam { boolean: Bool::Is, range: TurnNumberRange::Single(turn.number) });
        let p3 = ParamView::Player(TextParamView { boolean: Bool::Is, text: None });
        let p4 = ParamView::Part(TextParamView { boolean: Bool::Is, text: None });
        lemma_restrict_single(p1, empty_sub_query(), s);
        lemma_restrict_single(p2, merge_view(p1, empty_sub_query()), s);
        lemma_restrict_single(p3, merge_view(p2, merge_view(p1, empty_sub_query())), s);
        lemma_restrict_single(p4, merge_view(p3, merge_view(p2, merge_view(p1, empty_sub_query()))), s);
        lemma_new_query_matches_every_save(s);
    }
    if matching(saves, q).len() > 0 {
        assert(q.spec_matches(matching(saves, q)[0]));
    }
    if saves.contains(start_save(turn)) {
        let k = choose|k: int| 0 <= k < saves.len() && saves[k] == start_save(turn);
        assert(q.spec_matches(saves[k]));
        assert(matching(saves, q).contains(saves[k]));
    }
}

} // verus!
