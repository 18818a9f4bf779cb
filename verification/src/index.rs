//! Searching collections of saves with a [`Query`].
use vstd::prelude::*;

pub mod folder;
use crate::query::{Query, QueryView, every_save};
use crate::save::{Save, SaveView, Side};
use crate::turn::turn_index;

verus! {

/// The abstract values of a sequence of saves.
pub open spec fn views(saves: Seq<Save>) -> Seq<SaveView> {
    saves.map_values(|s: Save| s@)
}

/// The saves of `saves` that match `query`, in their order.
pub open spec fn matching(saves: Seq<SaveView>, query: QueryView) -> Seq<SaveView>
    decreases saves.len(),
{
    if saves.len() == 0 {
        Seq::empty()
    } else {
        let rest = matching(saves.drop_last(), query);
        if query.spec_matches(saves.last()) {
            rest.push(saves.last())
        } else {
            rest
        }
    }
}

/// `saves[i]` is the latest save (in the order of play) among those at
/// positions satisfying `eligible`, and the last one of that turn.
pub open spec fn is_latest(saves: Seq<SaveView>, eligible: spec_fn(SaveView) -> bool, i: int) -> bool {
    &&& 0 <= i < saves.len()
    &&& eligible(saves[i])
    &&& forall|j: int|
        0 <= j < saves.len() && eligible(#[trigger] saves[j]) ==> turn_index(saves[j].turn)
            <= turn_index(saves[i].turn)
    &&& forall|j: int|
        i < j < saves.len() && eligible(#[trigger] saves[j]) ==> turn_index(saves[j].turn)
            < turn_index(saves[i].turn)
}

/// `saves[i]` is the earliest save (in the order of play) among those at
/// positions satisfying `eligible`, and the first one of that turn.
pub open spec fn is_earliest(saves: Seq<SaveView>, eligible: spec_fn(SaveView) -> bool, i: int) -> bool {
    &&& 0 <= i < saves.len()
    &&& eligible(saves[i])
    &&& forall|j: int|
        0 <= j < saves.len() && eligible(#[trigger] saves[j]) ==> turn_index(saves[i].turn)
            <= turn_index(saves[j].turn)
    &&& forall|j: int|
        0 <= j < i && eligible(#[trigger] saves[j]) ==> turn_index(saves[i].turn) < turn_index(
            saves[j].turn,
        )
}

/// Some save satisfies `eligible`.
pub open spec fn any(saves: Seq<SaveView>, eligible: spec_fn(SaveView) -> bool) -> bool {
    exists|j: int| 0 <= j < saves.len() && eligible(#[trigger] saves[j])
}

/// The result of a search for the latest or earliest save among `eligible` ones.
pub open spec fn picks(
    saves: Seq<SaveView>,
    eligible: spec_fn(SaveView) -> bool,
    r: Option<Save>,
    latest: bool,
) -> bool {
    match r {
        None => !any(saves, eligible),
        Some(s) => exists|i: int|
            (if latest { is_latest(saves, eligible, i) } else { is_earliest(saves, eligible, i) })
                && #[trigger] saves[i] == s@,
    }
}

/// A save of `side`.
pub open spec fn of_side(side: Side) -> spec_fn(SaveView) -> bool {
    |s: SaveView| s.turn.side == side
}

/// A save matching `query`.
pub open spec fn matched_by(query: QueryView) -> spec_fn(SaveView) -> bool {
    |s: SaveView| query.spec_matches(s)
}

/// The saves of `saves` that match `query`, in order.
pub fn search_saves(saves: &Vec<Save>, query: &Query) -> (r: Vec<Save>)
    ensures
        views(r@) == matching(views(saves@), query@),
{
    let mut r: Vec<Save> = Vec::new();
    let mut i: usize = 0;
    while i < saves.len()
        invariant
            i <= saves@.len(),
            views(r@) == matching(views(saves@).take(i as int), query@),
        decreases saves.len() - i,
    {
        assert(views(saves@).take(i + 1).drop_last() =~= views(saves@).take(i as int));
        if saves[i].matches(query) {
            r.push(saves[i].duplicate());
        }
        i += 1;
        assert(views(r@) =~= matching(views(saves@).take(i as int), query@));
    }
    assert(views(saves@).take(i as int) =~= views(saves@));
    r
}

/// The number of saves of `saves` that match `query`.
pub fn count_saves(saves: &Vec<Save>, query: &Query) -> (r: usize)
    ensures
        r == matching(views(saves@), query@).len(),
{
    let mut n: usize = 0;
    let mut i: usize = 0;
    while i < saves.len()
        invariant
            i <= saves@.len(),
            n == matching(views(saves@).take(i as int), query@).len(),
            n <= i,
        decreases saves.len() - i,
    {
        assert(views(saves@).take(i + 1).drop_last() =~= views(saves@).take(i as int));
        if saves[i].matches(query) {
            n += 1;
        }
        i += 1;
    }
    assert(views(saves@).take(i as int) =~= views(saves@));
    n
}

/// The latest save (in the order of play) of `side`, the last one of that turn.
pub fn latest_save_of(saves: &Vec<Save>, side: Side) -> (r: Option<Save>)
    ensures
        picks(views(saves@), of_side(side), r, true),
{
    let ghost vs = views(saves@);
    let mut best: Option<usize> = None;
    let mut i: usize = 0;
    while i < saves.len()
        invariant
            i <= saves@.len(),
            vs == views(saves@),
            match best {
                None => forall|j: int| 0 <= j < i ==> !(#[trigger] of_side(side)(vs[j])),
                Some(b) => b < i && is_latest(vs.take(i as int), of_side(side), b as int),
            },
        decreases saves.len() - i,
    {
        if saves[i].turn.side == side {
            match best {
                None => {
                    best = Some(i);
                },
                Some(b) => {
                    if saves[i].turn.number >= saves[b].turn.number {
                        best = Some(i);
                    }
                },
            }
        }
        i += 1;
    }
    assert(vs.take(i as int) =~= vs);
    match best {
        None => None,
        Some(b) => Some(saves[b].duplicate()),
    }
}

/// The earliest save (in the order of play) of `side`, the first one of that turn.
pub fn earliest_save_of(saves: &Vec<Save>, side: Side) -> (r: Option<Save>)
    ensures
        picks(views(saves@), of_side(side), r, false),
{
    let ghost vs = views(saves@);
    let mut best: Option<usize> = None;
    let mut i: usize = 0;
    while i < saves.len()
        invariant
            i <= saves@.len(),
            vs == views(saves@),
            match best {
                None => forall|j: int| 0 <= j < i ==> !(#[trigger] of_side(side)(vs[j])),
                Some(b) => b < i && is_earliest(vs.take(i as int), of_side(side), b as int),
            },
        decreases saves.len() - i,
    {
        if saves[i].turn.side == side {
            match best {
                None => {
                    best = Some(i);
                },
                Some(b) => {
                    if saves[i].turn.number < saves[b].turn.number {
                        best = Some(i);
                    }
                },
            }
        }
        i += 1;
    }
    assert(vs.take(i as int) =~= vs);
    match best {
        None => None,
        Some(b) => Some(saves[b].duplicate()),
    }
}

/// The latest save (in the order of play) that matches `query`, the last
/// one of that turn.
pub fn latest_matching(saves: &Vec<Save>, query: &Query) -> (r: Option<Save>)
    ensures
        picks(views(saves@), matched_by(query@), r, true),
{
    let ghost vs = views(saves@);
    let mut best: Option<usize> = None;
    let mut i: usize = 0;
    while i < saves.len()
        invariant
            i <= saves@.len(),
            vs == views(saves@),
            match best {
                None => forall|j: int| 0 <= j < i ==> !(#[trigger] matched_by(query@)(vs[j])),
                Some(b) => b < i && is_latest(vs.take(i as int), matched_by(query@), b as int),
            },
        decreases saves.len() - i,
    {
        if saves[i].matches(query) {
            match best {
                None => {
                    best = Some(i);
                },
                Some(b) => {
                    if !later_turn(&saves[b], &saves[i]) {
                        best = Some(i);
                    }
                },
            }
        }
        i += 1;
    }
    assert(vs.take(i as int) =~= vs);
    match best {
        None => None,
        Some(b) => Some(saves[b].duplicate()),
    }
}

/// `a`'s turn comes after `b`'s turn in the order of play.
fn later_turn(a: &Save, b: &Save) -> (r: bool)
    ensures
        r == (turn_index(a.turn) > turn_index(b.turn)),
{
    a.turn.number > b.turn.number || (a.turn.number == b.turn.number && a.turn.side
        == Side::Allies && b.turn.side == Side::Axis)
}

/// A searchable collection of saves.
pub trait Index {
    /// The saves of the collection.
    spec fn indexed(&self) -> Seq<Save>;

    /// The saves of the collection, in their order.
    fn saves(&self) -> (r: &Vec<Save>)
        ensures
            r@ == self.indexed(),
    ;

    /// The saves that match `query`, in order.
    fn search(&self, query: &Query) -> (r: Vec<Save>)
        ensures
            views(r@) == matching(views(self.indexed()), query@),
    {
        search_saves(self.saves(), query)
    }

    /// The number of saves that match `query`.
    fn count(&self, query: &Query) -> (r: usize)
        ensures
            r == matching(views(self.indexed()), query@).len(),
    {
        count_saves(self.saves(), query)
    }

    /// The latest save of `side`, if there is one.
    fn latest_save(&self, side: Side) -> (r: Option<Save>)
        ensures
            picks(views(self.indexed()), of_side(side), r, true),
    {
        latest_save_of(self.saves(), side)
    }

    /// The earliest save of `side`, if there is one.
    fn earliest_save(&self, side: Side) -> (r: Option<Save>)
        ensures
            picks(views(self.indexed()), of_side(side), r, false),
    {
        earliest_save_of(self.saves(), side)
    }

    /// The latest save that matches `query`, if there is one.
    fn latest(&self, query: &Query) -> (r: Option<Save>)
        ensures
            picks(views(self.indexed()), matched_by(query@), r, true),
    {
        latest_matching(self.saves(), query)
    }
}

/// Searches a plain list of saves.
#[derive(Debug, Clone)]
pub struct MockIndex {
    saves: Vec<Save>,
}

/// Copies of all saves of `saves`.
pub fn copy_saves(saves: &[Save]) -> (r: Vec<Save>)
    ensures
        views(r@) == views(saves@),
{
    let mut r: Vec<Save> = Vec::new();
    let mut i: usize = 0;
    while i < saves.len()
        invariant
            i <= saves@.len(),
            r@.len() == i,
            forall|k: int| 0 <= k < i ==> #[trigger] r@[k]@ == saves@[k]@,
        decreases saves.len() - i,
    {
        r.push(saves[i].duplicate());
        i += 1;
    }
    assert(views(r@) =~= views(saves@));
    r
}

impl MockIndex {
    /// An index of copies of `saves`.
    pub fn new(saves: &[Save]) -> (r: MockIndex)
        ensures
            views(r.indexed()) == views(saves@),
    {
        MockIndex { saves: copy_saves(saves) }
    }
}

impl Index for MockIndex {
    closed spec fn indexed(&self) -> Seq<Save> {
        self.saves@
    }

    fn saves(&self) -> (r: &Vec<Save>) {
        &self.saves
    }
}

/// A search gives exactly the saves that match: each save it gives matches
/// and is one of the saves searched, and each save searched that matches is
/// among those it gives.
pub proof fn lemma_search_gives_the_matching_saves(saves: Seq<SaveView>, query: QueryView)
    ensures
        matching(saves, query).len() <= saves.len(),
        forall|i: int| 0 <= i < matching(saves, query).len() ==> query.spec_matches(#[trigger] matching(saves, query)[i])
            && saves.contains(matching(saves, query)[i]),
        forall|j: int| 0 <= j < saves.len() && query.spec_matches(#[trigger] saves[j]) ==> matching(saves, query).contains(saves[j]),
    decreases saves.len(),
{
    if saves.len() > 0 {
        let rest = saves.drop_last();
        lemma_search_gives_the_matching_saves(rest, query);
        let m = matching(saves, query);
        let mr = matching(rest, query);
        assert forall|i: int| 0 <= i < m.len() implies query.spec_matches(#[trigger] m[i]) && saves.contains(m[i]) by {
            if i < mr.len() {
                assert(m[i] == mr[i]);
                let k = choose|k: int| 0 <= k < rest.len() && rest[k] == mr[i];
                assert(saves[k] == rest[k]);
            } else {
                assert(m[i] == saves.last());
                assert(saves[saves.len() - 1] == saves.last());
            }
        }
        assert forall|j: int| 0 <= j < saves.len() && query.spec_matches(#[trigger] saves[j]) implies m.contains(saves[j]) by {
            if j < saves.len() - 1 {
                assert(rest[j] == saves[j]);
                let k = choose|k: int| 0 <= k < mr.len() && mr[k] == rest[j];
                assert(m[k] == mr[k]);
            } else {
                assert(m[m.len() - 1] == saves.last());
            }
        }
    }
}

/// Searching with a new query gives every save.
pub proof fn lemma_new_query_finds_every_save(saves: Seq<SaveView>)
    ensures
        matching(saves, every_save()) == saves,
    decreases saves.len(),
{
    if saves.len() > 0 {
        lemma_new_query_finds_every_save(saves.drop_last());
        assert(saves.drop_last().push(saves.last()) =~= saves);
    }
}

} // verus!
