//! Queries select saves by turn number, side, player, part and turn.
//!
//! A [`Query`] is built from [`Query::new`], which matches every save, with
//! builder methods such as [`Query::side`], [`Query::or_player`] or
//! [`Query::and_not_turn_number`].  Plain methods restrict the first group
//! of conditions; `or_` and `and_` methods start or extend a second group
//! that is joined to the first by that condition.
use vstd::prelude::*;
use crate::save::{opt_view, Save, SaveView, Side, copy_opt, opt_str_eq};
use crate::text::push_str;
use crate::turn::Turn;

verus! {

/// Whether a condition is taken as it is or negated.
#[derive(Debug, Clone, Copy, PartialEq, Eq, Structural)]
pub enum Bool {
    Is,
    Not,
}

impl Bool {
    /// `b`, negated when this is [`Bool::Not`].
    pub open spec fn spec_apply(self, b: bool) -> bool {
        match self {
            Bool::Is => b,
            Bool::Not => !b,
        }
    }

    /// The other of the two.
    pub open spec fn spec_inverse(self) -> Bool {
        match self {
            Bool::Is => Bool::Not,
            Bool::Not => Bool::Is,
        }
    }

    /// Applies this to `boolean`, negating it if this is [`Bool::Not`].
    pub fn apply(&self, boolean: bool) -> (r: bool)
        ensures
            r == self.spec_apply(boolean),
    {
        match self {
            Bool::Is => boolean,
            Bool::Not => !boolean,
        }
    }

    /// Inverts this boolean.
    pub fn inverse(&self) -> (r: Bool)
        ensures
            r == self.spec_inverse(),
            r != *self,
    {
        match self {
            Bool::Is => Bool::Not,
            Bool::Not => Bool::Is,
        }
    }
}

impl Default for Bool {
    fn default() -> (r: Bool)
        ensures
            r == Bool::Is,
    {
        Bool::Is
    }
}

/// How two groups of conditions are joined: the second group is taken as it
/// is or negated, then joined by "and" or "or".
#[derive(Debug, Clone, Copy, PartialEq, Eq, Structural)]
pub enum LogicalCondition {
    And(Bool),
    Or(Bool),
}

/// Joins the results of two groups of conditions.
pub open spec fn combine(op: LogicalCondition, a: bool, b: bool) -> bool {
    match op {
        LogicalCondition::And(negate) => a && negate.spec_apply(b),
        LogicalCondition::Or(negate) => a || negate.spec_apply(b),
    }
}

/// The range of turn numbers a query looks for; bounds are inclusive.
#[derive(Debug, Clone, Copy, PartialEq, Eq, Structural)]
pub enum TurnNumberRange {
    Single(u32),
    Inclusive(u32, u32),
    LowerBounded(u32),
    UpperBounded(u32),
    Unbounded,
}

impl TurnNumberRange {
    /// The turn number `n` lies in this range.
    pub open spec fn spec_contains(self, n: u32) -> bool {
        match self {
            TurnNumberRange::Single(a) => n == a,
            TurnNumberRange::Inclusive(a, b) => a <= n && n <= b,
            TurnNumberRange::LowerBounded(a) => a <= n,
            TurnNumberRange::UpperBounded(b) => n <= b,
            TurnNumberRange::Unbounded => true,
        }
    }

    /// The range between optional inclusive bounds; a missing bound leaves
    /// that side open.
    pub open spec fn spec_from_start_end(start: Option<u32>, end: Option<u32>) -> TurnNumberRange {
        match (start, end) {
            (Some(a), Some(b)) => TurnNumberRange::Inclusive(a, b),
            (Some(a), None) => TurnNumberRange::LowerBounded(a),
            (None, Some(b)) => TurnNumberRange::UpperBounded(b),
            (None, None) => TurnNumberRange::Unbounded,
        }
    }

    /// The range between optional inclusive bounds.
    pub fn from_start_end(start: Option<u32>, end: Option<u32>) -> (r: TurnNumberRange)
        ensures
            r == Self::spec_from_start_end(start, end),
    {
        match (start, end) {
            (Some(a), Some(b)) => TurnNumberRange::Inclusive(a, b),
            (Some(a), None) => TurnNumberRange::LowerBounded(a),
            (None, Some(b)) => TurnNumberRange::UpperBounded(b),
            (None, None) => TurnNumberRange::Unbounded,
        }
    }

    /// Whether the turn number `n` lies in this range.
    pub fn contains(&self, n: u32) -> (r: bool)
        ensures
            r == self.spec_contains(n),
    {
        match *self {
            TurnNumberRange::Single(a) => n == a,
            TurnNumberRange::Inclusive(a, b) => a <= n && n <= b,
            TurnNumberRange::LowerBounded(a) => a <= n,
            TurnNumberRange::UpperBounded(b) => n <= b,
            TurnNumberRange::Unbounded => true,
        }
    }
}

/// Looks for saves whose turn number lies (or, negated, does not lie) in a range.
#[derive(Debug, Clone, Copy, PartialEq, Eq, Structural)]
pub struct TurnNumberQueryParam {
    pub boolean: Bool,
    pub range: TurnNumberRange,
}

impl TurnNumberQueryParam {
    /// Looks for one turn number.
    pub fn single(boolean: Bool, n: u32) -> (r: TurnNumberQueryParam)
        ensures
            r == (TurnNumberQueryParam { boolean, range: TurnNumberRange::Single(n) }),
    {
        TurnNumberQueryParam { boolean, range: TurnNumberRange::Single(n) }
    }

    /// Looks for turn numbers between optional inclusive bounds.
    pub fn from_start_end(boolean: Bool, start: Option<u32>, end: Option<u32>) -> (r:
        TurnNumberQueryParam)
        ensures
            r == (TurnNumberQueryParam {
                boolean,
                range: TurnNumberRange::spec_from_start_end(start, end),
            }),
    {
        TurnNumberQueryParam { boolean, range: TurnNumberRange::from_start_end(start, end) }
    }

    pub open spec fn spec_matches(self, n: u32) -> bool {
        self.boolean.spec_apply(self.range.spec_contains(n))
    }

    /// Whether the turn number `n` satisfies this condition.
    pub fn matches(&self, n: u32) -> (r: bool)
        ensures
            r == self.spec_matches(n),
    {
        self.boolean.apply(self.range.contains(n))
    }
}

/// Looks for saves of (or, negated, not of) one side.
#[derive(Debug, Clone, Copy, PartialEq, Eq, Structural)]
pub struct SideQueryParam {
    pub boolean: Bool,
    pub side: Side,
}

impl SideQueryParam {
    /// Looks for saves of `side`.
    pub fn from_side(side: Side, boolean: Bool) -> (r: SideQueryParam)
        ensures
            r == (SideQueryParam { boolean, side }),
    {
        SideQueryParam { boolean, side }
    }

    pub open spec fn spec_matches(self, side: Side) -> bool {
        self.boolean.spec_apply(self.side == side)
    }

    /// Whether a save of `side` satisfies this condition.
    pub fn matches(&self, side: Side) -> (r: bool)
        ensures
            r == self.spec_matches(side),
    {
        self.boolean.apply(self.side == side)
    }
}

/// The abstract value of a condition on a text of a save.
pub struct TextParamView {
    pub boolean: Bool,
    pub text: Option<Seq<char>>,
}

impl TextParamView {
    pub open spec fn spec_matches(self, text: Option<Seq<char>>) -> bool {
        self.boolean.spec_apply(self.text == text)
    }
}

/// The characters of an optional string slice.
pub open spec fn opt_str_view(s: Option<&str>) -> Option<Seq<char>> {
    match s {
        Some(t) => Some(t@),
        None => None,
    }
}

/// An owned copy of an optional string slice.
fn owned(s: Option<&str>) -> (r: Option<String>)
    ensures
        opt_view(r) == opt_str_view(s),
{
    match s {
        Some(t) => {
            let mut o = String::new();
            push_str(&mut o, t);
            Some(o)
        },
        None => None,
    }
}

/// Looks for saves made by (or, negated, not by) a player; `None` stands
/// for turn start saves, which have no player.
#[derive(Debug, Clone, PartialEq)]
pub struct PlayerQueryParam {
    pub boolean: Bool,
    pub player: Option<String>,
}

impl View for PlayerQueryParam {
    type V = TextParamView;

    open spec fn view(&self) -> TextParamView {
        TextParamView { boolean: self.boolean, text: opt_view(self.player) }
    }
}

impl PlayerQueryParam {
    /// Whether a save made by `player` satisfies this condition.
    pub fn matches(&self, player: &Option<String>) -> (r: bool)
        ensures
            r == self@.spec_matches(opt_view(*player)),
    {
        self.boolean.apply(opt_str_eq(&self.player, player))
    }

    fn duplicate(&self) -> (r: PlayerQueryParam)
        ensures
            r@ == self@,
    {
        PlayerQueryParam { boolean: self.boolean, player: copy_opt(&self.player) }
    }
}

/// Looks for saves of (or, negated, not of) a part of a turn; `None` stands
/// for saves that are not split into parts.
#[derive(Debug, Clone, PartialEq)]
pub struct PartQueryParam {
    pub boolean: Bool,
    pub part: Option<String>,
}

impl View for PartQueryParam {
    type V = TextParamView;

    open spec fn view(&self) -> TextParamView {
        TextParamView { boolean: self.boolean, text: opt_view(self.part) }
    }
}

impl PartQueryParam {
    /// Looks for saves of the given part.
    pub fn from_side(part: Option<&str>, boolean: Bool) -> (r: PartQueryParam)
        ensures
            r@ == (TextParamView { boolean, text: opt_str_view(part) }),
    {
        PartQueryParam { boolean, part: owned(part) }
    }

    /// Whether a save of `part` satisfies this condition.
    pub fn matches(&self, part: &Option<String>) -> (r: bool)
        ensures
            r == self@.spec_matches(opt_view(*part)),
    {
        self.boolean.apply(opt_str_eq(&self.part, part))
    }

    fn duplicate(&self) -> (r: PartQueryParam)
        ensures
            r@ == self@,
    {
        PartQueryParam { boolean: self.boolean, part: copy_opt(&self.part) }
    }
}

/// How a turn condition compares the save's turn with its own turn.
#[derive(Debug, Clone, Copy, PartialEq, Eq, Structural)]
pub enum TurnOrdering {
    /// The save's turn is this turn.
    Equal,
    /// The save's turn is this turn or a later turn of the same side.
    Greater,
    /// The save's turn is this turn or an earlier turn of the same side.
    Less,
}

/// Looks for saves of (or, negated, not of) a turn, or of the same side's
/// turns from a turn on, or of the same side's turns up to a turn.
#[derive(Debug, Clone, Copy, PartialEq, Eq, Structural)]
pub struct TurnQueryParam {
    pub order: TurnOrdering,
    pub turn: Turn,
    pub boolean: Bool,
}

impl TurnQueryParam {
    pub open spec fn spec_matches(self, t: Turn) -> bool {
        let holds = match self.order {
            TurnOrdering::Equal => t == self.turn,
            TurnOrdering::Greater => t.side == self.turn.side && t.number >= self.turn.number,
            TurnOrdering::Less => t.side == self.turn.side && t.number <= self.turn.number,
        };
        self.boolean.spec_apply(holds)
    }

    /// Whether a save of turn `t` satisfies this condition.
    pub fn matches(&self, t: Turn) -> (r: bool)
        ensures
            r == self.spec_matches(t),
    {
        let holds = match self.order {
            TurnOrdering::Equal => t == self.turn,
            TurnOrdering::Greater => t.side == self.turn.side && t.number >= self.turn.number,
            TurnOrdering::Less => t.side == self.turn.side && t.number <= self.turn.number,
        };
        self.boolean.apply(holds)
    }
}

/// The abstract value of a [`SubQuery`].
pub struct SubQueryView {
    pub boolean: Bool,
    pub turn_number: Option<TurnNumberQueryParam>,
    pub side: Option<SideQueryParam>,
    pub player: Option<TextParamView>,
    pub part: Option<TextParamView>,
    pub turn: Option<TurnQueryParam>,
}

/// A group of conditions that all have to hold (the whole group may be
/// negated).  A condition that is `None` holds for every save.
#[derive(Debug, Clone, PartialEq)]
pub struct SubQuery {
    pub boolean: Bool,
    /// match the turn number either exactly or within a range
    pub turn_number: Option<TurnNumberQueryParam>,
    /// match the side
    pub side: Option<SideQueryParam>,
    /// match the player; `Some` of a condition on `None` matches turn start saves
    pub player: Option<PlayerQueryParam>,
    /// match the part; `Some` of a condition on `None` matches saves without parts
    pub part: Option<PartQueryParam>,
    /// match the turn
    pub turn: Option<TurnQueryParam>,
}

pub open spec fn opt_param_view<P: View>(p: Option<P>) -> Option<P::V> {
    match p {
        Some(x) => Some(x@),
        None => None,
    }
}

impl View for SubQuery {
    type V = SubQueryView;

    open spec fn view(&self) -> SubQueryView {
        SubQueryView {
            boolean: self.boolean,
            turn_number: self.turn_number,
            side: self.side,
            player: opt_param_view(self.player),
            part: opt_param_view(self.part),
            turn: self.turn,
        }
    }
}

/// The group of conditions that holds for every save.
pub open spec fn empty_sub_query() -> SubQueryView {
    SubQueryView { boolean: Bool::Is, turn_number: None, side: None, player: None, part: None, turn: None }
}

impl SubQueryView {
    /// Whether the save `s` satisfies this group of conditions.
    pub open spec fn spec_matches(self, s: SaveView) -> bool {
        let turn_number_ok = match self.turn_number {
            Some(p) => p.spec_matches(s.turn.number),
            None => true,
        };
        let side_ok = match self.side {
            Some(p) => p.spec_matches(s.turn.side),
            None => true,
        };
        let player_ok = match self.player {
            Some(p) => p.spec_matches(s.player),
            None => true,
        };
        let part_ok = match self.part {
            Some(p) => p.spec_matches(s.part),
            None => true,
        };
        let turn_ok = match self.turn {
            Some(p) => p.spec_matches(s.turn),
            None => true,
        };
        self.boolean.spec_apply(turn_number_ok && side_ok && player_ok && part_ok && turn_ok)
    }
}

impl SubQuery {
    /// The group of conditions that holds for every save.
    pub fn new() -> (r: SubQuery)
        ensures
            r@ == empty_sub_query(),
    {
        SubQuery { boolean: Bool::Is, turn_number: None, side: None, player: None, part: None, turn: None }
    }

    fn duplicate(&self) -> (r: SubQuery)
        ensures
            r@ == self@,
    {
        SubQuery {
            boolean: self.boolean,
            turn_number: self.turn_number,
            side: self.side,
            player: match &self.player {
                Some(p) => Some(p.duplicate()),
                None => None,
            },
            part: match &self.part {
                Some(p) => Some(p.duplicate()),
                None => None,
            },
            turn: self.turn,
        }
    }
}

impl Default for SubQuery {
    fn default() -> (r: SubQuery)
        ensures
            r@ == empty_sub_query(),
    {
        SubQuery::new()
    }
}

/// The abstract value of a [`Query`].
#[allow(inconsistent_fields)]
pub enum QueryView {
    Single { boolean: Bool, sub_query: SubQueryView },
    Compound { boolean: Bool, a: SubQueryView, op: LogicalCondition, b: SubQueryView },
    Nested { boolean: Bool, a: Box<QueryView>, op: LogicalCondition, b: Box<QueryView> },
}

/// Used to search for saves by conditions on the turn, side, player and part
/// of the save.  It is the input to [`Index`](crate::index::Index) searches.
#[allow(inconsistent_fields)]
#[derive(Debug, PartialEq)]
pub enum Query {
    Single { boolean: Bool, sub_query: SubQuery },
    Compound { boolean: Bool, a: SubQuery, op: LogicalCondition, b: SubQuery },
    Nested { boolean: Bool, a: Box<Query>, op: LogicalCondition, b: Box<Query> },
}

pub open spec fn query_view(q: Query) -> QueryView
    decreases q,
{
    match q {
        Query::Single { boolean, sub_query } => QueryView::Single { boolean, sub_query: sub_query@ },
        Query::Compound { boolean, a, op, b } => QueryView::Compound { boolean, a: a@, op, b: b@ },
        Query::Nested { boolean, a, op, b } => QueryView::Nested {
            boolean,
            a: Box::new(query_view(*a)),
            op,
            b: Box::new(query_view(*b)),
        },
    }
}

impl View for Query {
    type V = QueryView;

    open spec fn view(&self) -> QueryView {
        query_view(*self)
    }
}

impl Query {
    /// A copy of this query.
    pub fn duplicate(&self) -> (r: Query)
        ensures
            r@ == self@,
        decreases self,
    {
        match self {
            Query::Single { boolean, sub_query } => Query::Single { boolean: *boolean, sub_query: sub_query.duplicate() },
            Query::Compound { boolean, a, op, b } => Query::Compound {
                boolean: *boolean,
                a: a.duplicate(),
                op: *op,
                b: b.duplicate(),
            },
            Query::Nested { boolean, a, op, b } => Query::Nested {
                boolean: *boolean,
                a: Box::new(a.duplicate()),
                op: *op,
                b: Box::new(b.duplicate()),
            },
        }
    }
}

impl Clone for Query {
    /// A copy of this query, see [`Query::duplicate`].
    fn clone(&self) -> (r: Query)
        ensures
            r@ == self@,
    {
        self.duplicate()
    }
}

impl QueryView {
    /// Whether the save `s` matches this query.
    pub open spec fn spec_matches(self, s: SaveView) -> bool
        decreases self,
    {
        match self {
            QueryView::Single { boolean, sub_query } => boolean.spec_apply(sub_query.spec_matches(s)),
            QueryView::Compound { boolean, a, op, b } => boolean.spec_apply(
                combine(op, a.spec_matches(s), b.spec_matches(s)),
            ),
            QueryView::Nested { boolean, a, op, b } => boolean.spec_apply(
                combine(op, a.spec_matches(s), b.spec_matches(s)),
            ),
        }
    }
}

impl Save {
    /// Whether this save satisfies a group of conditions.
    pub fn matches_sub_query(&self, sub_query: &SubQuery) -> (r: bool)
        ensures
            r == sub_query@.spec_matches(self@),
    {
        let turn_number_matches = match &sub_query.turn_number {
            Some(param) => param.matches(self.turn.number),
            None => true,
        };
        let side_matches = match &sub_query.side {
            Some(param) => param.matches(self.turn.side),
            None => true,
        };
        let player_matches = match &sub_query.player {
            Some(param) => param.matches(&self.player),
            None => true,
        };
        let part_matches = match &sub_query.part {
            Some(param) => param.matches(&self.part),
            None => true,
        };
        let turn_matches = match &sub_query.turn {
            Some(param) => param.matches(self.turn),
            None => true,
        };
        let all = turn_number_matches && side_matches && player_matches && part_matches
            && turn_matches;
        sub_query.boolean.apply(all)
    }

    /// Whether this save matches `query`.
    pub fn matches(&self, query: &Query) -> (r: bool)
        ensures
            r == query@.spec_matches(self@),
        decreases query,
    {
        match query {
            Query::Single { boolean, sub_query } => boolean.apply(self.matches_sub_query(sub_query)),
            Query::Compound { boolean, a, op, b } => {
                let x = self.matches_sub_query(a);
                let y = self.matches_sub_query(b);
                boolean.apply(combine_exec(*op, x, y))
            },
            Query::Nested { boolean, a, op, b } => {
                let x = self.matches(a);
                let y = self.matches(b);
                boolean.apply(combine_exec(*op, x, y))
            },
        }
    }
}

fn combine_exec(op: LogicalCondition, a: bool, b: bool) -> (r: bool)
    ensures
        r == combine(op, a, b),
{
    match op {
        LogicalCondition::And(negate) => a && negate.apply(b),
        LogicalCondition::Or(negate) => a || negate.apply(b),
    }
}


/// The abstract value of one condition added by a builder method.
pub enum ParamView {
    TurnNumber(TurnNumberQueryParam),
    Side(SideQueryParam),
    Player(TextParamView),
    Part(TextParamView),
    Turn(TurnQueryParam),
}

/// One condition added by a builder method.
enum Param {
    TurnNumber(TurnNumberQueryParam),
    Side(SideQueryParam),
    Player(PlayerQueryParam),
    Part(PartQueryParam),
    Turn(TurnQueryParam),
}

impl View for Param {
    type V = ParamView;

    closed spec fn view(&self) -> ParamView {
        match *self {
            Param::TurnNumber(p) => ParamView::TurnNumber(p),
            Param::Side(p) => ParamView::Side(p),
            Param::Player(p) => ParamView::Player(p@),
            Param::Part(p) => ParamView::Part(p@),
            Param::Turn(p) => ParamView::Turn(p),
        }
    }
}

/// `sq` with the condition `p` set (replacing a condition of the same kind).
pub open spec fn merge_view(p: ParamView, sq: SubQueryView) -> SubQueryView {
    match p {
        ParamView::TurnNumber(x) => SubQueryView { turn_number: Some(x), ..sq },
        ParamView::Side(x) => SubQueryView { side: Some(x), ..sq },
        ParamView::Player(x) => SubQueryView { player: Some(x), ..sq },
        ParamView::Part(x) => SubQueryView { part: Some(x), ..sq },
        ParamView::Turn(x) => SubQueryView { turn: Some(x), ..sq },
    }
}

/// The group holding only the condition `p`.
pub open spec fn new_sub_query_view(p: ParamView) -> SubQueryView {
    merge_view(p, empty_sub_query())
}

/// A query joining `q` with the single condition `p` by `op`.
pub open spec fn nest_view(p: ParamView, op: LogicalCondition, q: QueryView) -> QueryView {
    QueryView::Nested {
        boolean: Bool::Is,
        a: Box::new(q),
        op,
        b: Box::new(QueryView::Single { boolean: Bool::Is, sub_query: new_sub_query_view(p) }),
    }
}

/// `q` restricted by `p`: the condition is set in the single or first group.
pub open spec fn apply_view(p: ParamView, q: QueryView) -> QueryView {
    match q {
        QueryView::Single { boolean, sub_query } => QueryView::Single {
            boolean,
            sub_query: merge_view(p, sub_query),
        },
        QueryView::Compound { boolean, a, op, b } => QueryView::Compound {
            boolean,
            a: merge_view(p, a),
            op,
            b,
        },
        QueryView::Nested { .. } => nest_view(p, LogicalCondition::And(Bool::Is), q),
    }
}

/// `q` joined with `p` by `op`: a single group becomes the first of two
/// groups, the second holding `p`; of two groups, the second gets `p` and
/// the groups are joined by `op`.
pub open spec fn apply_joined_view(p: ParamView, op: LogicalCondition, q: QueryView) -> QueryView {
    match q {
        QueryView::Single { boolean, sub_query } => QueryView::Compound {
            boolean,
            a: sub_query,
            op,
            b: new_sub_query_view(p),
        },
        QueryView::Compound { boolean, a, op: _, b } => QueryView::Compound {
            boolean,
            a,
            op,
            b: merge_view(p, b),
        },
        QueryView::Nested { .. } => nest_view(p, op, q),
    }
}

/// The "or" of two groups, the second taken as it is.
pub open spec fn or_op() -> LogicalCondition {
    LogicalCondition::Or(Bool::Is)
}

/// The "and" of two groups, the second taken as it is.
pub open spec fn and_op() -> LogicalCondition {
    LogicalCondition::And(Bool::Is)
}

fn merge_into(p: Param, sq: SubQuery) -> (r: SubQuery)
    ensures
        r@ == merge_view(p@, sq@),
{
    match p {
        Param::TurnNumber(x) => SubQuery { turn_number: Some(x), ..sq },
        Param::Side(x) => SubQuery { side: Some(x), ..sq },
        Param::Player(x) => SubQuery { player: Some(x), ..sq },
        Param::Part(x) => SubQuery { part: Some(x), ..sq },
        Param::Turn(x) => SubQuery { turn: Some(x), ..sq },
    }
}

fn nest(p: Param, op: LogicalCondition, q: Query) -> (r: Query)
    ensures
        r@ == nest_view(p@, op, q@),
{
    let single = Query::Single { boolean: Bool::Is, sub_query: merge_into(p, SubQuery::new()) };
    assert(single@ == QueryView::Single { boolean: Bool::Is, sub_query: new_sub_query_view(p@) });
    Query::Nested { boolean: Bool::Is, a: Box::new(q), op, b: Box::new(single) }
}

fn apply(p: Param, q: Query) -> (r: Query)
    ensures
        r@ == apply_view(p@, q@),
{
    match q {
        Query::Single { boolean, sub_query } => Query::Single {
            boolean,
            sub_query: merge_into(p, sub_query),
        },
        Query::Compound { boolean, a, op, b } => Query::Compound { boolean, a: merge_into(p, a), op, b },
        Query::Nested { .. } => nest(p, LogicalCondition::And(Bool::Is), q),
    }
}

fn apply_joined(p: Param, op: LogicalCondition, q: Query) -> (r: Query)
    ensures
        r@ == apply_joined_view(p@, op, q@),
{
    match q {
        Query::Single { boolean, sub_query } => Query::Compound {
            boolean,
            a: sub_query,
            op,
            b: merge_into(p, SubQuery::new()),
        },
        Query::Compound { boolean, a, op: _, b } => Query::Compound {
            boolean,
            a,
            op,
            b: merge_into(p, b),
        },
        Query::Nested { .. } => nest(p, op, q),
    }
}

impl Query {
    /// The query that matches every save.
    pub fn new() -> (r: Query)
        ensures
            r@ == (QueryView::Single { boolean: Bool::Is, sub_query: empty_sub_query() }),
    {
        Query::Single { boolean: Bool::Is, sub_query: SubQuery::new() }
    }

    /// The query that matches exactly the saves this query does not match.
    /// (`_other` is not used.)
    pub fn not(self, _other: Query) -> (r: Query)
        ensures
            r@ == negated(self@),
            forall|s: SaveView| #[trigger] r@.spec_matches(s) == !self@.spec_matches(s),
    {
        match self {
            Query::Single { boolean, sub_query } => Query::Single { boolean: boolean.inverse(), sub_query },
            Query::Compound { boolean, a, op, b } => Query::Compound {
                boolean: boolean.inverse(),
                a,
                op,
                b,
            },
            Query::Nested { boolean, a, op, b } => Query::Nested { boolean: boolean.inverse(), a, op, b },
        }
    }

    /// The query joining this query and `other` by `op`.
    fn joined(self, op: LogicalCondition, other: Query) -> (r: Query)
        ensures
            r@ == (QueryView::Nested { boolean: Bool::Is, a: Box::new(self@), op, b: Box::new(other@) }),
    {
        Query::Nested { boolean: Bool::Is, a: Box::new(self), op, b: Box::new(other) }
    }

    /// Matches the saves that match this query or `other`.
    pub fn or(self, other: Query) -> (r: Query)
        ensures
            r@ == (QueryView::Nested { boolean: Bool::Is, a: Box::new(self@), op: or_op(), b: Box::new(other@) }),
    {
        self.joined(LogicalCondition::Or(Bool::Is), other)
    }

    /// Matches the saves that match both this query and `other`.
    pub fn and(self, other: Query) -> (r: Query)
        ensures
            r@ == (QueryView::Nested { boolean: Bool::Is, a: Box::new(self@), op: and_op(), b: Box::new(other@) }),
    {
        self.joined(LogicalCondition::And(Bool::Is), other)
    }

    /// Matches the saves that match this query or do not match `other`.
    pub fn or_not(self, other: Query) -> (r: Query)
        ensures
            r@ == (QueryView::Nested {
                boolean: Bool::Is,
                a: Box::new(self@),
                op: LogicalCondition::Or(Bool::Not),
                b: Box::new(other@),
            }),
    {
        self.joined(LogicalCondition::Or(Bool::Not), other)
    }

    /// Matches the saves that match this query but not `other`.
    pub fn and_not(self, other: Query) -> (r: Query)
        ensures
            r@ == (QueryView::Nested {
                boolean: Bool::Is,
                a: Box::new(self@),
                op: LogicalCondition::And(Bool::Not),
                b: Box::new(other@),
            }),
    {
        self.joined(LogicalCondition::And(Bool::Not), other)
    }

    /// Search for a particular part.
    pub fn part(self, part: Option<&str>) -> (r: Query)
        ensures
            r@ == apply_view(ParamView::Part(TextParamView { boolean: Bool::Is, text: opt_str_view(part) }), self@),
    {
        apply(Param::Part(PartQueryParam { boolean: Bool::Is, part: owned(part) }), self)
    }

    /// Or search for a particular part.
    pub fn or_part(self, part: Option<&str>) -> (r: Query)
        ensures
            r@ == apply_joined_view(ParamView::Part(TextParamView { boolean: Bool::Is, text: opt_str_view(part) }), or_op(), self@),
    {
        apply_joined(Param::Part(PartQueryParam { boolean: Bool::Is, part: owned(part) }), LogicalCondition::Or(Bool::Is), self)
    }

    /// And search for a particular part.
    pub fn and_part(self, part: Option<&str>) -> (r: Query)
        ensures
            r@ == apply_joined_view(ParamView::Part(TextParamView { boolean: Bool::Is, text: opt_str_view(part) }), and_op(), self@),
    {
        apply_joined(Param::Part(PartQueryParam { boolean: Bool::Is, part: owned(part) }), LogicalCondition::And(Bool::Is), self)
    }

    /// Search for any other part.
    pub fn not_part(self, part: Option<&str>) -> (r: Query)
        ensures
            r@ == apply_view(ParamView::Part(TextParamView { boolean: Bool::Not, text: opt_str_view(part) }), self@),
    {
        apply(Param::Part(PartQueryParam { boolean: Bool::Not, part: owned(part) }), self)
    }

    /// Or search for any other part.
    pub fn or_not_part(self, part: Option<&str>) -> (r: Query)
        ensures
            r@ == apply_joined_view(ParamView::Part(TextParamView { boolean: Bool::Not, text: opt_str_view(part) }), or_op(), self@),
    {
        apply_joined(Param::Part(PartQueryParam { boolean: Bool::Not, part: owned(part) }), LogicalCondition::Or(Bool::Is), self)
    }

    /// And search for any other part.
    pub fn and_not_part(self, part: Option<&str>) -> (r: Query)
        ensures
            r@ == apply_joined_view(ParamView::Part(TextParamView { boolean: Bool::Not, text: opt_str_view(part) }), and_op(), self@),
    {
        apply_joined(Param::Part(PartQueryParam { boolean: Bool::Not, part: owned(part) }), LogicalCondition::And(Bool::Is), self)
    }

    /// Search for a particular player.
    pub fn player(self, player: Option<&str>) -> (r: Query)
        ensures
            r@ == apply_view(ParamView::Player(TextParamView { boolean: Bool::Is, text: opt_str_view(player) }), self@),
    {
        apply(Param::Player(PlayerQueryParam { boolean: Bool::Is, player: owned(player) }), self)
    }

    /// Or search for a particular player.
    pub fn or_player(self, player: Option<&str>) -> (r: Query)
        ensures
            r@ == apply_joined_view(ParamView::Player(TextParamView { boolean: Bool::Is, text: opt_str_view(player) }), or_op(), self@),
    {
        apply_joined(Param::Player(PlayerQueryParam { boolean: Bool::Is, player: owned(player) }), LogicalCondition::Or(Bool::Is), self)
    }

    /// And search for a particular player.
    pub fn and_player(self, player: Option<&str>) -> (r: Query)
        ensures
            r@ == apply_joined_view(ParamView::Player(TextParamView { boolean: Bool::Is, text: opt_str_view(player) }), and_op(), self@),
    {
        apply_joined(Param::Player(PlayerQueryParam { boolean: Bool::Is, player: owned(player) }), LogicalCondition::And(Bool::Is), self)
    }

    /// Search for any other player.
    pub fn not_player(self, player: Option<&str>) -> (r: Query)
        ensures
            r@ == apply_view(ParamView::Player(TextParamView { boolean: Bool::Not, text: opt_str_view(player) }), self@),
    {
        apply(Param::Player(PlayerQueryParam { boolean: Bool::Not, player: owned(player) }), self)
    }

    /// Or search for any other player.
    pub fn or_not_player(self, player: Option<&str>) -> (r: Query)
        ensures
            r@ == apply_joined_view(ParamView::Player(TextParamView { boolean: Bool::Not, text: opt_str_view(player) }), or_op(), self@),
    {
        apply_joined(Param::Player(PlayerQueryParam { boolean: Bool::Not, player: owned(player) }), LogicalCondition::Or(Bool::Is), self)
    }

    /// And search for any other player.
    pub fn and_not_player(self, player: Option<&str>) -> (r: Query)
        ensures
            r@ == apply_joined_view(ParamView::Player(TextParamView { boolean: Bool::Not, text: opt_str_view(player) }), and_op(), self@),
    {
        apply_joined(Param::Player(PlayerQueryParam { boolean: Bool::Not, player: owned(player) }), LogicalCondition::And(Bool::Is), self)
    }

    /// Search for a particular side.
    pub fn side(self, side: Side) -> (r: Query)
        ensures
            r@ == apply_view(ParamView::Side(SideQueryParam { boolean: Bool::Is, side }), self@),
    {
        apply(Param::Side(SideQueryParam { boolean: Bool::Is, side }), self)
    }

    /// Or search for a particular side.
    pub fn or_side(self, side: Side) -> (r: Query)
        ensures
            r@ == apply_joined_view(ParamView::Side(SideQueryParam { boolean: Bool::Is, side }), or_op(), self@),
    {
        apply_joined(Param::Side(SideQueryParam { boolean: Bool::Is, side }), LogicalCondition::Or(Bool::Is), self)
    }

    /// And search for a particular side.
    pub fn and_side(self, side: Side) -> (r: Query)
        ensures
            r@ == apply_joined_view(ParamView::Side(SideQueryParam { boolean: Bool::Is, side }), and_op(), self@),
    {
        apply_joined(Param::Side(SideQueryParam { boolean: Bool::Is, side }), LogicalCondition::And(Bool::Is), self)
    }

    /// Search for any other side.
    pub fn not_side(self, side: Side) -> (r: Query)
        ensures
            r@ == apply_view(ParamView::Side(SideQueryParam { boolean: Bool::Not, side }), self@),
    {
        apply(Param::Side(SideQueryParam { boolean: Bool::Not, side }), self)
    }

    /// Or search for any other side.
    pub fn or_not_side(self, side: Side) -> (r: Query)
        ensures
            r@ == apply_joined_view(ParamView::Side(SideQueryParam { boolean: Bool::Not, side }), or_op(), self@),
    {
        apply_joined(Param::Side(SideQueryParam { boolean: Bool::Not, side }), LogicalCondition::Or(Bool::Is), self)
    }

    /// And search for any other side.
    pub fn and_not_side(self, side: Side) -> (r: Query)
        ensures
            r@ == apply_joined_view(ParamView::Side(SideQueryParam { boolean: Bool::Not, side }), and_op(), self@),
    {
        apply_joined(Param::Side(SideQueryParam { boolean: Bool::Not, side }), LogicalCondition::And(Bool::Is), self)
    }

    /// Search for a particular turn.
    pub fn turn(self, turn: Turn) -> (r: Query)
        ensures
            r@ == apply_view(ParamView::Turn(TurnQueryParam { order: TurnOrdering::Equal, turn, boolean: Bool::Is }), self@),
    {
        apply(Param::Turn(TurnQueryParam { order: TurnOrdering::Equal, turn, boolean: Bool::Is }), self)
    }

    /// Or search for a particular turn.
    pub fn or_turn(self, turn: Turn) -> (r: Query)
        ensures
            r@ == apply_joined_view(ParamView::Turn(TurnQueryParam { order: TurnOrdering::Equal, turn, boolean: Bool::Is }), or_op(), self@),
    {
        apply_joined(Param::Turn(TurnQueryParam { order: TurnOrdering::Equal, turn, boolean: Bool::Is }), LogicalCondition::Or(Bool::Is), self)
    }

    /// And search for a particular turn.
    pub fn and_turn(self, turn: Turn) -> (r: Query)
        ensures
            r@ == apply_joined_view(ParamView::Turn(TurnQueryParam { order: TurnOrdering::Equal, turn, boolean: Bool::Is }), and_op(), self@),
    {
        apply_joined(Param::Turn(TurnQueryParam { order: TurnOrdering::Equal, turn, boolean: Bool::Is }), LogicalCondition::And(Bool::Is), self)
    }

    /// Search for any other turn.
    pub fn not_turn(self, turn: Turn) -> (r: Query)
        ensures
            r@ == apply_view(ParamView::Turn(TurnQueryParam { order: TurnOrdering::Equal, turn, boolean: Bool::Not }), self@),
    {
        apply(Param::Turn(TurnQueryParam { order: TurnOrdering::Equal, turn, boolean: Bool::Not }), self)
    }

    /// Or search for any other turn.
    pub fn or_not_turn(self, turn: Turn) -> (r: Query)
        ensures
            r@ == apply_joined_view(ParamView::Turn(TurnQueryParam { order: TurnOrdering::Equal, turn, boolean: Bool::Not }), or_op(), self@),
    {
        apply_joined(Param::Turn(TurnQueryParam { order: TurnOrdering::Equal, turn, boolean: Bool::Not }), LogicalCondition::Or(Bool::Is), self)
    }

    /// And search for any other turn.
    pub fn and_not_turn(self, turn: Turn) -> (r: Query)
        ensures
            r@ == apply_joined_view(ParamView::Turn(TurnQueryParam { order: TurnOrdering::Equal, turn, boolean: Bool::Not }), and_op(), self@),
    {
        apply_joined(Param::Turn(TurnQueryParam { order: TurnOrdering::Equal, turn, boolean: Bool::Not }), LogicalCondition::And(Bool::Is), self)
    }

    /// Search for a particular turn or a later turn of the same side.
    pub fn min_turn(self, turn: Turn) -> (r: Query)
        ensures
            r@ == apply_view(ParamView::Turn(TurnQueryParam { order: TurnOrdering::Greater, turn, boolean: Bool::Is }), self@),
    {
        apply(Param::Turn(TurnQueryParam { order: TurnOrdering::Greater, turn, boolean: Bool::Is }), self)
    }

    /// Or search for a particular turn or a later turn of the same side.
    pub fn or_min_turn(self, turn: Turn) -> (r: Query)
        ensures
            r@ == apply_joined_view(ParamView::Turn(TurnQueryParam { order: TurnOrdering::Greater, turn, boolean: Bool::Is }), or_op(), self@),
    {
        apply_joined(Param::Turn(TurnQueryParam { order: TurnOrdering::Greater, turn, boolean: Bool::Is }), LogicalCondition::Or(Bool::Is), self)
    }

    /// And search for a particular turn or a later turn of the same side.
    pub fn and_min_turn(self, turn: Turn) -> (r: Query)
        ensures
            r@ == apply_joined_view(ParamView::Turn(TurnQueryParam { order: TurnOrdering::Greater, turn, boolean: Bool::Is }), and_op(), self@),
    {
        apply_joined(Param::Turn(TurnQueryParam { order: TurnOrdering::Greater, turn, boolean: Bool::Is }), LogicalCondition::And(Bool::Is), self)
    }

    /// Search for any turn but a particular turn or a later turn of the same side.
    pub fn not_min_turn(self, turn: Turn) -> (r: Query)
        ensures
            r@ == apply_view(ParamView::Turn(TurnQueryParam { order: TurnOrdering::Greater, turn, boolean: Bool::Not }), self@),
    {
        apply(Param::Turn(TurnQueryParam { order: TurnOrdering::Greater, turn, boolean: Bool::Not }), self)
    }

    /// Or search for any turn but a particular turn or a later turn of the same side.
    pub fn or_not_min_turn(self, turn: Turn) -> (r: Query)
        ensures
            r@ == apply_joined_view(ParamView::Turn(TurnQueryParam { order: TurnOrdering::Greater, turn, boolean: Bool::Not }), or_op(), self@),
    {
        apply_joined(Param::Turn(TurnQueryParam { order: TurnOrdering::Greater, turn, boolean: Bool::Not }), LogicalCondition::Or(Bool::Is), self)
    }

    /// And search for any turn but a particular turn or a later turn of the same side.
    pub fn and_not_min_turn(self, turn: Turn) -> (r: Query)
        ensures
            r@ == apply_joined_view(ParamView::Turn(TurnQueryParam { order: TurnOrdering::Greater, turn, boolean: Bool::Not }), and_op(), self@),
    {
        apply_joined(Param::Turn(TurnQueryParam { order: TurnOrdering::Greater, turn, boolean: Bool::Not }), LogicalCondition::And(Bool::Is), self)
    }

    /// Search for a particular turn or an earlier turn of the same side.
    pub fn max_turn(self, turn: Turn) -> (r: Query)
        ensures
            r@ == apply_view(ParamView::Turn(TurnQueryParam { order: TurnOrdering::Less, turn, boolean: Bool::Is }), self@),
    {
        apply(Param::Turn(TurnQueryParam { order: TurnOrdering::Less, turn, boolean: Bool::Is }), self)
    }

    /// Or search for a particular turn or an earlier turn of the same side.
    pub fn or_max_turn(self, turn: Turn) -> (r: Query)
        ensures
            r@ == apply_joined_view(ParamView::Turn(TurnQueryParam { order: TurnOrdering::Less, turn, boolean: Bool::Is }), or_op(), self@),
    {
        apply_joined(Param::Turn(TurnQueryParam { order: TurnOrdering::Less, turn, boolean: Bool::Is }), LogicalCondition::Or(Bool::Is), self)
    }

    /// And search for a particular turn or an earlier turn of the same side.
    pub fn and_max_turn(self, turn: Turn) -> (r: Query)
        ensures
            r@ == apply_joined_view(ParamView::Turn(TurnQueryParam { order: TurnOrdering::Less, turn, boolean: Bool::Is }), and_op(), self@),
    {
        apply_joined(Param::Turn(TurnQueryParam { order: TurnOrdering::Less, turn, boolean: Bool::Is }), LogicalCondition::And(Bool::Is), self)
    }

    /// Search for any turn but a particular turn or an earlier turn of the same side.
    pub fn not_max_turn(self, turn: Turn) -> (r: Query)
        ensures
            r@ == apply_view(ParamView::Turn(TurnQueryParam { order: TurnOrdering::Less, turn, boolean: Bool::Not }), self@),
    {
        apply(Param::Turn(TurnQueryParam { order: TurnOrdering::Less, turn, boolean: Bool::Not }), self)
    }

    /// Or search for any turn but a particular turn or an earlier turn of the same side.
    pub fn or_not_max_turn(self, turn: Turn) -> (r: Query)
        ensures
            r@ == apply_joined_view(ParamView::Turn(TurnQueryParam { order: TurnOrdering::Less, turn, boolean: Bool::Not }), or_op(), self@),
    {
        apply_joined(Param::Turn(TurnQueryParam { order: TurnOrdering::Less, turn, boolean: Bool::Not }), LogicalCondition::Or(Bool::Is), self)
    }

    /// And search for any turn but a particular turn or an earlier turn of the same side.
    pub fn and_not_max_turn(self, turn: Turn) -> (r: Query)
        ensures
            r@ == apply_joined_view(ParamView::Turn(TurnQueryParam { order: TurnOrdering::Less, turn, boolean: Bool::Not }), and_op(), self@),
    {
        apply_joined(Param::Turn(TurnQueryParam { order: TurnOrdering::Less, turn, boolean: Bool::Not }), LogicalCondition::And(Bool::Is), self)
    }

    /// Search for a particular turn number; of two groups, the first is restricted.
    pub fn turn_number(self, turn_number: u32) -> (r: Query)
        ensures
            r@ == apply_view(ParamView::TurnNumber(TurnNumberQueryParam { boolean: Bool::Is, range: TurnNumberRange::Single(turn_number) }), self@),
    {
        apply(Param::TurnNumber(TurnNumberQueryParam::single(Bool::Is, turn_number)), self)
    }

    /// Or search for a particular turn number: starts a second group joined by "or", or restricts the second group and joins the groups by "or".
    pub fn or_turn_number(self, turn_number: u32) -> (r: Query)
        ensures
            r@ == apply_joined_view(ParamView::TurnNumber(TurnNumberQueryParam { boolean: Bool::Is, range: TurnNumberRange::Single(turn_number) }), or_op(), self@),
    {
        apply_joined(Param::TurnNumber(TurnNumberQueryParam::single(Bool::Is, turn_number)), LogicalCondition::Or(Bool::Is), self)
    }

    /// And search for a particular turn number: starts a second group joined by "and", or restricts the second group and joins the groups by "and".
    pub fn and_turn_number(self, turn_number: u32) -> (r: Query)
        ensures
            r@ == apply_joined_view(ParamView::TurnNumber(TurnNumberQueryParam { boolean: Bool::Is, range: TurnNumberRange::Single(turn_number) }), and_op(), self@),
    {
        apply_joined(Param::TurnNumber(TurnNumberQueryParam::single(Bool::Is, turn_number)), LogicalCondition::And(Bool::Is), self)
    }

    /// Search for any other turn number.
    pub fn not_turn_number(self, turn_number: u32) -> (r: Query)
        ensures
            r@ == apply_view(ParamView::TurnNumber(TurnNumberQueryParam { boolean: Bool::Not, range: TurnNumberRange::Single(turn_number) }), self@),
    {
        apply(Param::TurnNumber(TurnNumberQueryParam::single(Bool::Not, turn_number)), self)
    }

    /// Or search for any other turn number.
    pub fn or_not_turn_number(self, turn_number: u32) -> (r: Query)
        ensures
            r@ == apply_joined_view(ParamView::TurnNumber(TurnNumberQueryParam { boolean: Bool::Not, range: TurnNumberRange::Single(turn_number) }), or_op(), self@),
    {
        apply_joined(Param::TurnNumber(TurnNumberQueryParam::single(Bool::Not, turn_number)), LogicalCondition::Or(Bool::Is), self)
    }

    /// And search for any other turn number.
    pub fn and_not_turn_number(self, turn_number: u32) -> (r: Query)
        ensures
            r@ == apply_joined_view(ParamView::TurnNumber(TurnNumberQueryParam { boolean: Bool::Not, range: TurnNumberRange::Single(turn_number) }), and_op(), self@),
    {
        apply_joined(Param::TurnNumber(TurnNumberQueryParam::single(Bool::Not, turn_number)), LogicalCondition::And(Bool::Is), self)
    }

    /// Search for a turn number within a (possibly unbounded) inclusive range; a full range matches any turn number.
    pub fn turn_number_in_range(self, from: Option<u32>, to: Option<u32>) -> (r: Query)
        ensures
            r@ == apply_view(ParamView::TurnNumber(TurnNumberQueryParam { boolean: Bool::Is, range: TurnNumberRange::spec_from_start_end(from, to) }), self@),
    {
        apply(Param::TurnNumber(TurnNumberQueryParam::from_start_end(Bool::Is, from, to)), self)
    }

    /// Or search for a turn number within a (possibly unbounded) inclusive range.
    pub fn or_turn_number_in_range(self, from: Option<u32>, to: Option<u32>) -> (r: Query)
        ensures
            r@ == apply_joined_view(ParamView::TurnNumber(TurnNumberQueryParam { boolean: Bool::Is, range: TurnNumberRange::spec_from_start_end(from, to) }), or_op(), self@),
    {
        apply_joined(Param::TurnNumber(TurnNumberQueryParam::from_start_end(Bool::Is, from, to)), LogicalCondition::Or(Bool::Is), self)
    }

    /// And search for a turn number within a (possibly unbounded) inclusive range.
    pub fn and_turn_number_in_range(self, from: Option<u32>, to: Option<u32>) -> (r: Query)
        ensures
            r@ == apply_joined_view(ParamView::TurnNumber(TurnNumberQueryParam { boolean: Bool::Is, range: TurnNumberRange::spec_from_start_end(from, to) }), and_op(), self@),
    {
        apply_joined(Param::TurnNumber(TurnNumberQueryParam::from_start_end(Bool::Is, from, to)), LogicalCondition::And(Bool::Is), self)
    }

    /// Search for a turn number outside of a (possibly unbounded) inclusive range; a full range matches no turn number. The condition is joined by "and" as a further group.
    pub fn turn_number_not_in_range(self, from: Option<u32>, to: Option<u32>) -> (r: Query)
        ensures
            r@ == apply_joined_view(ParamView::TurnNumber(TurnNumberQueryParam { boolean: Bool::Not, range: TurnNumberRange::spec_from_start_end(from, to) }), and_op(), self@),
    {
        apply_joined(Param::TurnNumber(TurnNumberQueryParam::from_start_end(Bool::Not, from, to)), LogicalCondition::And(Bool::Is), self)
    }

    /// Or search for a turn number outside of a (possibly unbounded) inclusive range.
    pub fn or_turn_number_not_in_range(self, from: Option<u32>, to: Option<u32>) -> (r: Query)
        ensures
            r@ == apply_joined_view(ParamView::TurnNumber(TurnNumberQueryParam { boolean: Bool::Not, range: TurnNumberRange::spec_from_start_end(from, to) }), or_op(), self@),
    {
        apply_joined(Param::TurnNumber(TurnNumberQueryParam::from_start_end(Bool::Not, from, to)), LogicalCondition::Or(Bool::Is), self)
    }

    /// And search for a turn number outside of a (possibly unbounded) inclusive range.
    pub fn and_turn_number_not_in_range(self, from: Option<u32>, to: Option<u32>) -> (r: Query)
        ensures
            r@ == apply_joined_view(ParamView::TurnNumber(TurnNumberQueryParam { boolean: Bool::Not, range: TurnNumberRange::spec_from_start_end(from, to) }), and_op(), self@),
    {
        apply_joined(Param::TurnNumber(TurnNumberQueryParam::from_start_end(Bool::Not, from, to)), LogicalCondition::And(Bool::Is), self)
    }
}

impl Default for Query {
    fn default() -> (r: Query)
        ensures
            r@ == (QueryView::Single { boolean: Bool::Is, sub_query: empty_sub_query() }),
    {
        Query::new()
    }
}

/// `q` with its outermost condition negated.
pub open spec fn negated(q: QueryView) -> QueryView {
    match q {
        QueryView::Single { boolean, sub_query } => QueryView::Single { boolean: boolean.spec_inverse(), sub_query },
        QueryView::Compound { boolean, a, op, b } => QueryView::Compound { boolean: boolean.spec_inverse(), a, op, b },
        QueryView::Nested { boolean, a, op, b } => QueryView::Nested { boolean: boolean.spec_inverse(), a, op, b },
    }
}

/// Whether save `s` meets the single condition `p`.
pub open spec fn param_holds(p: ParamView, s: SaveView) -> bool {
    match p {
        ParamView::TurnNumber(x) => x.spec_matches(s.turn.number),
        ParamView::Side(x) => x.spec_matches(s.turn.side),
        ParamView::Player(x) => x.spec_matches(s.player),
        ParamView::Part(x) => x.spec_matches(s.part),
        ParamView::Turn(x) => x.spec_matches(s.turn),
    }
}

/// The query that matches every save, as [`Query::new`] makes it.
pub open spec fn every_save() -> QueryView {
    QueryView::Single { boolean: Bool::Is, sub_query: empty_sub_query() }
}

/// A new query matches every save.
pub proof fn lemma_new_query_matches_every_save(s: SaveView)
    ensures
        every_save().spec_matches(s),
{
}

/// A negated query matches exactly the saves the query does not match, and
/// negating twice gives the query back.
pub proof fn lemma_negation(q: QueryView, s: SaveView)
    ensures
        negated(q).spec_matches(s) == !q.spec_matches(s),
        negated(negated(q)) == q,
{
}

/// Joining two queries with "or", "and", "or not" and "and not" matches
/// the saves the two queries' results combine to.
pub proof fn lemma_joined_queries(a: QueryView, b: QueryView, s: SaveView)
    ensures
        (QueryView::Nested { boolean: Bool::Is, a: Box::new(a), op: or_op(), b: Box::new(b) }).spec_matches(s)
            == (a.spec_matches(s) || b.spec_matches(s)),
        (QueryView::Nested { boolean: Bool::Is, a: Box::new(a), op: and_op(), b: Box::new(b) }).spec_matches(s)
            == (a.spec_matches(s) && b.spec_matches(s)),
        (QueryView::Nested { boolean: Bool::Is, a: Box::new(a), op: LogicalCondition::Or(Bool::Not), b: Box::new(b) }).spec_matches(s)
            == (a.spec_matches(s) || !b.spec_matches(s)),
        (QueryView::Nested { boolean: Bool::Is, a: Box::new(a), op: LogicalCondition::And(Bool::Not), b: Box::new(b) }).spec_matches(s)
            == (a.spec_matches(s) && !b.spec_matches(s)),
{
}

/// Restricting a query by a condition on one element of a save that the
/// query does not yet look at (a query made by [`Query::new`] and plain
/// builder methods) matches the saves it matched that also meet the
/// condition.
pub proof fn lemma_restrict_single(p: ParamView, sq: SubQueryView, s: SaveView)
    requires
        sq.boolean == Bool::Is,
        match p {
            ParamView::TurnNumber(_) => sq.turn_number is None,
            ParamView::Side(_) => sq.side is None,
            ParamView::Player(_) => sq.player is None,
            ParamView::Part(_) => sq.part is None,
            ParamView::Turn(_) => sq.turn is None,
        },
    ensures
        apply_view(p, QueryView::Single { boolean: Bool::Is, sub_query: sq }).spec_matches(s)
            == ((QueryView::Single { boolean: Bool::Is, sub_query: sq }).spec_matches(s) && param_holds(p, s)),
{
}

/// Joining a single group of conditions with a condition by "or" matches
/// the saves the group matches, and those that meet the condition.
pub proof fn lemma_or_single(p: ParamView, sq: SubQueryView, s: SaveView)
    ensures
        apply_joined_view(p, or_op(), QueryView::Single { boolean: Bool::Is, sub_query: sq }).spec_matches(s)
            == ((QueryView::Single { boolean: Bool::Is, sub_query: sq }).spec_matches(s) || param_holds(p, s)),
        apply_joined_view(p, and_op(), QueryView::Single { boolean: Bool::Is, sub_query: sq }).spec_matches(s)
            == ((QueryView::Single { boolean: Bool::Is, sub_query: sq }).spec_matches(s) && param_holds(p, s)),
{
}

/// A new query given a turn condition matches the saves of that turn
/// (`turn`), of that turn or a later turn of the same side (`min_turn`), of
/// that turn or an earlier turn of the same side (`max_turn`), and, negated,
/// of any other turn (`not_turn`).
pub proof fn lemma_turn_conditions(t: Turn, s: SaveView)
    ensures
        apply_view(ParamView::Turn(TurnQueryParam { order: TurnOrdering::Greater, turn: t, boolean: Bool::Is }), every_save())
            .spec_matches(s) == (s.turn.side == t.side && s.turn.number >= t.number),
        apply_view(ParamView::Turn(TurnQueryParam { order: TurnOrdering::Less, turn: t, boolean: Bool::Is }), every_save())
            .spec_matches(s) == (s.turn.side == t.side && s.turn.number <= t.number),
        apply_view(ParamView::Turn(TurnQueryParam { order: TurnOrdering::Equal, turn: t, boolean: Bool::Is }), every_save())
            .spec_matches(s) == (s.turn == t),
        apply_view(ParamView::Turn(TurnQueryParam { order: TurnOrdering::Equal, turn: t, boolean: Bool::Not }), every_save())
            .spec_matches(s) == (s.turn != t),
{
    lemma_restrict_single(ParamView::Turn(TurnQueryParam { order: TurnOrdering::Greater, turn: t, boolean: Bool::Is }), empty_sub_query(), s);
    lemma_restrict_single(ParamView::Turn(TurnQueryParam { order: TurnOrdering::Less, turn: t, boolean: Bool::Is }), empty_sub_query(), s);
    lemma_restrict_single(ParamView::Turn(TurnQueryParam { order: TurnOrdering::Equal, turn: t, boolean: Bool::Is }), empty_sub_query(), s);
    lemma_restrict_single(ParamView::Turn(TurnQueryParam { order: TurnOrdering::Equal, turn: t, boolean: Bool::Not }), empty_sub_query(), s);
    lemma_new_query_matches_every_save(s);
}

} // verus!
