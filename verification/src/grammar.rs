//! The grammar of save names such as `Axis DM 12`, `Allies 3 GM part B` or
//! `Axis start 5`.
//!
//! A name starts with a side, then either the word `start` and a turn
//! number, or a player and a turn number (in either order) with an optional
//! part, or just a turn number.  Players are 1 to 99 ASCII letters, turn
//! numbers are 1 to 4 ASCII digits and parts are 1 to 99 ASCII letters or
//! digits, optionally preceded by `part `.  The alternatives are tried in
//! the order: side and `start`, side turn player, side player turn, side turn;
//! the first one that matches is taken.
//!
//! The library knows two dialects of this grammar: the one of save files
//! found in storage folders (sides are the team names, matched regardless of
//! ASCII case; any number of spaces between elements) and the one of the
//! command line tool (sides are `Axis`, `axis`, `Allies` or `allies`; at most
//! one space between elements).
use vstd::prelude::*;
use crate::save::Side;
use crate::text::{is_alnum, is_alpha, is_digit, digits_value, digit_value, lower, is_alpha_char,
    is_alnum_char, is_digit_char, lower_char, digit_value_of, string_of};

verus! {

/// How many spaces may separate two elements of a name.
#[derive(Debug, Clone, Copy, PartialEq, Eq, Structural)]
pub enum SpaceRule {
    /// Any number of spaces, including none.
    Any,
    /// None or one space.
    AtMostOne,
}

/// A character class of the grammar.
#[derive(Debug, Clone, Copy, PartialEq, Eq, Structural)]
pub enum CharClass {
    Alpha,
    Digit,
    Alnum,
}

pub open spec fn in_class(class: CharClass, c: char) -> bool {
    match class {
        CharClass::Alpha => is_alpha(c),
        CharClass::Digit => is_digit(c),
        CharClass::Alnum => is_alnum(c),
    }
}

/// The position after the spaces at `i`, as `rule` allows them.
pub open spec fn skip_spaces(rule: SpaceRule, s: Seq<char>, i: int) -> int
    decreases s.len() - i,
{
    if 0 <= i < s.len() && s[i] == ' ' {
        match rule {
            SpaceRule::Any => skip_spaces(rule, s, i + 1),
            SpaceRule::AtMostOne => i + 1,
        }
    } else {
        i
    }
}

/// The end of the longest run of at most `max` characters of `class` at `i`.
pub open spec fn run_end(class: CharClass, s: Seq<char>, i: int, max: nat) -> int
    decreases max,
{
    if max > 0 && 0 <= i < s.len() && in_class(class, s[i]) {
        run_end(class, s, i + 1, (max - 1) as nat)
    } else {
        i
    }
}

/// Two characters are the same, regardless of ASCII case when `ci`.
pub open spec fn same_char(a: char, b: char, ci: bool) -> bool {
    if ci {
        lower(a) == lower(b)
    } else {
        a == b
    }
}

/// The text `t` stands at position `i` of `s`.
pub open spec fn token_at(s: Seq<char>, i: int, t: Seq<char>, ci: bool) -> bool {
    &&& 0 <= i
    &&& i + t.len() <= s.len()
    &&& forall|k: int| 0 <= k < t.len() ==> same_char(#[trigger] s[i + k], t[k], ci)
}

/// A way to write a side.
pub struct SideTokenView {
    pub text: Seq<char>,
    pub ci: bool,
    pub side: Side,
}

/// A way to write a side: its text, whether ASCII case is ignored, and the side.
#[derive(Debug, Clone)]
pub struct SideToken {
    pub text: Vec<char>,
    pub ci: bool,
    pub side: Side,
}

impl View for SideToken {
    type V = SideTokenView;

    open spec fn view(&self) -> SideTokenView {
        SideTokenView { text: self.text@, ci: self.ci, side: self.side }
    }
}

/// The abstract value of a [`Grammar`].
pub struct GrammarView {
    pub sides: Seq<SideTokenView>,
    pub spaces: SpaceRule,
}

/// A dialect of the save name grammar: the ways sides are written, tried in
/// order, and the spaces allowed between elements.
#[derive(Debug, Clone)]
pub struct Grammar {
    pub sides: Vec<SideToken>,
    pub spaces: SpaceRule,
}

impl View for Grammar {
    type V = GrammarView;

    open spec fn view(&self) -> GrammarView {
        GrammarView { sides: self.sides@.map_values(|t: SideToken| t@), spaces: self.spaces }
    }
}

/// The side written at `i` by the first of `sides[k..]` that matches, and
/// the position after it.
pub open spec fn side_at_from(sides: Seq<SideTokenView>, k: int, s: Seq<char>, i: int) -> Option<(Side, int)>
    decreases sides.len() - k,
{
    if k < 0 || k >= sides.len() {
        None
    } else if token_at(s, i, sides[k].text, sides[k].ci) {
        Some((sides[k].side, i + sides[k].text.len()))
    } else {
        side_at_from(sides, k + 1, s, i)
    }
}

pub open spec fn side_at(g: GrammarView, s: Seq<char>, i: int) -> Option<(Side, int)> {
    side_at_from(g.sides, 0, s, i)
}

/// A player at `i`: 1 to 99 ASCII letters.
pub open spec fn player_at(s: Seq<char>, i: int) -> Option<(Seq<char>, int)> {
    let e = run_end(CharClass::Alpha, s, i, 99);
    if e > i {
        Some((s.subrange(i, e), e))
    } else {
        None
    }
}

/// A turn number at `i`: 1 to 4 ASCII digits.
pub open spec fn turn_at(s: Seq<char>, i: int) -> Option<(u32, int)> {
    let e = run_end(CharClass::Digit, s, i, 4);
    if e > i {
        Some((digits_value(s.subrange(i, e)) as u32, e))
    } else {
        None
    }
}

pub open spec fn part_word() -> Seq<char> {
    seq!['p', 'a', 'r', 't', ' ']
}

pub open spec fn start_word() -> Seq<char> {
    seq!['s', 't', 'a', 'r', 't']
}

/// A part at `i`: an optional `part ` and 1 to 99 ASCII letters or digits.
pub open spec fn part_at(s: Seq<char>, i: int) -> Option<(Seq<char>, int)> {
    let j = if token_at(s, i, part_word(), false) { i + 5 } else { i };
    let e = run_end(CharClass::Alnum, s, j, 99);
    if e > j {
        Some((s.subrange(j, e), e))
    } else {
        None
    }
}

/// An optional part at `i`: the part and the position after it, or nothing
/// and `i` itself.
pub open spec fn opt_part_at(s: Seq<char>, i: int) -> (Option<Seq<char>>, int) {
    match part_at(s, i) {
        Some((p, e)) => (Some(p), e),
        None => (None, i),
    }
}

/// The elements of a save name.
pub struct FieldsView {
    pub side: Side,
    pub player: Option<Seq<char>>,
    pub turn: u32,
    pub part: Option<Seq<char>>,
}

/// `<side> start <turn>`
pub open spec fn start_turn_at(g: GrammarView, s: Seq<char>, i: int) -> Option<(FieldsView, int)> {
    match side_at(g, s, i) {
        None => None,
        Some((side, j)) => {
            let k = skip_spaces(g.spaces, s, j);
            if token_at(s, k, start_word(), true) {
                let m = skip_spaces(g.spaces, s, k + 5);
                match turn_at(s, m) {
                    None => None,
                    Some((n, e)) => Some((FieldsView { side, player: None, turn: n, part: None }, e)),
                }
            } else {
                None
            }
        },
    }
}

/// `<side> <turn> <player> [part]`
pub open spec fn turn_player_at(g: GrammarView, s: Seq<char>, i: int) -> Option<(FieldsView, int)> {
    match side_at(g, s, i) {
        None => None,
        Some((side, j)) => match turn_at(s, skip_spaces(g.spaces, s, j)) {
            None => None,
            Some((n, k)) => match player_at(s, skip_spaces(g.spaces, s, k)) {
                None => None,
                Some((player, m)) => {
                    let (part, e) = opt_part_at(s, skip_spaces(g.spaces, s, m));
                    Some((FieldsView { side, player: Some(player), turn: n, part }, e))
                },
            },
        },
    }
}

/// `<side> <player> <turn> [part]`
pub open spec fn player_turn_at(g: GrammarView, s: Seq<char>, i: int) -> Option<(FieldsView, int)> {
    match side_at(g, s, i) {
        None => None,
        Some((side, j)) => match player_at(s, skip_spaces(g.spaces, s, j)) {
            None => None,
            Some((player, k)) => match turn_at(s, skip_spaces(g.spaces, s, k)) {
                None => None,
                Some((n, m)) => {
                    let (part, e) = opt_part_at(s, skip_spaces(g.spaces, s, m));
                    Some((FieldsView { side, player: Some(player), turn: n, part }, e))
                },
            },
        },
    }
}

/// `<side> <turn>`
pub open spec fn side_turn_at(g: GrammarView, s: Seq<char>, i: int) -> Option<(FieldsView, int)> {
    match side_at(g, s, i) {
        None => None,
        Some((side, j)) => match turn_at(s, skip_spaces(g.spaces, s, j)) {
            None => None,
            Some((n, e)) => Some((FieldsView { side, player: None, turn: n, part: None }, e)),
        },
    }
}

/// The elements of the save name at `i` by the first alternative that
/// matches, and the position after them.
pub open spec fn fields_at(g: GrammarView, s: Seq<char>, i: int) -> Option<(FieldsView, int)> {
    if start_turn_at(g, s, i) is Some {
        start_turn_at(g, s, i)
    } else if turn_player_at(g, s, i) is Some {
        turn_player_at(g, s, i)
    } else if player_turn_at(g, s, i) is Some {
        player_turn_at(g, s, i)
    } else {
        side_turn_at(g, s, i)
    }
}

/// The elements of a save name, with texts as strings.
#[derive(Debug, Clone)]
pub struct Fields {
    pub side: Side,
    pub player: Option<String>,
    pub turn: u32,
    pub part: Option<String>,
}

impl View for Fields {
    type V = FieldsView;

    open spec fn view(&self) -> FieldsView {
        FieldsView {
            side: self.side,
            player: crate::save::opt_view(self.player),
            turn: self.turn,
            part: crate::save::opt_view(self.part),
        }
    }
}

/// The position after the spaces at `i`.
pub fn skip_spaces_exec(rule: SpaceRule, s: &Vec<char>, i: usize) -> (r: usize)
    requires
        i <= s@.len(),
    ensures
        r == skip_spaces(rule, s@, i as int),
        i <= r <= s@.len(),
{
    match rule {
        SpaceRule::AtMostOne => {
            if i < s.len() && s[i] == ' ' {
                i + 1
            } else {
                i
            }
        },
        SpaceRule::Any => {
            let mut j = i;
            while j < s.len() && s[j] == ' '
                invariant
                    i <= j <= s@.len(),
                    rule == SpaceRule::Any,
                    skip_spaces(rule, s@, j as int) == skip_spaces(rule, s@, i as int),
                decreases s@.len() - j,
            {
                j += 1;
            }
            j
        },
    }
}

/// The end of the longest run of at most `max` characters of `class` at `i`.
pub fn run_end_exec(class: CharClass, s: &Vec<char>, i: usize, max: usize) -> (r: usize)
    requires
        i <= s@.len(),
    ensures
        r == run_end(class, s@, i as int, max as nat),
        i <= r <= s@.len(),
        r - i <= max,
{
    let mut j = i;
    let mut left = max;
    while left > 0 && j < s.len() && char_in_class(class, s[j])
        invariant
            i <= j <= s@.len(),
            j - i + left == max,
            run_end(class, s@, j as int, left as nat) == run_end(class, s@, i as int, max as nat),
        decreases left,
    {
        j += 1;
        left -= 1;
    }
    j
}

pub fn char_in_class(class: CharClass, c: char) -> (r: bool)
    ensures
        r == in_class(class, c),
{
    match class {
        CharClass::Alpha => is_alpha_char(c),
        CharClass::Digit => is_digit_char(c),
        CharClass::Alnum => is_alnum_char(c),
    }
}

/// Whether the text `t` stands at position `i` of `s`.
pub fn token_at_exec(s: &Vec<char>, i: usize, t: &Vec<char>, ci: bool) -> (r: bool)
    requires
        i <= s@.len(),
    ensures
        r == token_at(s@, i as int, t@, ci),
{
    let len = s.len();
    if t.len() > len - i {
        return false;
    }
    let mut k: usize = 0;
    while k < t.len()
        invariant
            i <= s@.len(),
            len == s@.len(),
            i + t@.len() <= s@.len(),
            k <= t@.len(),
            forall|m: int| 0 <= m < k ==> same_char(#[trigger] s@[i + m], t@[m], ci),
        decreases t.len() - k,
    {
        let same = if ci {
            lower_char(s[i + k]) == lower_char(t[k])
        } else {
            s[i + k] == t[k]
        };
        if !same {
            assert(!same_char(s@[i + k as int], t@[k as int], ci));
            return false;
        }
        k += 1;
    }
    true
}

/// The side written at `i`, and the position after it.
pub fn side_at_exec(g: &Grammar, s: &Vec<char>, i: usize) -> (r: Option<(Side, usize)>)
    requires
        i <= s@.len(),
    ensures
        match r {
            Some((side, e)) => side_at(g@, s@, i as int) == Some((side, e as int)),
            None => side_at(g@, s@, i as int) is None,
        },
        r matches Some((_, e)) ==> i <= e <= s@.len(),
{
    let len = s.len();
    let mut k: usize = 0;
    while k < g.sides.len()
        invariant
            i <= s@.len(),
            len == s@.len(),
            k <= g.sides@.len(),
            side_at_from(g@.sides, k as int, s@, i as int) == side_at(g@, s@, i as int),
        decreases g.sides.len() - k,
    {
        let tok = &g.sides[k];
        assert(g@.sides[k as int] == tok@);
        if token_at_exec(s, i, &tok.text, tok.ci) {
            return Some((tok.side, i + tok.text.len()));
        }
        k += 1;
    }
    None
}

/// A player at `i`.
pub fn player_at_exec(s: &Vec<char>, i: usize) -> (r: Option<(String, usize)>)
    requires
        i <= s@.len(),
    ensures
        match r {
            Some((p, e)) => player_at(s@, i as int) == Some((p@, e as int)),
            None => player_at(s@, i as int) is None,
        },
        r matches Some((_, e)) ==> i <= e <= s@.len(),
{
    let e = run_end_exec(CharClass::Alpha, s, i, 99);
    if e > i {
        Some((string_of(s, i, e), e))
    } else {
        None
    }
}

/// The number written by the digits `s[i..e]`.
fn digits_value_exec(s: &Vec<char>, i: usize, e: usize) -> (r: u32)
    requires
        i <= e <= s@.len(),
        e - i <= 4,
    ensures
        r == digits_value(s@.subrange(i as int, e as int)),
{
    let mut v: u32 = 0;
    let mut j = i;
    while j < e
        invariant
            i <= j <= e <= s@.len(),
            e - i <= 4,
            v == digits_value(s@.subrange(i as int, j as int)),
            v < pow10((j - i) as nat),
        decreases e - j,
    {
        let d = digit_value_of(s[j]);
        proof {
            assert(s@.subrange(i as int, j + 1).drop_last() =~= s@.subrange(i as int, j as int));
            reveal_with_fuel(pow10, 5);
            assert(pow10((j - i) as nat) <= 1000);
            let p = pow10((j - i) as nat);
            assert(v * 10 + d < p * 10) by (nonlinear_arith)
                requires
                    v < p,
                    d < 10,
            ;
        }
        v = v * 10 + d;
        j += 1;
    }
    v
}

pub open spec fn pow10(n: nat) -> nat
    decreases n,
{
    if n == 0 {
        1
    } else {
        10 * pow10((n - 1) as nat)
    }
}

/// A turn number at `i`.
pub fn turn_at_exec(s: &Vec<char>, i: usize) -> (r: Option<(u32, usize)>)
    requires
        i <= s@.len(),
    ensures
        match r {
            Some((n, e)) => turn_at(s@, i as int) == Some((n, e as int)),
            None => turn_at(s@, i as int) is None,
        },
        r matches Some((_, e)) ==> i <= e <= s@.len(),
{
    let e = run_end_exec(CharClass::Digit, s, i, 4);
    if e > i {
        let n = digits_value_exec(s, i, e);
        Some((n, e))
    } else {
        None
    }
}

/// The characters of `part `.
fn part_word_exec() -> (r: Vec<char>)
    ensures
        r@ == part_word(),
{
    let r = vec!['p', 'a', 'r', 't', ' '];
    assert(r@ =~= part_word());
    r
}

/// The characters of `start`.
fn start_word_exec() -> (r: Vec<char>)
    ensures
        r@ == start_word(),
{
    let r = vec!['s', 't', 'a', 'r', 't'];
    assert(r@ =~= start_word());
    r
}

/// An optional part at `i`.
pub fn opt_part_at_exec(s: &Vec<char>, i: usize) -> (r: (Option<String>, usize))
    requires
        i <= s@.len(),
    ensures
        (crate::save::opt_view(r.0), r.1 as int) == opt_part_at(s@, i as int),
        i <= r.1 <= s@.len(),
{
    let len = s.len();
    proof {
        assert(part_word().len() == 5);
    }
    let j = if token_at_exec(s, i, &part_word_exec(), false) {
        i + 5
    } else {
        i
    };
    let e = run_end_exec(CharClass::Alnum, s, j, 99);
    if e > j {
        (Some(string_of(s, j, e)), e)
    } else {
        (None, i)
    }
}

/// `<side> start <turn>` at `i`.
pub fn start_turn_at_exec(g: &Grammar, s: &Vec<char>, i: usize) -> (r: Option<(Fields, usize)>)
    requires
        i <= s@.len(),
    ensures
        match r {
            Some((f, e)) => start_turn_at(g@, s@, i as int) == Some((f@, e as int)),
            None => start_turn_at(g@, s@, i as int) is None,
        },
        r matches Some((_, e)) ==> i <= e <= s@.len(),
{
    let (side, j) = side_at_exec(g, s, i)?;
    let k = skip_spaces_exec(g.spaces, s, j);
    let len = s.len();
    proof {
        assert(start_word().len() == 5);
    }
    if !token_at_exec(s, k, &start_word_exec(), true) {
        return None;
    }
    let m = skip_spaces_exec(g.spaces, s, k + 5);
    let (n, e) = turn_at_exec(s, m)?;
    Some((Fields { side, player: None, turn: n, part: None }, e))
}

/// `<side> <turn> <player> [part]` at `i`.
pub fn turn_player_at_exec(g: &Grammar, s: &Vec<char>, i: usize) -> (r: Option<(Fields, usize)>)
    requires
        i <= s@.len(),
    ensures
        match r {
            Some((f, e)) => turn_player_at(g@, s@, i as int) == Some((f@, e as int)),
            None => turn_player_at(g@, s@, i as int) is None,
        },
        r matches Some((_, e)) ==> i <= e <= s@.len(),
{
    let (side, j) = side_at_exec(g, s, i)?;
    let (n, k) = turn_at_exec(s, skip_spaces_exec(g.spaces, s, j))?;
    let (player, m) = player_at_exec(s, skip_spaces_exec(g.spaces, s, k))?;
    let (part, e) = opt_part_at_exec(s, skip_spaces_exec(g.spaces, s, m));
    Some((Fields { side, player: Some(player), turn: n, part }, e))
}

/// `<side> <player> <turn> [part]` at `i`.
pub fn player_turn_at_exec(g: &Grammar, s: &Vec<char>, i: usize) -> (r: Option<(Fields, usize)>)
    requires
        i <= s@.len(),
    ensures
        match r {
            Some((f, e)) => player_turn_at(g@, s@, i as int) == Some((f@, e as int)),
            None => player_turn_at(g@, s@, i as int) is None,
        },
        r matches Some((_, e)) ==> i <= e <= s@.len(),
{
    let (side, j) = side_at_exec(g, s, i)?;
    let (player, k) = player_at_exec(s, skip_spaces_exec(g.spaces, s, j))?;
    let (n, m) = turn_at_exec(s, skip_spaces_exec(g.spaces, s, k))?;
    let (part, e) = opt_part_at_exec(s, skip_spaces_exec(g.spaces, s, m));
    Some((Fields { side, player: Some(player), turn: n, part }, e))
}

/// `<side> <turn>` at `i`.
pub fn side_turn_at_exec(g: &Grammar, s: &Vec<char>, i: usize) -> (r: Option<(Fields, usize)>)
    requires
        i <= s@.len(),
    ensures
        match r {
            Some((f, e)) => side_turn_at(g@, s@, i as int) == Some((f@, e as int)),
            None => side_turn_at(g@, s@, i as int) is None,
        },
        r matches Some((_, e)) ==> i <= e <= s@.len(),
{
    let (side, j) = side_at_exec(g, s, i)?;
    let (n, e) = turn_at_exec(s, skip_spaces_exec(g.spaces, s, j))?;
    Some((Fields { side, player: None, turn: n, part: None }, e))
}

/// The elements of the save name at `i`, by the first alternative that
/// matches, and the position after them.
pub fn fields_at_exec(g: &Grammar, s: &Vec<char>, i: usize) -> (r: Option<(Fields, usize)>)
    requires
        i <= s@.len(),
    ensures
        match r {
            Some((f, e)) => fields_at(g@, s@, i as int) == Some((f@, e as int)),
            None => fields_at(g@, s@, i as int) is None,
        },
        r matches Some((_, e)) ==> i <= e <= s@.len(),
{
    if let Some(r) = start_turn_at_exec(g, s, i) {
        return Some(r);
    }
    if let Some(r) = turn_player_at_exec(g, s, i) {
        return Some(r);
    }
    if let Some(r) = player_turn_at_exec(g, s, i) {
        return Some(r);
    }
    side_turn_at_exec(g, s, i)
}

} // verus!
