//! Parsing save names and save file paths, see [`crate::grammar`].
use vstd::prelude::*;
use crate::config::{TeamNames, TeamNamesView};
use crate::grammar::{token_at, token_at_exec, fields_at, fields_at_exec, part_at, opt_part_at_exec, player_at, player_at_exec, side_at, side_at_exec, turn_at, turn_at_exec, FieldsView, Fields, Grammar, GrammarView, SideToken, SideTokenView, SpaceRule};
use crate::save::{Save, SaveView, Side, opt_view};
use crate::text::chars_of;
use crate::path::{is_separator, separator};
use crate::turn::Turn;

verus! {

/// The grammar of save file names for the given team names: the team names
/// stand for the sides regardless of ASCII case (the second team's name is
/// tried first), and any number of spaces may separate elements.
pub open spec fn core_grammar(names: TeamNamesView) -> GrammarView {
    GrammarView {
        sides: seq![
            SideTokenView { text: names.allies, ci: true, side: Side::Allies },
            SideTokenView { text: names.axis, ci: true, side: Side::Axis },
        ],
        spaces: SpaceRule::Any,
    }
}

/// The grammar of save file names for `team_names`.
pub fn grammar_for(team_names: &TeamNames) -> (g: Grammar)
    ensures
        g@ == core_grammar(team_names@),
{
    let sides = vec![
        SideToken { text: chars_of(team_names.allies.as_str()), ci: true, side: Side::Allies },
        SideToken { text: chars_of(team_names.axis.as_str()), ci: true, side: Side::Axis },
    ];
    let g = Grammar { sides, spaces: SpaceRule::Any };
    assert(g@.sides =~= core_grammar(team_names@).sides);
    g
}

/// The save described by the elements of a save name.
pub open spec fn fields_save(f: FieldsView) -> SaveView {
    SaveView { player: f.player, turn: Turn { side: f.side, number: f.turn }, part: f.part }
}

fn fields_into_save(f: Fields) -> (r: Save)
    ensures
        r@ == fields_save(f@),
{
    Save { player: f.player, turn: Turn::new(f.side, f.turn), part: f.part }
}

/// The save a whole name stands for, if the name follows the grammar.
pub open spec fn spec_parse_save_name(names: TeamNamesView, name: Seq<char>) -> Option<SaveView> {
    match fields_at(core_grammar(names), name, 0) {
        Some((f, e)) => if e == name.len() {
            Some(fields_save(f))
        } else {
            None
        },
        None => None,
    }
}

/// A name that does not stand for a save.
#[derive(Debug, PartialEq)]
pub struct ParseSaveError;

/// The save at the start of `input`, and the number of characters it takes.
pub fn parse_save(team_names: &TeamNames, input: &str) -> (r: Result<(Save, usize), ParseSaveError>)
    ensures
        match r {
            Ok((save, n)) => fields_at(core_grammar(team_names@), input@, 0) matches Some((f, e))
                && save@ == fields_save(f) && n == e,
            Err(_) => fields_at(core_grammar(team_names@), input@, 0) is None,
        },
{
    let g = grammar_for(team_names);
    let s = chars_of(input);
    match fields_at_exec(&g, &s, 0) {
        Some((f, e)) => Ok((fields_into_save(f), e)),
        None => Err(ParseSaveError),
    }
}

/// The side at the start of `input`, and the number of characters it takes.
pub fn parse_side(team_names: &TeamNames, input: &str) -> (r: Result<(Side, usize), ParseSaveError>)
    ensures
        match r {
            Ok((side, n)) => side_at(core_grammar(team_names@), input@, 0) == Some((side, n as int)),
            Err(_) => side_at(core_grammar(team_names@), input@, 0) is None,
        },
{
    let g = grammar_for(team_names);
    let s = chars_of(input);
    match side_at_exec(&g, &s, 0) {
        Some(r) => Ok(r),
        None => Err(ParseSaveError),
    }
}

/// The player at the start of `input`, and the number of characters it takes.
pub fn parse_player(input: &str) -> (r: Result<(String, usize), ParseSaveError>)
    ensures
        match r {
            Ok((p, n)) => player_at(input@, 0) == Some((p@, n as int)),
            Err(_) => player_at(input@, 0) is None,
        },
{
    let s = chars_of(input);
    match player_at_exec(&s, 0) {
        Some(r) => Ok(r),
        None => Err(ParseSaveError),
    }
}

/// The turn number at the start of `input`, and the number of characters it takes.
pub fn parse_turn(input: &str) -> (r: Result<(u32, usize), ParseSaveError>)
    ensures
        match r {
            Ok((t, n)) => turn_at(input@, 0) == Some((t, n as int)),
            Err(_) => turn_at(input@, 0) is None,
        },
{
    let s = chars_of(input);
    match turn_at_exec(&s, 0) {
        Some(r) => Ok(r),
        None => Err(ParseSaveError),
    }
}

/// The part at the start of `input`, and the number of characters it takes.
pub fn parse_part(input: &str) -> (r: Result<(String, usize), ParseSaveError>)
    ensures
        match r {
            Ok((p, n)) => part_at(input@, 0) == Some((p@, n as int)),
            Err(_) => part_at(input@, 0) is None,
        },
{
    let s = chars_of(input);
    let (p, n) = opt_part_at_exec(&s, 0);
    match p {
        Some(p) => Ok((p, n)),
        None => Err(ParseSaveError),
    }
}

/// The save that the whole of `name` stands for.
pub fn parse_save_name(team_names: &TeamNames, name: &str) -> (r: Option<Save>)
    ensures
        opt_save_view(r) == spec_parse_save_name(team_names@, name@),
{
    let g = grammar_for(team_names);
    let s = chars_of(name);
    match fields_at_exec(&g, &s, 0) {
        Some((f, e)) => if e == s.len() {
            Some(fields_into_save(f))
        } else {
            None
        },
        None => None,
    }
}

pub open spec fn opt_save_view(s: Option<Save>) -> Option<SaveView> {
    match s {
        Some(x) => Some(x@),
        None => None,
    }
}

/// Where the segment of `p[..e]` that ends at `e` begins: after the last
/// separator (see [`is_separator`]) before `e`.
pub open spec fn segment_start(p: Seq<char>, e: int) -> int
    decreases e,
{
    if e <= 0 || e > p.len() {
        0
    } else if is_separator(p[e - 1]) {
        e
    } else {
        segment_start(p, e - 1)
    }
}

pub proof fn lemma_segment_start_bound(p: Seq<char>, e: int)
    requires
        0 < e <= p.len(),
        !is_separator(p[e - 1]),
    ensures
        0 <= segment_start(p, e) < e,
    decreases e,
{
    assert(segment_start(p, e) == segment_start(p, e - 1));
    if e > 1 && !is_separator(p[e - 2]) {
        lemma_segment_start_bound(p, e - 1);
    } else if e > 1 {
        assert(segment_start(p, e - 1) == e - 1);
    } else {
        assert(segment_start(p, 0) == 0);
    }
}

/// The last component of the path `p[..e]`: empty segments
/// and `.` segments are skipped; a path that ends in `..` has none.
pub open spec fn file_name_upto(p: Seq<char>, e: int) -> Option<Seq<char>>
    decreases e,
{
    if e <= 0 || e > p.len() {
        None
    } else if is_separator(p[e - 1]) {
        file_name_upto(p, e - 1)
    } else {
        let b = segment_start(p, e);
        proof {
            lemma_segment_start_bound(p, e);
        }
        let seg = p.subrange(b, e);
        if seg == seq!['.'] {
            file_name_upto(p, b)
        } else if seg == seq!['.', '.'] {
            None
        } else {
            Some(seg)
        }
    }
}

/// The file name of a path.
pub open spec fn file_name(p: Seq<char>) -> Option<Seq<char>> {
    file_name_upto(p, p.len() as int)
}

/// The position of the first `.` in `n`, or its length.
pub open spec fn first_dot(n: Seq<char>, i: int) -> int
    decreases n.len() - i,
{
    if i >= n.len() {
        n.len() as int
    } else if n[i] == '.' {
        i
    } else {
        first_dot(n, i + 1)
    }
}

/// The part of a file name before its first `.`.
pub open spec fn stem(n: Seq<char>) -> Seq<char> {
    n.take(first_dot(n, 0))
}

/// The save a file path stands for: the part of its file name before the
/// first `.` is a save name.
pub open spec fn spec_path_to_save(names: TeamNamesView, path: Seq<char>) -> Option<SaveView> {
    match file_name(path) {
        Some(n) => spec_parse_save_name(names, stem(n)),
        None => None,
    }
}

fn segment_start_exec(p: &Vec<char>, e: usize) -> (r: usize)
    requires
        e <= p@.len(),
    ensures
        r == segment_start(p@, e as int),
        r <= e,
{
    let mut b = e;
    while b > 0 && !separator(p[b - 1])
        invariant
            b <= e <= p@.len(),
            segment_start(p@, b as int) == segment_start(p@, e as int),
        decreases b,
    {
        b -= 1;
    }
    b
}

/// The file name of a path, as the range of its characters.
fn file_name_range(p: &Vec<char>) -> (r: Option<(usize, usize)>)
    ensures
        match r {
            Some((b, e)) => b <= e <= p@.len() && file_name(p@) == Some(p@.subrange(b as int, e as int)),
            None => file_name(p@) is None,
        },
{
    let mut e = p.len();
    while e > 0
        invariant
            e <= p@.len(),
            file_name_upto(p@, e as int) == file_name(p@),
        decreases e,
    {
        if separator(p[e - 1]) {
            e -= 1;
        } else {
            let b = segment_start_exec(p, e);
            let dot = e - b == 1 && p[b] == '.';
            let dotdot = e - b == 2 && p[b] == '.' && p[b + 1] == '.';
            proof {
                let seg = p@.subrange(b as int, e as int);
                if dot {
                    assert(seg =~= seq!['.']);
                } else {
                    assert(seg != seq!['.']) by {
                        if e - b == 1 {
                            assert(seg[0] == p@[b as int]);
                            assert(seg[0] != '.');
                        } else {
                            assert(seg.len() != seq!['.'].len());
                        }
                    }
                }
                if dotdot {
                    assert(seg =~= seq!['.', '.']);
                } else {
                    assert(seg != seq!['.', '.']) by {
                        if e - b == 2 {
                            assert(seg[0] == p@[b as int]);
                            assert(seg[1] == p@[b + 1]);
                            assert(seg[0] != '.' || seg[1] != '.');
                        } else {
                            assert(seg.len() != seq!['.', '.'].len());
                        }
                    }
                }
            }
            if dot {
                e = b;
            } else if dotdot {
                return None;
            } else {
                return Some((b, e));
            }
        }
    }
    None
}

/// The part before the first `.` of the file name of a path.
pub fn file_stem(path: &str) -> (r: Option<String>)
    ensures
        match r {
            Some(n) => file_name(path@) matches Some(f) && n@ == stem(f),
            None => file_name(path@) is None,
        },
{
    let p = chars_of(path);
    let (b, e) = match file_name_range(&p) {
        Some(range) => range,
        None => return None,
    };
    let ghost n = p@.subrange(b as int, e as int);
    let mut d = b;
    while d < e && p[d] != '.'
        invariant
            b <= d <= e <= p@.len(),
            n == p@.subrange(b as int, e as int),
            first_dot(n, d - b) == first_dot(n, 0),
        decreases e - d,
    {
        d += 1;
    }
    let name = crate::text::string_of(&p, b, d);
    assert(name@ =~= stem(n));
    Some(name)
}

/// The save that the file at `path` (a path) stands for: the
/// part of the file name before its first `.` must be a whole save name.
pub fn path_to_save(path: &str, team_names: &TeamNames) -> (r: Option<Save>)
    ensures
        opt_save_view(r) == spec_path_to_save(team_names@, path@),
{
    match file_stem(path) {
        Some(name) => parse_save_name(team_names, name.as_str()),
        None => None,
    }
}

} // verus!

verus! {

/// The text `t` occurs somewhere in `s`, regardless of ASCII case.
pub open spec fn contains_ci(s: Seq<char>, t: Seq<char>) -> bool {
    exists|i: int| 0 <= i <= s.len() && #[trigger] token_at(s, i, t, true)
}

pub open spec fn allies_word() -> Seq<char> {
    seq!['a', 'l', 'l', 'i', 'e', 's']
}

pub open spec fn axis_word() -> Seq<char> {
    seq!['a', 'x', 'i', 's']
}

/// The side a text names: `allies` anywhere in it, regardless of case, names
/// the Allies; failing that, `axis` anywhere names the Axis.
pub open spec fn detected_side(s: Seq<char>) -> Option<Side> {
    if contains_ci(s, allies_word()) {
        Some(Side::Allies)
    } else if contains_ci(s, axis_word()) {
        Some(Side::Axis)
    } else {
        None
    }
}

/// Whether `t` occurs in `s`, regardless of ASCII case.
pub fn contains_ci_exec(s: &Vec<char>, t: &Vec<char>) -> (r: bool)
    ensures
        r == contains_ci(s@, t@),
{
    let mut i: usize = 0;
    while i < s.len()
        invariant
            i <= s@.len(),
            forall|j: int| 0 <= j < i ==> !#[trigger] token_at(s@, j, t@, true),
        decreases s.len() - i,
    {
        if token_at_exec(s, i, t, true) {
            return true;
        }
        i += 1;
    }
    if token_at_exec(s, i, t, true) {
        return true;
    }
    assert forall|j: int| 0 <= j <= s@.len() implies !#[trigger] token_at(s@, j, t@, true) by {
        if j < i {
        } else {
            assert(j == i);
        }
    }
    false
}

/// A text that names neither side.
#[derive(Debug)]
pub struct UnknownSideError(pub String);

/// What the user is told of an [`UnknownSideError`]: `unknown side` and the
/// text.
pub open spec fn unknown_side_text(text: Seq<char>) -> Seq<char> {
    "unknown side "@ + text
}

impl UnknownSideError {
    /// What the user is told of this error, see [`unknown_side_text`].
    pub fn to_string(&self) -> (r: String)
        ensures
            r@ == unknown_side_text(self.0@),
    {
        let mut s = String::new();
        crate::text::push_str(&mut s, "unknown side ");
        crate::text::push_str(&mut s, self.0.as_str());
        s
    }
}

impl Side {
    /// Guesses which side a text names, see [`detected_side`]: `allies`
    /// anywhere in it names the Allies, otherwise `axis` names the Axis,
    /// regardless of case.
    pub fn detect_side_in_string(string: &str) -> (r: Result<Side, UnknownSideError>)
        ensures
            match r {
                Ok(side) => detected_side(string@) == Some(side),
                Err(e) => detected_side(string@) is None && e.0@ == string@,
            },
    {
        let s = chars_of(string);
        proof {
            reveal_strlit("allies");
            reveal_strlit("axis");
        }
        let allies = chars_of("allies");
        let axis = chars_of("axis");
        assert(allies@ =~= allies_word());
        assert(axis@ =~= axis_word());
        if contains_ci_exec(&s, &allies) {
            Ok(Side::Allies)
        } else if contains_ci_exec(&s, &axis) {
            Ok(Side::Axis)
        } else {
            let mut owned = String::new();
            crate::text::push_str(&mut owned, string);
            Err(UnknownSideError(owned))
        }
    }
}

impl core::str::FromStr for Side {
    type Err = UnknownSideError;

    /// The side `s` names, see [`Side::detect_side_in_string`].
    fn from_str(s: &str) -> (r: Result<Side, UnknownSideError>)
        ensures
            match r {
                Ok(side) => detected_side(s@) == Some(side),
                Err(e) => detected_side(s@) is None && e.0@ == s@,
            },
    {
        Side::detect_side_in_string(s)
    }
}

} // verus!

verus! {

/// The position of the last `.` among the first `e` characters of `n`, or -1.
pub open spec fn last_dot_before(n: Seq<char>, e: int) -> int
    decreases e,
{
    if e <= 0 || e > n.len() {
        -1
    } else if n[e - 1] == '.' {
        e - 1
    } else {
        last_dot_before(n, e - 1)
    }
}

/// The extension of a path: what follows the last `.` of its
/// file name, when that `.` is not the first character of the name.
pub open spec fn extension(p: Seq<char>) -> Option<Seq<char>> {
    match file_name(p) {
        Some(n) => {
            let d = last_dot_before(n, n.len() as int);
            if d > 0 {
                Some(n.skip(d + 1))
            } else {
                None
            }
        },
        None => None,
    }
}

/// The extension of a path, see [`extension`].
pub fn file_extension(path: &str) -> (r: Option<String>)
    ensures
        match r {
            Some(x) => extension(path@) == Some(x@),
            None => extension(path@) is None,
        },
{
    let p = chars_of(path);
    let (b, e) = match file_name_range(&p) {
        Some(range) => range,
        None => return None,
    };
    let ghost n = p@.subrange(b as int, e as int);
    let mut d = e;
    while d > b && p[d - 1] != '.'
        invariant
            b <= d <= e <= p@.len(),
            n == p@.subrange(b as int, e as int),
            last_dot_before(n, d - b) == last_dot_before(n, n.len() as int),
        decreases d,
    {
        d -= 1;
    }
    if d - b > 1 {
        assert(n[d - b - 1] == '.');
        let x = crate::text::string_of(&p, d, e);
        assert(x@ =~= n.skip(d - b));
        Some(x)
    } else {
        None
    }
}

} // verus!
