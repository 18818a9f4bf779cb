//! Laws about save names: the name of a save reads back as that save.
use vstd::prelude::*;
use crate::config::default_team_names;
use crate::cli::save::{SaveNameView, cli_grammar, spec_parse_cli_save, turn_save_view};
use crate::grammar::{
    side_at_from, CharClass, FieldsView, GrammarView, SpaceRule, fields_at, in_class, part_at, part_word, player_at,
    player_turn_at, run_end, side_at, side_turn_at, skip_spaces, start_turn_at, start_word, token_at,
    turn_at, turn_player_at, opt_part_at, pow10,
};
use crate::parse::{core_grammar, fields_save, spec_parse_save_name, spec_path_to_save, file_name, file_name_upto, segment_start, stem, first_dot};
use crate::path::{is_separator, join, separator_for};
use crate::save::{SaveView, Side, save_name, side_name};
use crate::text::{
    all_digits, decimal, digits_value, is_alnum, is_alpha, is_digit, lower, lower_all,
    lemma_decimal_digits, lemma_decimal_length,
};

verus! {

/// A run of `len` characters of `class` at `i`, followed by the end of `s`,
/// by a character of another class, or by nothing more than `max` allows,
/// ends at `i + len`.
pub proof fn lemma_run_end(class: CharClass, s: Seq<char>, i: int, max: nat, len: nat)
    requires
        0 <= i,
        i + len <= s.len(),
        len <= max,
        forall|k: int| 0 <= k < len ==> in_class(class, #[trigger] s[i + k]),
        i + len == s.len() || !in_class(class, s[i + len]) || len == max,
    ensures
        run_end(class, s, i, max) == i + len,
    decreases len,
{
    if len > 0 {
        assert(in_class(class, s[i + 0]));
        assert forall|k: int| 0 <= k < len - 1 implies in_class(class, #[trigger] s[(i + 1) + k]) by {
            assert(s[(i + 1) + k] == s[i + (k + 1)]);
        }
        lemma_run_end(class, s, i + 1, (max - 1) as nat, (len - 1) as nat);
    }
}

/// One space followed by something else is skipped, whatever the rule.
pub proof fn lemma_one_space(rule: SpaceRule, s: Seq<char>, j: int)
    requires
        0 <= j < s.len(),
        s[j] == ' ',
        j + 1 == s.len() || s[j + 1] != ' ',
    ensures
        skip_spaces(rule, s, j) == j + 1,
{
    assert(skip_spaces(rule, s, j + 1) == j + 1);
}

/// A grammar reads the names of the sides: a text that starts with a side's
/// name and a space starts with that side.
pub open spec fn reads_side_names(g: GrammarView) -> bool {
    forall|side: Side, rest: Seq<char>|
        #[trigger] side_at(g, side_name(side) + seq![' '] + rest, 0) == Some((side, side_name(side).len() as int))
}

/// The saves whose names read back as themselves: a turn number of at most
/// four digits; a player of 1 to 99 ASCII letters that is not the word
/// `start`; and a part (only together with a player) of 1 to 99 ASCII
/// letters and digits that starts with a letter.
pub open spec fn nameable(s: SaveView) -> bool {
    &&& s.turn.number <= 9999
    &&& match s.player {
        None => s.part is None,
        Some(p) => {
            &&& 1 <= p.len() <= 99
            &&& forall|i: int| 0 <= i < p.len() ==> is_alpha(#[trigger] p[i])
            &&& lower_all(p) != start_word()
            &&& match s.part {
                None => true,
                Some(q) => {
                    &&& 1 <= q.len() <= 99
                    &&& forall|i: int| 0 <= i < q.len() ==> is_alnum(#[trigger] q[i])
                    &&& is_alpha(q[0])
                },
            }
        },
    }
}

/// The elements of a save's name.
pub open spec fn fields_of(s: SaveView) -> FieldsView {
    FieldsView { side: s.turn.side, player: s.player, turn: s.turn.number, part: s.part }
}

/// The name of a save without a player reads back as its side and turn.
proof fn lemma_fields_of_start_name(g: GrammarView, s: SaveView)
    requires
        reads_side_names(g),
        nameable(s),
        s.player is None,
    ensures
        fields_at(g, save_name(s), 0) == Some((fields_of(s), save_name(s).len() as int)),
{
    let side = s.turn.side;
    let sn = side_name(side);
    let d = decimal(s.turn.number as nat);
    let n = save_name(s);
    let l = sn.len() as int;
    assert(pow10(0) == 1);
    assert(pow10(1) == 10);
    assert(pow10(2) == 100);
    assert(pow10(3) == 1000);
    assert(pow10(4) == 10000);
    lemma_decimal_digits(s.turn.number as nat);
    lemma_decimal_length(s.turn.number as nat, 4);
    assert(n == sn + seq![' '] + d);
    assert(side_at(g, sn + seq![' '] + d, 0) == Some((side, l)));
    assert(n[l] == ' ');
    assert forall|k: int| 0 <= k < d.len() implies #[trigger] n[(l + 1) + k] == d[k] by {}
    assert(n[l + 1] == d[0]);
    assert(is_digit(d[0]));
    lemma_one_space(g.spaces, n, l);
    // no `start`: a digit is not `s`
    assert(!token_at(n, l + 1, start_word(), true)) by {
        assert(!crate::grammar::same_char(n[(l + 1) + 0], start_word()[0], true));
    }
    assert(start_turn_at(g, n, 0) is None);
    // the turn number runs to the end
    assert forall|k: int| 0 <= k < d.len() implies in_class(CharClass::Digit, #[trigger] n[(l + 1) + k]) by {
        assert(is_digit(d[k]));
    }
    lemma_run_end(CharClass::Digit, n, l + 1, 4, d.len());
    assert(n.subrange(l + 1, n.len() as int) =~= d);
    assert(turn_at(n, l + 1) == Some((s.turn.number, n.len() as int)));
    // no player after the number
    assert(skip_spaces(g.spaces, n, n.len() as int) == n.len());
    assert(run_end(CharClass::Alpha, n, n.len() as int, 99) == n.len());
    assert(turn_player_at(g, n, 0) is None);
    // no player before the number
    assert(!in_class(CharClass::Alpha, n[l + 1]));
    assert(run_end(CharClass::Alpha, n, l + 1, 99) == l + 1);
    assert(player_turn_at(g, n, 0) is None);
    assert(side_turn_at(g, n, 0) == Some((fields_of(s), n.len() as int)));
}

/// How a name with a player is laid out: the side's name (`l` characters),
/// a space, the player `p`, a space, the digits `d` and the part `q`.
pub open spec fn player_layout(n: Seq<char>, l: int, p: Seq<char>, d: Seq<char>, q: Seq<char>) -> bool {
    &&& 0 <= l
    &&& n.len() == l + 2 + p.len() + d.len() + q.len()
    &&& n[l] == ' '
    &&& forall|k: int| 0 <= k < p.len() ==> n[l + 1 + k] == #[trigger] p[k]
    &&& n[l + 1 + p.len()] == ' '
    &&& forall|k: int| 0 <= k < d.len() ==> n[l + 2 + p.len() + k] == #[trigger] d[k]
    &&& forall|k: int| 0 <= k < q.len() ==> n[l + 2 + p.len() + d.len() + k] == #[trigger] q[k]
}

/// What the elements of a name with a player are like, see [`nameable`].
pub open spec fn player_elements(p: Seq<char>, d: Seq<char>, q: Seq<char>) -> bool {
    &&& 1 <= p.len() <= 99
    &&& forall|i: int| 0 <= i < p.len() ==> is_alpha(#[trigger] p[i])
    &&& lower_all(p) != start_word()
    &&& 1 <= d.len() <= 4
    &&& all_digits(d)
    &&& q.len() <= 99
    &&& forall|i: int| 0 <= i < q.len() ==> is_alnum(#[trigger] q[i])
    &&& q.len() > 0 ==> is_alpha(q[0])
}

proof fn lemma_player_name_not_start(g: GrammarView, n: Seq<char>, l: int, p: Seq<char>, d: Seq<char>, q: Seq<char>)
    requires
        player_layout(n, l, p, d, q),
        player_elements(p, d, q),
    ensures
        token_at(n, l + 1, start_word(), true) ==> turn_at(n, skip_spaces(g.spaces, n, l + 1 + 5)) is None,
{
    let pp = l + 1;
    if token_at(n, pp, start_word(), true) {
        if p.len() < 5 {
            assert(n[pp + p.len()] == ' ');
            assert(crate::grammar::same_char(n[pp + p.len()], start_word()[p.len() as int], true));
            assert(false);
        } else if p.len() == 5 {
            assert forall|k: int| 0 <= k < 5 implies lower_all(p)[k] == start_word()[k] by {
                assert(crate::grammar::same_char(n[pp + k], start_word()[k], true));
                assert(n[pp + k] == p[k]);
            }
            assert(lower_all(p) =~= start_word());
        } else {
            assert(n[pp + 5] == p[5]);
            assert(is_alpha(p[5]));
            assert(skip_spaces(g.spaces, n, pp + 5) == pp + 5);
            assert(run_end(CharClass::Digit, n, pp + 5, 4) == pp + 5);
        }
    }
}

proof fn lemma_player_name_player_turn(g: GrammarView, n: Seq<char>, l: int, side: Side, p: Seq<char>, d: Seq<char>, q: Seq<char>)
    requires
        player_layout(n, l, p, d, q),
        player_elements(p, d, q),
        side_at(g, n, 0) == Some((side, l)),
    ensures
        player_turn_at(g, n, 0) == Some((
            FieldsView {
                side,
                player: Some(p),
                turn: digits_value(d) as u32,
                part: if q.len() > 0 { Some(q) } else { None },
            },
            n.len() as int,
        )),
{
    let pp = l + 1;
    let a = pp + p.len();
    let dd = a + 1;
    let qq = dd + d.len();
    assert(n[pp] == p[0]);
    lemma_one_space(g.spaces, n, l);
    assert forall|k: int| 0 <= k < p.len() implies in_class(CharClass::Alpha, #[trigger] n[pp + k]) by {
        assert(n[pp + k] == p[k]);
        assert(is_alpha(p[k]));
    }
    lemma_run_end(CharClass::Alpha, n, pp, 99, p.len());
    assert(n.subrange(pp, a) =~= p);
    assert(player_at(n, pp) == Some((p, a)));
    assert(n[dd] == d[0]);
    assert(is_digit(d[0]));
    lemma_one_space(g.spaces, n, a);
    assert forall|k: int| 0 <= k < d.len() implies in_class(CharClass::Digit, #[trigger] n[dd + k]) by {
        assert(n[dd + k] == d[k]);
        assert(is_digit(d[k]));
    }
    if q.len() > 0 {
        assert(n[qq] == q[0]);
    }
    lemma_run_end(CharClass::Digit, n, dd, 4, d.len());
    assert(n.subrange(dd, qq) =~= d);
    assert(turn_at(n, dd) == Some((digits_value(d) as u32, qq)));
    if q.len() > 0 {
        assert(skip_spaces(g.spaces, n, qq) == qq);
        assert(!token_at(n, qq, part_word(), false)) by {
            if q.len() >= 5 {
                assert(n[qq + 4] == q[4]);
                assert(is_alnum(q[4]));
            }
        }
        assert forall|k: int| 0 <= k < q.len() implies in_class(CharClass::Alnum, #[trigger] n[qq + k]) by {
            assert(n[qq + k] == q[k]);
            assert(is_alnum(q[k]));
        }
        lemma_run_end(CharClass::Alnum, n, qq, 99, q.len());
        assert(n.subrange(qq, n.len() as int) =~= q);
        assert(part_at(n, qq) == Some((q, n.len() as int)));
    } else {
        assert(skip_spaces(g.spaces, n, qq) == qq);
        assert(!token_at(n, qq, part_word(), false));
        assert(run_end(CharClass::Alnum, n, qq, 99) == qq);
    }
}

/// The name of a save with a player reads back as its side, player, turn
/// and part.
proof fn lemma_fields_of_player_name(g: GrammarView, s: SaveView)
    requires
        reads_side_names(g),
        nameable(s),
        s.player is Some,
    ensures
        fields_at(g, save_name(s), 0) == Some((fields_of(s), save_name(s).len() as int)),
{
    let side = s.turn.side;
    let sn = side_name(side);
    let p = s.player->0;
    assert(pow10(0) == 1);
    assert(pow10(1) == 10);
    assert(pow10(2) == 100);
    assert(pow10(3) == 1000);
    assert(pow10(4) == 10000);
    lemma_decimal_digits(s.turn.number as nat);
    lemma_decimal_length(s.turn.number as nat, 4);
    let d = decimal(s.turn.number as nat);
    let q = match s.part {
        Some(q) => q,
        None => Seq::<char>::empty(),
    };
    let n = save_name(s);
    let l = sn.len() as int;
    assert(n =~= sn + seq![' '] + (p + seq![' '] + d + q));
    assert(side_at(g, sn + seq![' '] + (p + seq![' '] + d + q), 0) == Some((side, l)));
    assert(player_layout(n, l, p, d, q));
    assert(player_elements(p, d, q));
    lemma_one_space(g.spaces, n, l);
    lemma_player_name_not_start(g, n, l, p, d, q);
    assert(start_turn_at(g, n, 0) is None);
    assert(n[l + 1] == p[0]);
    assert(is_alpha(p[0]));
    assert(run_end(CharClass::Digit, n, l + 1, 4) == l + 1);
    assert(turn_player_at(g, n, 0) is None);
    lemma_player_name_player_turn(g, n, l, side, p, d, q);
    assert(if q.len() > 0 { Some(q) } else { None } == s.part);
}

/// In a grammar that reads the names of the sides, the whole name of a
/// nameable save reads back as the elements of the save.
pub proof fn lemma_fields_of_name(g: GrammarView, s: SaveView)
    requires
        reads_side_names(g),
        nameable(s),
    ensures
        fields_at(g, save_name(s), 0) == Some((fields_of(s), save_name(s).len() as int)),
{
    if s.player is Some {
        lemma_fields_of_player_name(g, s);
    } else {
        lemma_fields_of_start_name(g, s);
    }
}

/// The grammar of save files, with the default team names, reads the
/// names of the sides.
pub proof fn lemma_core_grammar_reads_side_names()
    ensures
        reads_side_names(core_grammar(default_team_names())),
{
    let g = core_grammar(default_team_names());
    assert forall|side: Side, rest: Seq<char>| #[trigger] side_at(g, side_name(side) + seq![' '] + rest, 0)
        == Some((side, side_name(side).len() as int)) by {
        let n = side_name(side) + seq![' '] + rest;
        assert(g.sides[0].text == side_name(Side::Allies));
        assert(g.sides[1].text == side_name(Side::Axis));
        match side {
            Side::Allies => {
                assert forall|k: int| 0 <= k < 6 implies crate::grammar::same_char(#[trigger] n[0 + k], g.sides[0].text[k], true) by {
                    assert(n[0 + k] == side_name(Side::Allies)[k]);
                }
                assert(token_at(n, 0, g.sides[0].text, true));
            },
            Side::Axis => {
                assert(n[1] == 'x');
                assert(!crate::grammar::same_char(n[1int], g.sides[0].text[1], true));
                assert(!token_at(n, 0, g.sides[0].text, true));
                assert forall|k: int| 0 <= k < 4 implies crate::grammar::same_char(#[trigger] n[0 + k], g.sides[1].text[k], true) by {
                    assert(n[0 + k] == side_name(Side::Axis)[k]);
                }
                assert(token_at(n, 0, g.sides[1].text, true));
                assert(crate::grammar::side_at_from(g.sides, 1, n, 0) == Some((Side::Axis, 4int)));
            },
        }
    }
}

/// The name of every nameable save reads back as that save, in the grammar
/// of save files with the default team names.
pub proof fn lemma_save_name_reads_back(s: SaveView)
    requires
        nameable(s),
    ensures
        spec_parse_save_name(default_team_names(), save_name(s)) == Some(s),
{
    lemma_core_grammar_reads_side_names();
    lemma_fields_of_name(core_grammar(default_team_names()), s);
    assert(fields_save(fields_of(s)) == s);
}

/// The grammar of the command line tool reads the names of the sides.
pub proof fn lemma_cli_grammar_reads_side_names()
    ensures
        reads_side_names(cli_grammar()),
{
    let g = cli_grammar();
    assert forall|side: Side, rest: Seq<char>| #[trigger] side_at(g, side_name(side) + seq![' '] + rest, 0)
        == Some((side, side_name(side).len() as int)) by {
        let n = side_name(side) + seq![' '] + rest;
        match side {
            Side::Allies => {
                assert forall|k: int| 0 <= k < 6 implies crate::grammar::same_char(#[trigger] n[0 + k], g.sides[0].text[k], false) by {
                    assert(n[0 + k] == side_name(Side::Allies)[k]);
                }
                assert(token_at(n, 0, g.sides[0].text, false));
            },
            Side::Axis => {
                assert(n[0int] == 'A');
                assert(n[1int] == 'x');
                assert(!crate::grammar::same_char(n[1int], g.sides[0].text[1], false));
                assert(!token_at(n, 0, g.sides[0].text, false));
                assert(!crate::grammar::same_char(n[0int], g.sides[1].text[0], false));
                assert(!token_at(n, 0, g.sides[1].text, false));
                assert forall|k: int| 0 <= k < 4 implies crate::grammar::same_char(#[trigger] n[0 + k], g.sides[2].text[k], false) by {
                    assert(n[0 + k] == side_name(Side::Axis)[k]);
                }
                assert(token_at(n, 0, g.sides[2].text, false));
                assert(side_at_from(g.sides, 2, n, 0) == Some((Side::Axis, 4int)));
                assert(side_at_from(g.sides, 1, n, 0) == Some((Side::Axis, 4int)));
            },
        }
    }
}

/// The name of every nameable turn save reads back as that save in the
/// command line tool.
#[verifier::spinoff_prover]
#[verifier::rlimit(40)]
pub proof fn lemma_turn_save_name_reads_back(f: FieldsView)
    requires
        nameable(turn_save_view(f)),
    ensures
        spec_parse_cli_save(save_name(turn_save_view(f))) == Some(SaveNameView::Turn(f)),
{
    let s = turn_save_view(f);
    let n = save_name(s);
    lemma_cli_grammar_reads_side_names();
    lemma_fields_of_name(cli_grammar(), s);
    assert(fields_of(s) == f);
    let sn = side_name(f.side);
    assert(n[0] == sn[0]);
    assert(n[1] == sn[1]);
    assert(!token_at(n, 0, seq!['a', 'u', 't', 'o', 's', 'a', 'v', 'e'], false)) by {
        assert(!crate::grammar::same_char(n[0int], 'a', false));
    }
    assert(!token_at(n, 0, seq!['A', 'u', 't', 'o', 's', 'a', 'v', 'e'], false)) by {
        assert(!crate::grammar::same_char(n[1int], 'u', false));
    }
}

/// Every character of a save's name is a letter, a digit or a space.
proof fn lemma_name_chars(s: SaveView)
    requires
        nameable(s),
    ensures
        forall|i: int| 0 <= i < save_name(s).len() ==> is_alnum(#[trigger] save_name(s)[i]) || save_name(s)[i] == ' ',
        save_name(s).len() > 0 && is_alpha(save_name(s)[0]),
{
    let sn = side_name(s.turn.side);
    let d = decimal(s.turn.number as nat);
    lemma_decimal_digits(s.turn.number as nat);
    let n = save_name(s);
    match s.player {
        None => {
            assert(n == sn + seq![' '] + d);
            assert forall|i: int| 0 <= i < n.len() implies is_alnum(#[trigger] n[i]) || n[i] == ' ' by {
                if i >= sn.len() + 1 {
                    assert(n[i] == d[i - sn.len() - 1]);
                    assert(is_digit(d[i - sn.len() - 1]));
                }
            }
        },
        Some(p) => {
            let q = match s.part {
                Some(q) => q,
                None => Seq::<char>::empty(),
            };
            assert(n =~= sn + seq![' '] + p + seq![' '] + d + q);
            let a = sn.len() + 1;
            let b = a + p.len() + 1;
            let c = b + d.len();
            assert forall|i: int| 0 <= i < n.len() implies is_alnum(#[trigger] n[i]) || n[i] == ' ' by {
                if a <= i < a + p.len() {
                    assert(n[i] == p[i - a]);
                    assert(is_alpha(p[i - a]));
                } else if b <= i < c {
                    assert(n[i] == d[i - b]);
                    assert(is_digit(d[i - b]));
                } else if c <= i {
                    assert(n[i] == q[i - c]);
                    assert(is_alnum(q[i - c]));
                }
            }
        },
    }
    assert(n[0] == sn[0]);
}

proof fn lemma_segment_start_after(p: Seq<char>, b: int, e: int)
    requires
        0 <= b <= e <= p.len(),
        b == 0 || is_separator(p[b - 1]),
        forall|k: int| b <= k < p.len() ==> !is_separator(p[k]),
    ensures
        segment_start(p, e) == b,
    decreases e,
{
    if e > b {
        lemma_segment_start_after(p, b, e - 1);
    } else if b > 0 {
        assert(is_separator(p[e - 1]));
    }
}

/// The file name of a path made by joining a folder and a file name that
/// holds no separator and does not start with `.` is that file name.
pub proof fn lemma_file_name_of_join(base: Seq<char>, f: Seq<char>)
    requires
        f.len() > 0,
        f[0] != '.',
        forall|k: int| 0 <= k < f.len() ==> !is_separator(f[k]),
    ensures
        file_name(join(base, f)) == Some(f),
{
    let p = join(base, f);
    let b = p.len() - f.len();
    assert(!is_separator(f[0]));
    if base.len() == 0 || is_separator(base.last()) {
        assert(p == base + f);
    } else {
        assert(p == base + seq![separator_for(base)] + f);
        assert(is_separator(p[b - 1]));
    }
    assert forall|k: int| b <= k < p.len() implies !is_separator(p[k]) by {
        assert(p[k] == f[k - b]);
    }
    assert(p.subrange(b, p.len() as int) =~= f);
    assert(p[p.len() - 1] == f[f.len() - 1]);
    lemma_segment_start_after(p, b, p.len() as int);
    assert(f != seq!['.']) by {
        assert(f[0] != seq!['.'][0]);
    }
    assert(f != seq!['.', '.']) by {
        if f.len() == 2 {
            assert(f[0] != seq!['.', '.'][0]);
        }
    }
}

proof fn lemma_first_dot(n: Seq<char>, i: int, at: int)
    requires
        0 <= i <= at < n.len(),
        n[at] == '.',
        forall|k: int| 0 <= k < at ==> n[k] != '.',
    ensures
        first_dot(n, i) == at,
    decreases at - i,
{
    if i < at {
        lemma_first_dot(n, i + 1, at);
    }
}

/// A nameable save stored in a folder under its name and an extension (as
/// storages store saves) is read back from the file's path as that save.
pub proof fn lemma_stored_save_reads_back(folder: Seq<char>, s: SaveView, ext: Seq<char>)
    requires
        nameable(s),
        forall|k: int| 0 <= k < ext.len() ==> !is_separator(ext[k]),
    ensures
        spec_path_to_save(default_team_names(), join(folder, save_name(s) + seq!['.'] + ext)) == Some(s),
{
    let n = save_name(s);
    let f = n + seq!['.'] + ext;
    lemma_name_chars(s);
    assert(f[0] == n[0]);
    assert forall|k: int| 0 <= k < f.len() implies !is_separator(f[k]) by {
        if k < n.len() {
            assert(f[k] == n[k]);
            assert(is_alnum(n[k]) || n[k] == ' ');
        } else if k > n.len() {
            assert(f[k] == ext[k - n.len() - 1]);
        }
    }
    lemma_file_name_of_join(folder, f);
    assert forall|k: int| 0 <= k < n.len() implies f[k] != '.' by {
        assert(f[k] == n[k]);
        assert(is_alnum(n[k]) || n[k] == ' ');
    }
    lemma_first_dot(f, 0, n.len() as int);
    assert(stem(f) =~= n);
    lemma_save_name_reads_back(s);
}

} // verus!
