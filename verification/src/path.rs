//! Paths as text, separated by `/` or `\` (as on Windows): joining them and
//! telling when two paths name the same place.
use vstd::prelude::*;
use crate::text::{chars_of, push_char, push_str, same_chars};

verus! {

/// The characters that separate the components of a path: `/`, and `\` as
/// on Windows.
pub open spec fn is_separator(c: char) -> bool {
    c == '/' || c == '\\'
}

/// Whether `c` separates the components of a path, see [`is_separator`].
pub fn separator(c: char) -> (r: bool)
    ensures
        r == is_separator(c),
{
    c == '/' || c == '\\'
}

/// The separator put after `base` when joining: `\` when `base` holds one
/// (a Windows path), `/` otherwise.
pub open spec fn separator_for(base: Seq<char>) -> char {
    if base.contains('\\') {
        '\\'
    } else {
        '/'
    }
}

/// `base` followed by `rel`: a `rel` that starts at the root replaces
/// `base`; otherwise a separator (see [`separator_for`]) is put between them
/// unless `base` is empty or already ends in one.
pub open spec fn join(base: Seq<char>, rel: Seq<char>) -> Seq<char> {
    if rel.len() > 0 && is_separator(rel[0]) {
        rel
    } else if base.len() == 0 || is_separator(base.last()) {
        base + rel
    } else {
        base + seq![separator_for(base)] + rel
    }
}

/// `base` followed by `rel`, see [`join`].
pub fn join_path(base: &str, rel: &str) -> (r: String)
    ensures
        r@ == join(base@, rel@),
{
    let b = chars_of(base);
    let rc = chars_of(rel);
    let mut r = String::new();
    if rc.len() > 0 && separator(rc[0]) {
        push_str(&mut r, rel);
        assert(r@ =~= join(base@, rel@));
        return r;
    }
    push_str(&mut r, base);
    if b.len() > 0 && !separator(b[b.len() - 1]) {
        let mut windows = false;
        let mut i: usize = 0;
        while i < b.len()
            invariant
                i <= b@.len(),
                b@ == base@,
                windows == exists|k: int| 0 <= k < i && b@[k] == '\\',
            decreases b.len() - i,
        {
            if b[i] == '\\' {
                windows = true;
            }
            i += 1;
        }
        assert(windows == base@.contains('\\'));
        if windows {
            push_char(&mut r, '\\');
        } else {
            push_char(&mut r, '/');
        }
    }
    push_str(&mut r, rel);
    assert(r@ =~= join(base@, rel@));
    r
}

/// A segment between separators is kept as a component unless it is empty
/// or `.`.
pub open spec fn keep_segment(parts: Seq<Seq<char>>, seg: Seq<char>) -> Seq<Seq<char>> {
    if seg.len() == 0 || seg == seq!['.'] {
        parts
    } else {
        parts.push(seg)
    }
}

/// The components found so far in `p`, and the segment being read at its end.
pub open spec fn scan_components(p: Seq<char>) -> (Seq<Seq<char>>, Seq<char>)
    decreases p.len(),
{
    if p.len() == 0 {
        (Seq::empty(), Seq::empty())
    } else {
        let (parts, seg) = scan_components(p.drop_last());
        if is_separator(p.last()) {
            (keep_segment(parts, seg), Seq::empty())
        } else {
            (parts, seg.push(p.last()))
        }
    }
}

/// The named components of a path: the segments between separators,
/// without empty ones and without `.`.
pub open spec fn components(p: Seq<char>) -> Seq<Seq<char>> {
    keep_segment(scan_components(p).0, scan_components(p).1)
}

/// What tells paths apart: whether the path starts at the root, whether it
/// starts with a `.` component, and its named components.
pub struct PathKeyView {
    pub rooted: bool,
    pub cur_dir: bool,
    pub parts: Seq<Seq<char>>,
}

pub open spec fn path_key(p: Seq<char>) -> PathKeyView {
    PathKeyView {
        rooted: p.len() > 0 && is_separator(p[0]),
        cur_dir: (p.len() == 1 && p[0] == '.') || (p.len() > 1 && p[0] == '.' && is_separator(p[1])),
        parts: components(p),
    }
}

/// Two paths name the same place: they have the same components, so that
/// `a/b`, `a//b`, `a/./b`, `a/b/` and `a\b` are all the same path.
pub open spec fn same_path(a: Seq<char>, b: Seq<char>) -> bool {
    path_key(a) == path_key(b)
}

/// The components of a path, see [`components`].
pub fn components_of(p: &Vec<char>) -> (r: Vec<Vec<char>>)
    ensures
        r@.map_values(|c: Vec<char>| c@) == components(p@),
{
    let mut parts: Vec<Vec<char>> = Vec::new();
    let mut seg: Vec<char> = Vec::new();
    let mut i: usize = 0;
    while i < p.len()
        invariant
            i <= p@.len(),
            (parts@.map_values(|c: Vec<char>| c@), seg@) == scan_components(p@.take(i as int)),
        decreases p.len() - i,
    {
        let c = p[i];
        proof {
            assert(p@.take(i + 1).drop_last() =~= p@.take(i as int));
            assert(p@.take(i + 1).last() == c);
        }
        if separator(c) {
            let keep = !(seg.len() == 0 || (seg.len() == 1 && seg[0] == '.'));
            proof {
                if seg@.len() == 1 && seg@[0] == '.' {
                    assert(seg@ =~= seq!['.']);
                }
                if seg@ == seq!['.'] {
                    assert(seg@.len() == 1 && seg@[0] == '.');
                }
            }
            if keep {
                let ghost old_parts = parts@;
                parts.push(seg);
                assert(parts@.map_values(|c: Vec<char>| c@) =~= old_parts.map_values(
                    |c: Vec<char>| c@,
                ).push(seg@));
            }
            seg = Vec::new();
            proof {
                assert(seg@ =~= Seq::<char>::empty());
            }
        } else {
            seg.push(c);
        }
        i += 1;
    }
    assert(p@.take(p@.len() as int) =~= p@);
    let keep = !(seg.len() == 0 || (seg.len() == 1 && seg[0] == '.'));
    proof {
        if seg@.len() == 1 && seg@[0] == '.' {
            assert(seg@ =~= seq!['.']);
        }
        if seg@ == seq!['.'] {
            assert(seg@.len() == 1 && seg@[0] == '.');
        }
    }
    if keep {
        let ghost old_parts = parts@;
        parts.push(seg);
        assert(parts@.map_values(|c: Vec<char>| c@) =~= old_parts.map_values(|c: Vec<char>| c@).push(
            seg@,
        ));
    }
    parts
}

/// What tells a path apart from others, see [`path_key`].
pub struct PathKey {
    pub rooted: bool,
    pub cur_dir: bool,
    pub parts: Vec<Vec<char>>,
}

impl View for PathKey {
    type V = PathKeyView;

    open spec fn view(&self) -> PathKeyView {
        PathKeyView {
            rooted: self.rooted,
            cur_dir: self.cur_dir,
            parts: self.parts@.map_values(|c: Vec<char>| c@),
        }
    }
}

/// The key of a path, see [`path_key`].
pub fn path_key_of(path: &str) -> (r: PathKey)
    ensures
        r@ == path_key(path@),
{
    let p = chars_of(path);
    let rooted = p.len() > 0 && separator(p[0]);
    let cur_dir = (p.len() == 1 && p[0] == '.') || (p.len() > 1 && p[0] == '.' && separator(p[1]));
    let parts = components_of(&p);
    PathKey { rooted, cur_dir, parts }
}

/// Whether two keys are the same.
pub fn same_key(a: &PathKey, b: &PathKey) -> (r: bool)
    ensures
        r == (a@ == b@),
{
    if a.rooted != b.rooted || a.cur_dir != b.cur_dir || a.parts.len() != b.parts.len() {
        assert(a@.parts.len() == a.parts@.len());
        assert(b@.parts.len() == b.parts@.len());
        return false;
    }
    let mut i: usize = 0;
    while i < a.parts.len()
        invariant
            i <= a.parts@.len(),
            a.parts@.len() == b.parts@.len(),
            forall|k: int| 0 <= k < i ==> a.parts@[k]@ == b.parts@[k]@,
        decreases a.parts.len() - i,
    {
        if !same_chars(&a.parts[i], &b.parts[i]) {
            assert(a@.parts[i as int] != b@.parts[i as int]);
            return false;
        }
        i += 1;
    }
    assert(a@.parts =~= b@.parts);
    true
}

/// Whether two paths name the same place, see [`same_path`].
pub fn same_path_exec(a: &str, b: &str) -> (r: bool)
    ensures
        r == same_path(a@, b@),
{
    let ka = path_key_of(a);
    let kb = path_key_of(b);
    same_key(&ka, &kb)
}

} // verus!
