//! Error messages: where a path goes in the message of a failed file
//! operation, and character boundaries of UTF-8 text.
use vstd::prelude::*;
use crate::grammar::{token_at, token_at_exec};
use crate::text::{chars_of, push_str, string_of};

verus! {

/// Byte `n` begins a character of UTF-8 text: it is not a continuation byte
/// (`0b10xx_xxxx`).
pub open spec fn is_char_boundary_byte(n: u8) -> bool {
    n < 128 || n >= 192
}

/// Whether byte `n` begins a character of UTF-8 text.
pub fn is_utf8_char_boundary(n: u8) -> (r: bool)
    ensures
        r == is_char_boundary_byte(n),
{
    // This is bit magic equivalent to: b < 128 || b >= 192
    let signed: i8 = n as i8;
    assert((n as i8 >= -0x40) == (n < 128 || n >= 192)) by (bit_vector);
    signed >= -0x40
}

/// A character of UTF-8 text begins at one of the four bytes up to `index`.
pub open spec fn boundary_near(bytes: Seq<u8>, index: int) -> bool {
    exists|j: int| index - 3 <= j <= index && 0 <= j && #[trigger] is_char_boundary_byte(bytes[j])
}

/// The largest position not after `index` where a character begins; the
/// length of the text when `index` is beyond it.  In UTF-8 text a character
/// begins within every four bytes.
pub fn floor_char_boundary(bytes: &[u8], index: usize) -> (r: usize)
    requires
        index < bytes@.len() ==> boundary_near(bytes@, index as int),
    ensures
        index >= bytes@.len() ==> r == bytes@.len(),
        index < bytes@.len() ==> r <= index && is_char_boundary_byte(bytes@[r as int])
            && forall|k: int| r < k <= index ==> !is_char_boundary_byte(#[trigger] bytes@[k]),
{
    if index >= bytes.len() {
        bytes.len()
    } else {
        let lower_bound = index.saturating_sub(3);
        let mut j = index;
        while !is_utf8_char_boundary(bytes[j])
            invariant
                lower_bound <= j <= index < bytes@.len(),
                lower_bound == if index >= 3 { index - 3 } else { 0 },
                boundary_near(bytes@, index as int),
                forall|k: int| j < k <= index ==> !is_char_boundary_byte(#[trigger] bytes@[k]),
            decreases j,
        {
            if j == lower_bound {
                proof {
                    let w = choose|w: int| index - 3 <= w <= index && 0 <= w && #[trigger] is_char_boundary_byte(bytes@[w]);
                    assert(w >= j);
                    assert(w == j || j < w);
                }
                return j;
            }
            j -= 1;
        }
        j
    }
}

/// What an operating system error message ends with, before its number.
pub open spec fn os_error_marker() -> Seq<char> {
    seq!['(', 'o', 's', ' ', 'e', 'r', 'r', 'o', 'r', ' ']
}

/// The first position of `t` in `s`, from position `i` on.
pub open spec fn find_from(s: Seq<char>, t: Seq<char>, i: int) -> Option<int>
    decreases s.len() + 1 - i,
{
    if i < 0 || i > s.len() {
        None
    } else if token_at(s, i, t, false) {
        Some(i)
    } else {
        find_from(s, t, i + 1)
    }
}

/// Where the path goes into a message that has `(os error ` at `i`: after
/// the description, before the space that ends it.
pub open spec fn insertion_point(message: Seq<char>, i: int) -> int {
    if i > 0 && message[i - 1] == ' ' {
        i - 1
    } else {
        i
    }
}

/// The message of a failed file operation with the path put in, quoted:
/// after the description of the error when the message ends with
/// `(os error ` and a number, and otherwise appended after a colon.
pub open spec fn message_with_path(message: Seq<char>, path: Seq<char>) -> Seq<char> {
    let quoted = seq![' ', '\''] + path + seq!['\''];
    match find_from(message, os_error_marker(), 0) {
        Some(i) => message.take(insertion_point(message, i)) + quoted + message.skip(insertion_point(message, i)),
        None => message + seq![':'] + quoted,
    }
}

/// The first position of `t` in `s`.
fn find_text(s: &Vec<char>, t: &Vec<char>) -> (r: Option<usize>)
    ensures
        match r {
            Some(i) => i <= s@.len() && find_from(s@, t@, 0) == Some(i as int),
            None => find_from(s@, t@, 0) is None,
        },
{
    let mut i: usize = 0;
    while i < s.len()
        invariant
            i <= s@.len(),
            find_from(s@, t@, 0) == find_from(s@, t@, i as int),
        decreases s.len() - i,
    {
        if token_at_exec(s, i, t, false) {
            return Some(i);
        }
        i += 1;
    }
    if token_at_exec(s, i, t, false) {
        return Some(i);
    }
    assert(find_from(s@, t@, i + 1) is None);
    None
}

/// The message of a failed file operation with the path put in, see
/// [`message_with_path`]: `No such file or directory (os error 2)` becomes
/// `No such file or directory './path/to/nowhere' (os error 2)`.
pub fn error_message_with_path(message: &str, path: &str) -> (r: String)
    ensures
        r@ == message_with_path(message@, path@),
{
    let m = chars_of(message);
    proof {
        reveal_strlit("(os error ");
    }
    let marker = chars_of("(os error ");
    assert(marker@ =~= os_error_marker());
    let found = find_text(&m, &marker);
    let mut r = String::new();
    if let Some(i) = found {
        let at = if i > 0 && m[i - 1] == ' ' { i - 1 } else { i };
        let head = string_of(&m, 0, at);
        let tail = string_of(&m, at, m.len());
        push_str(&mut r, head.as_str());
        push_str(&mut r, " '");
        push_str(&mut r, path);
        push_str(&mut r, "'");
        push_str(&mut r, tail.as_str());
        proof {
            reveal_strlit(" '");
            reveal_strlit("'");
        }
        assert(r@ =~= message_with_path(message@, path@));
    } else {
        push_str(&mut r, message);
        push_str(&mut r, ": '");
        push_str(&mut r, path);
        push_str(&mut r, "'");
        proof {
            reveal_strlit(": '");
            reveal_strlit("'");
        }
        assert(r@ =~= message_with_path(message@, path@));
    }
    r
}

} // verus!
