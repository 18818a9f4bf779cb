//! The decisions behind asking the user things: reading their answers, and
//! the conversation that finds their Dropbox folder.
use vstd::prelude::*;
use crate::text::{chars_of, push_str, string_of, u32_of, parse_u32};

verus! {

/// `c` is white space, as `char::is_whitespace` tells it (the Unicode
/// `White_Space` characters).
pub open spec fn is_white(c: char) -> bool {
    ('\u{9}' <= c && c <= '\u{d}') || c == ' ' || c == '\u{85}' || c == '\u{a0}' || c == '\u{1680}'
        || ('\u{2000}' <= c && c <= '\u{200a}') || c == '\u{2028}' || c == '\u{2029}' || c == '\u{202f}'
        || c == '\u{205f}' || c == '\u{3000}'
}

pub fn is_white_char(c: char) -> (r: bool)
    ensures
        r == is_white(c),
{
    ('\u{9}' <= c && c <= '\u{d}') || c == ' ' || c == '\u{85}' || c == '\u{a0}' || c == '\u{1680}'
        || ('\u{2000}' <= c && c <= '\u{200a}') || c == '\u{2028}' || c == '\u{2029}' || c == '\u{202f}'
        || c == '\u{205f}' || c == '\u{3000}'
}

/// How many white space characters `s` starts with.
pub open spec fn leading_white(s: Seq<char>) -> nat
    decreases s.len(),
{
    if s.len() > 0 && is_white(s[0]) {
        1 + leading_white(s.drop_first())
    } else {
        0
    }
}

/// How many white space characters `s` ends with.
pub open spec fn trailing_white(s: Seq<char>) -> nat
    decreases s.len(),
{
    if s.len() > 0 && is_white(s.last()) {
        1 + trailing_white(s.drop_last())
    } else {
        0
    }
}

/// `s` without white space at its ends, as `str::trim` gives it.
pub open spec fn trimmed(s: Seq<char>) -> Seq<char> {
    if leading_white(s) >= s.len() {
        Seq::empty()
    } else {
        s.subrange(leading_white(s) as int, s.len() - trailing_white(s))
    }
}

proof fn lemma_leading_white_step(s: Seq<char>, i: int)
    requires
        0 <= i < s.len(),
        is_white(s[i]),
    ensures
        leading_white(s.skip(i)) == 1 + leading_white(s.skip(i + 1)),
{
    assert(s.skip(i).drop_first() =~= s.skip(i + 1));
}

proof fn lemma_trailing_white_step(s: Seq<char>, j: int)
    requires
        0 < j <= s.len(),
        is_white(s[j - 1]),
    ensures
        trailing_white(s.take(j)) == 1 + trailing_white(s.take(j - 1)),
{
    assert(s.take(j).drop_last() =~= s.take(j - 1));
}

/// `text` without white space at its ends, see [`trimmed`].
pub fn trim_text(text: &str) -> (r: String)
    ensures
        r@ == trimmed(text@),
{
    let v = chars_of(text);
    let n = v.len();
    let mut a: usize = 0;
    assert(v@.skip(0) =~= v@);
    while a < n && is_white_char(v[a])
        invariant
            a <= n,
            n == v@.len(),
            v@ == text@,
            leading_white(v@) == a + leading_white(v@.skip(a as int)),
        decreases n - a,
    {
        proof {
            lemma_leading_white_step(v@, a as int);
        }
        a += 1;
    }
    proof {
        if a < n {
            assert(!is_white(v@.skip(a as int)[0]));
        } else {
            assert(v@.skip(a as int).len() == 0);
        }
        assert(leading_white(v@.skip(a as int)) == 0);
    }
    if a == n {
        return String::new();
    }
    let mut b: usize = n;
    assert(v@.take(n as int) =~= v@);
    while b > a + 1 && is_white_char(v[b - 1])
        invariant
            a < b <= n,
            n == v@.len(),
            !is_white(v@[a as int]),
            trailing_white(v@) == (n - b) + trailing_white(v@.take(b as int)),
        decreases b,
    {
        proof {
            lemma_trailing_white_step(v@, b as int);
        }
        b -= 1;
    }
    proof {
        let t = v@.take(b as int);
        if b == a + 1 {
            assert(t.last() == v@[a as int]);
        }
        assert(!is_white(t.last()));
        assert(trailing_white(t) == 0);
    }
    string_of(&v, a, b)
}

/// The answer to a yes or no question: `Y`, `y`, `yes`, `Yes` or `YES` is
/// yes, `N`, `n`, `no`, `No` or `NO` is no, nothing is the default if
/// there is one, and anything else is no answer.
pub open spec fn spec_confirm_answer(input: Seq<char>, default: Option<bool>) -> Option<bool> {
    if input == "Y"@ || input == "y"@ || input == "yes"@ || input == "Yes"@ || input == "YES"@ {
        Some(true)
    } else if input == "N"@ || input == "n"@ || input == "no"@ || input == "No"@ || input == "NO"@ {
        Some(false)
    } else if input.len() == 0 {
        default
    } else {
        None
    }
}

fn is_text(v: &Vec<char>, t: &str) -> (r: bool)
    ensures
        r == (v@ == t@),
{
    let w = chars_of(t);
    crate::text::same_chars(v, &w)
}

/// The answer to a yes or no question, see [`spec_confirm_answer`].
pub fn confirm_answer(input: &str, default: Option<bool>) -> (r: Option<bool>)
    ensures
        r == spec_confirm_answer(input@, default),
{
    let v = chars_of(input);
    if is_text(&v, "Y") || is_text(&v, "y") || is_text(&v, "yes") || is_text(&v, "Yes") || is_text(&v, "YES") {
        Some(true)
    } else if is_text(&v, "N") || is_text(&v, "n") || is_text(&v, "no") || is_text(&v, "No") || is_text(&v, "NO") {
        Some(false)
    } else if v.len() == 0 {
        default
    } else {
        None
    }
}

/// A yes or no question as it is shown, with the default answer marked.
pub open spec fn spec_confirm_prompt(message: Seq<char>, default: Option<bool>) -> Seq<char> {
    message + match default {
        Some(true) => ": [Y] / N"@,
        Some(false) => ": Y / [N]"@,
        None => ": Y / N"@,
    }
}

/// A yes or no question as it is shown, see [`spec_confirm_prompt`].
pub fn confirm_prompt(message: &str, default: Option<bool>) -> (r: String)
    ensures
        r@ == spec_confirm_prompt(message@, default),
{
    let mut r = String::new();
    push_str(&mut r, message);
    match default {
        Some(true) => push_str(&mut r, ": [Y] / N"),
        Some(false) => push_str(&mut r, ": Y / [N]"),
        None => push_str(&mut r, ": Y / N"),
    }
    r
}

/// The sign a player gave for their saves: the answer without the white
/// space around it, unless nothing is left.
pub fn player_sign_answer(input: &str) -> (r: Option<String>)
    ensures
        match r {
            Some(s) => s@ == trimmed(input@) && s@.len() > 0,
            None => trimmed(input@).len() == 0,
        },
{
    let t = trim_text(input);
    if t.as_str().is_empty() {
        None
    } else {
        Some(t)
    }
}

/// An answer to "what turn are you on?".
#[derive(Debug, Clone, Copy, PartialEq, Eq, Structural)]
pub enum TurnAnswer {
    /// Nothing was typed.
    Empty,
    /// What was typed is not a turn number.
    Invalid,
    /// A turn number.
    Turn(u32),
}

/// The answer to "what turn are you on?": the trimmed answer read as a
/// `u32`.
pub fn turn_answer(input: &str) -> (r: TurnAnswer)
    ensures
        r == if trimmed(input@).len() == 0 {
            TurnAnswer::Empty
        } else {
            match u32_of(trimmed(input@)) {
                Some(n) => TurnAnswer::Turn(n),
                None => TurnAnswer::Invalid,
            }
        },
{
    let t = trim_text(input);
    if t.as_str().is_empty() {
        return TurnAnswer::Empty;
    }
    match parse_u32(t.as_str()) {
        Some(n) => TurnAnswer::Turn(n),
        None => TurnAnswer::Invalid,
    }
}

/// What the user is told while their Dropbox folder is looked for.
#[derive(Debug, Clone, Copy, PartialEq, Eq, Structural)]
pub enum Note {
    /// The Dropbox folder was not found.
    DropboxNotFound,
    /// The Dropbox client may not be installed, and it is needed.
    ClientMayBeMissing,
    /// With the client installed, the folder can be entered.
    CanEnterFolder,
    /// What was entered is not a path.
    InvalidPath,
    /// The folder entered cannot be listed, so things are unlikely to work.
    CannotListFolder,
}

/// What the user is asked while their Dropbox folder is looked for.
#[derive(Debug, Clone, Copy, PartialEq, Eq, Structural)]
pub enum Question {
    /// Whether they want to enter their Dropbox folder (yes or no).
    EnterFolder,
    /// The absolute path of their Dropbox folder (text).
    FolderPath,
    /// Whether to use a folder that cannot be listed (yes or no).
    UseUnlistedFolder,
}

/// Where the conversation about the Dropbox folder is.
#[derive(Debug, Clone, PartialEq, Eq)]
pub enum DropboxState {
    Start,
    /// The user was asked whether to enter the folder.
    Offered,
    /// The user was asked for the path.
    Asked,
    /// The folder entered is being listed.
    Checking(String),
    /// The user was asked whether to use a folder that cannot be listed.
    Doubting(String),
    /// The conversation is over.
    Done,
}

/// What happened: the conversation began, the user answered yes or no,
/// entered a text, or the folder was (or was not) listed.
#[derive(Debug, Clone, PartialEq, Eq)]
pub enum DropboxEvent {
    Begin,
    Answer(bool),
    Text(String),
    Listed(bool),
}

/// What to do next.
#[derive(Debug, Clone, PartialEq, Eq)]
pub enum DropboxAction {
    /// Tell the notes, then ask the yes or no question (with a default answer).
    Confirm(Vec<Note>, Question, Option<bool>),
    /// Tell the notes, then ask for text.
    Query(Vec<Note>, Question),
    /// Find out whether the folder at this path can be listed.
    CheckListing(String),
    /// The conversation is over: the folder chosen, if any.
    Finish(Option<String>),
}

/// The abstract values of the conversation's states, events and actions.
pub enum DropboxStateView {
    Start,
    Offered,
    Asked,
    Checking(Seq<char>),
    Doubting(Seq<char>),
    Done,
}

pub enum DropboxEventView {
    Begin,
    Answer(bool),
    Text(Seq<char>),
    Listed(bool),
}

pub enum DropboxActionView {
    Confirm(Seq<Note>, Question, Option<bool>),
    Query(Seq<Note>, Question),
    CheckListing(Seq<char>),
    Finish(Option<Seq<char>>),
}

impl View for DropboxState {
    type V = DropboxStateView;

    open spec fn view(&self) -> DropboxStateView {
        match self {
            DropboxState::Start => DropboxStateView::Start,
            DropboxState::Offered => DropboxStateView::Offered,
            DropboxState::Asked => DropboxStateView::Asked,
            DropboxState::Checking(p) => DropboxStateView::Checking(p@),
            DropboxState::Doubting(p) => DropboxStateView::Doubting(p@),
            DropboxState::Done => DropboxStateView::Done,
        }
    }
}

impl View for DropboxEvent {
    type V = DropboxEventView;

    open spec fn view(&self) -> DropboxEventView {
        match self {
            DropboxEvent::Begin => DropboxEventView::Begin,
            DropboxEvent::Answer(b) => DropboxEventView::Answer(*b),
            DropboxEvent::Text(t) => DropboxEventView::Text(t@),
            DropboxEvent::Listed(b) => DropboxEventView::Listed(*b),
        }
    }
}

impl View for DropboxAction {
    type V = DropboxActionView;

    open spec fn view(&self) -> DropboxActionView {
        match self {
            DropboxAction::Confirm(n, q, d) => DropboxActionView::Confirm(n@, *q, *d),
            DropboxAction::Query(n, q) => DropboxActionView::Query(n@, *q),
            DropboxAction::CheckListing(p) => DropboxActionView::CheckListing(p@),
            DropboxAction::Finish(p) => DropboxActionView::Finish(match p {
                Some(x) => Some(x@),
                None => None,
            }),
        }
    }
}

/// The conversation that finds the user's Dropbox folder when it was not
/// found by itself: the user is told so and asked whether to enter it; if
/// so, asked for its path until a non-empty one is entered; a folder that
/// can be listed is taken, one that cannot is taken only if the user says
/// so, and otherwise the path is asked for again.  An event that does not
/// fit the state ends the conversation without a folder.
pub open spec fn dropbox_transition(state: DropboxStateView, event: DropboxEventView) -> (DropboxStateView, DropboxActionView) {
    match (state, event) {
        (DropboxStateView::Start, DropboxEventView::Begin) => (
            DropboxStateView::Offered,
            DropboxActionView::Confirm(
                seq![Note::DropboxNotFound, Note::ClientMayBeMissing, Note::CanEnterFolder],
                Question::EnterFolder,
                Some(true),
            ),
        ),
        (DropboxStateView::Offered, DropboxEventView::Answer(false)) => (DropboxStateView::Done, DropboxActionView::Finish(None)),
        (DropboxStateView::Offered, DropboxEventView::Answer(true)) => (
            DropboxStateView::Asked,
            DropboxActionView::Query(Seq::empty(), Question::FolderPath),
        ),
        (DropboxStateView::Asked, DropboxEventView::Text(t)) => if t.len() == 0 {
            (DropboxStateView::Asked, DropboxActionView::Query(seq![Note::InvalidPath], Question::FolderPath))
        } else {
            (DropboxStateView::Checking(t), DropboxActionView::CheckListing(t))
        },
        (DropboxStateView::Checking(p), DropboxEventView::Listed(true)) => (DropboxStateView::Done, DropboxActionView::Finish(Some(p))),
        (DropboxStateView::Checking(p), DropboxEventView::Listed(false)) => (
            DropboxStateView::Doubting(p),
            DropboxActionView::Confirm(seq![Note::CannotListFolder], Question::UseUnlistedFolder, None),
        ),
        (DropboxStateView::Doubting(p), DropboxEventView::Answer(true)) => (DropboxStateView::Done, DropboxActionView::Finish(Some(p))),
        (DropboxStateView::Doubting(_), DropboxEventView::Answer(false)) => (
            DropboxStateView::Asked,
            DropboxActionView::Query(Seq::empty(), Question::FolderPath),
        ),
        _ => (DropboxStateView::Done, DropboxActionView::Finish(None)),
    }
}

/// One step of the conversation that finds the Dropbox folder, see
/// [`dropbox_transition`].
pub fn dropbox_step(state: DropboxState, event: DropboxEvent) -> (r: (DropboxState, DropboxAction))
    ensures
        (r.0@, r.1@) == dropbox_transition(state@, event@),
{
    match (state, event) {
        (DropboxState::Start, DropboxEvent::Begin) => {
            let notes = vec![Note::DropboxNotFound, Note::ClientMayBeMissing, Note::CanEnterFolder];
            assert(notes@ =~= seq![Note::DropboxNotFound, Note::ClientMayBeMissing, Note::CanEnterFolder]);
            (DropboxState::Offered, DropboxAction::Confirm(notes, Question::EnterFolder, Some(true)))
        },
        (DropboxState::Offered, DropboxEvent::Answer(yes)) => if yes {
            let notes: Vec<Note> = Vec::new();
            assert(notes@ =~= Seq::<Note>::empty());
            (DropboxState::Asked, DropboxAction::Query(notes, Question::FolderPath))
        } else {
            (DropboxState::Done, DropboxAction::Finish(None))
        },
        (DropboxState::Asked, DropboxEvent::Text(t)) => if t.as_str().is_empty() {
            let notes = vec![Note::InvalidPath];
            assert(notes@ =~= seq![Note::InvalidPath]);
            (DropboxState::Asked, DropboxAction::Query(notes, Question::FolderPath))
        } else {
            let path = t.clone();
            (DropboxState::Checking(t), DropboxAction::CheckListing(path))
        },
        (DropboxState::Checking(p), DropboxEvent::Listed(listed)) => if listed {
            (DropboxState::Done, DropboxAction::Finish(Some(p)))
        } else {
            let notes = vec![Note::CannotListFolder];
            assert(notes@ =~= seq![Note::CannotListFolder]);
            (DropboxState::Doubting(p), DropboxAction::Confirm(notes, Question::UseUnlistedFolder, None))
        },
        (DropboxState::Doubting(p), DropboxEvent::Answer(yes)) => if yes {
            (DropboxState::Done, DropboxAction::Finish(Some(p)))
        } else {
            let notes: Vec<Note> = Vec::new();
            assert(notes@ =~= Seq::<Note>::empty());
            (DropboxState::Asked, DropboxAction::Query(notes, Question::FolderPath))
        },
        _ => (DropboxState::Done, DropboxAction::Finish(None)),
    }
}

/// The folder a finished conversation chose is one the user entered, and
/// the conversation only finishes with a folder after the folder was listed
/// or the user agreed to use it anyway.
pub proof fn lemma_dropbox_folder_is_confirmed(state: DropboxStateView, event: DropboxEventView)
    ensures
        dropbox_transition(state, event).1 matches DropboxActionView::Finish(Some(p)) ==> (
            (state matches DropboxStateView::Checking(q) && q == p && event == DropboxEventView::Listed(true))
            || (state matches DropboxStateView::Doubting(q) && q == p && event == DropboxEventView::Answer(true))),
        dropbox_transition(state, event).0 matches DropboxStateView::Checking(p) ==> p.len() > 0,
{
}

/// What happened while asking for an answer that must be read as a value:
/// an answer came, read or not, or the user said whether to try again.
#[derive(Debug, Clone, Copy, PartialEq, Eq, Structural)]
pub enum RetryEvent {
    Answered { read: bool },
    TryAgain(bool),
}

/// What to do next while asking for an answer that must be read as a value.
#[derive(Debug, Clone, Copy, PartialEq, Eq, Structural)]
pub enum RetryAction {
    /// Take the value read.
    Accept,
    /// Tell the user why the answer was not read, and ask whether to try
    /// again (`yes` by default).
    OfferRetry,
    /// Ask the question again.
    AskAgain,
    /// Give up without a value.
    GiveUp,
}

/// The next step of asking for an answer that must be read as a value: an
/// answer read is taken; one not read leads to the offer of another try,
/// which the user takes or declines.
pub open spec fn retry_transition(event: RetryEvent) -> RetryAction {
    match event {
        RetryEvent::Answered { read: true } => RetryAction::Accept,
        RetryEvent::Answered { read: false } => RetryAction::OfferRetry,
        RetryEvent::TryAgain(true) => RetryAction::AskAgain,
        RetryEvent::TryAgain(false) => RetryAction::GiveUp,
    }
}

/// The next step of asking for an answer, see [`retry_transition`].
pub fn retry_step(event: RetryEvent) -> (r: RetryAction)
    ensures
        r == retry_transition(event),
{
    match event {
        RetryEvent::Answered { read } => if read {
            RetryAction::Accept
        } else {
            RetryAction::OfferRetry
        },
        RetryEvent::TryAgain(again) => if again {
            RetryAction::AskAgain
        } else {
            RetryAction::GiveUp
        },
    }
}

} // verus!
