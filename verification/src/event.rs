//! The event union and the chord parser.
//!
//! A chord string such as `ctrl+shift+a` is split on `+`; every token but
//! the last names a modifier (unknown modifier names contribute no bit),
//! and the last token names the key. Only the key token can fail.

use vstd::prelude::*;

use crate::error::AppError;
use crate::keys::{KeyCode, Modifiers, ALT, CONTROL, HYPER, META, SHIFT, SUPER};
use crate::payload::{ChatList, MouseEvent, Rect, ReplyTarget};

verus! {

/// Every stimulus the UI loop reacts to: terminal input, lifecycle
/// signals, and outbound application commands.
#[derive(Clone, Eq, Hash, Debug)]
pub enum Event {
    /// Unrecognized stimulus.
    Unknown,
    /// Terminal resized to the given width and height.
    Resize(u16, u16),
    /// Keyboard input.
    Key(KeyCode, Modifiers),
    /// Bracketed-paste payload.
    Paste(String),
    /// Pointer event.
    Mouse(MouseEvent),
    /// Initial tick emitted once at startup.
    Init,
    /// Request to redraw the UI.
    Render,
    /// Terminal lost focus.
    FocusLost,
    /// Terminal gained focus.
    FocusGained,
    /// Layout region assignment.
    UpdateArea(Rect),
    /// Begin editing the message with the given id.
    EditMessage(i64, String),
    /// Begin a reply to the message with the given id.
    ReplyMessage(i64, String),
    /// Request the current user.
    GetMe,
    /// Request a page of the given chat index.
    LoadChats(ChatList, i32),
    /// Submit a new message, optionally in reply to another.
    SendMessage(String, Option<ReplyTarget>),
    /// Commit an edit of the message with the given id.
    SendMessageEdited(i64, String),
    /// Fetch more scrollback.
    GetChatHistory,
    /// Remove messages; when the flag is set, for all participants.
    DeleteMessages(Vec<i64>, bool),
    /// Mark the thread as seen.
    ViewAllMessages,
}

/// The modifier bit a token contributes. Unknown tokens, the empty token
/// included, contribute nothing; modifier mapping is total.
pub open spec fn mod_bit_of(tok: Seq<char>) -> u8 {
    if tok == "ctrl"@ {
        CONTROL
    } else if tok == "alt"@ {
        ALT
    } else if tok == "shift"@ {
        SHIFT
    } else if tok == "super"@ {
        SUPER
    } else if tok == "meta"@ {
        META
    } else if tok == "hyper"@ {
        HYPER
    } else {
        0
    }
}

/// The key a token denotes: a named key, matched exactly, or a single
/// ASCII character. Anything else is not a representable key.
pub open spec fn key_code_of(tok: Seq<char>) -> Option<KeyCode> {
    if tok == "backspace"@ {
        Some(KeyCode::Backspace)
    } else if tok == "enter"@ {
        Some(KeyCode::Enter)
    } else if tok == "left"@ {
        Some(KeyCode::Left)
    } else if tok == "right"@ {
        Some(KeyCode::Right)
    } else if tok == "up"@ {
        Some(KeyCode::Up)
    } else if tok == "down"@ {
        Some(KeyCode::Down)
    } else if tok == "home"@ {
        Some(KeyCode::Home)
    } else if tok == "end"@ {
        Some(KeyCode::End)
    } else if tok == "page_up"@ {
        Some(KeyCode::PageUp)
    } else if tok == "page_down"@ {
        Some(KeyCode::PageDown)
    } else if tok == "tab"@ {
        Some(KeyCode::Tab)
    } else if tok == "back_tab"@ {
        Some(KeyCode::BackTab)
    } else if tok == "delete"@ {
        Some(KeyCode::Delete)
    } else if tok == "insert"@ {
        Some(KeyCode::Insert)
    } else if tok == "null"@ {
        Some(KeyCode::Null)
    } else if tok == "esc"@ {
        Some(KeyCode::Esc)
    } else if tok == "f1"@ {
        Some(KeyCode::F(1))
    } else if tok == "f2"@ {
        Some(KeyCode::F(2))
    } else if tok == "f3"@ {
        Some(KeyCode::F(3))
    } else if tok == "f4"@ {
        Some(KeyCode::F(4))
    } else if tok == "f5"@ {
        Some(KeyCode::F(5))
    } else if tok == "f6"@ {
        Some(KeyCode::F(6))
    } else if tok == "f7"@ {
        Some(KeyCode::F(7))
    } else if tok == "f8"@ {
        Some(KeyCode::F(8))
    } else if tok == "f9"@ {
        Some(KeyCode::F(9))
    } else if tok == "f10"@ {
        Some(KeyCode::F(10))
    } else if tok == "f11"@ {
        Some(KeyCode::F(11))
    } else if tok == "f12"@ {
        Some(KeyCode::F(12))
    } else if tok.len() == 1 && (tok[0] as u32) <= 127 {
        Some(KeyCode::Char(tok[0]))
    } else {
        None
    }
}

/// Index of the first `+` in `s`, or `s.len()` when there is none.
pub open spec fn find_plus(s: Seq<char>) -> int
    decreases s.len(),
{
    if s.len() == 0 {
        0
    } else if s[0] == '+' {
        0
    } else {
        1 + find_plus(s.drop_first())
    }
}

/// Any index below the first `+`, with a `+` or the end at it, is `find_plus`.
pub proof fn lemma_find_plus_is(s: Seq<char>, i: int)
    requires
        0 <= i <= s.len(),
        forall|j: int| 0 <= j < i ==> s[j] != '+',
        i == s.len() || s[i] == '+',
    ensures
        find_plus(s) == i,
    decreases s.len(),
{
    if s.len() == 0 {
    } else if s[0] == '+' {
    } else {
        assert(forall|j: int| 0 <= j < i - 1 ==> s.drop_first()[j] == s[j + 1]);
        lemma_find_plus_is(s.drop_first(), i - 1);
    }
}

/// The key token of a chord: what follows the last `+`, or the whole
/// string when there is none.
pub open spec fn key_token(s: Seq<char>) -> Seq<char>
    decreases s.len(),
{
    let i = find_plus(s);
    if 0 <= i < s.len() {
        key_token(s.skip(i + 1))
    } else {
        s
    }
}

/// The modifier bits of a chord: the union of the bits of every token
/// before a `+`, starting from the empty set.
pub open spec fn chord_bits(s: Seq<char>) -> u8
    decreases s.len(),
{
    let i = find_plus(s);
    if 0 <= i < s.len() {
        mod_bit_of(s.take(i)) | chord_bits(s.skip(i + 1))
    } else {
        0
    }
}

/// True of strings equal as sequences of characters.
/// Relies on `str::to_owned` and `String` equality, both specified by vstd.
fn str_eq(a: &str, b: &str) -> (r: bool)
    ensures
        r == (a@ == b@),
{
    let sa: String = a.to_owned();
    let sb: String = b.to_owned();
    sa == sb
}

/// The modifier bit a token contributes.
fn modifier_bit(tok: &str) -> (r: u8)
    ensures
        r == mod_bit_of(tok@),
{
    if str_eq(tok, "ctrl") {
        CONTROL
    } else if str_eq(tok, "alt") {
        ALT
    } else if str_eq(tok, "shift") {
        SHIFT
    } else if str_eq(tok, "super") {
        SUPER
    } else if str_eq(tok, "meta") {
        META
    } else if str_eq(tok, "hyper") {
        HYPER
    } else {
        0
    }
}

/// The key a token denotes, when it denotes one.
fn key_code(tok: &str) -> (r: Option<KeyCode>)
    ensures
        r == key_code_of(tok@),
{
    if str_eq(tok, "backspace") {
        Some(KeyCode::Backspace)
    } else if str_eq(tok, "enter") {
        Some(KeyCode::Enter)
    } else if str_eq(tok, "left") {
        Some(KeyCode::Left)
    } else if str_eq(tok, "right") {
        Some(KeyCode::Right)
    } else if str_eq(tok, "up") {
        Some(KeyCode::Up)
    } else if str_eq(tok, "down") {
        Some(KeyCode::Down)
    } else if str_eq(tok, "home") {
        Some(KeyCode::Home)
    } else if str_eq(tok, "end") {
        Some(KeyCode::End)
    } else if str_eq(tok, "page_up") {
        Some(KeyCode::PageUp)
    } else if str_eq(tok, "page_down") {
        Some(KeyCode::PageDown)
    } else if str_eq(tok, "tab") {
        Some(KeyCode::Tab)
    } else if str_eq(tok, "back_tab") {
        Some(KeyCode::BackTab)
    } else if str_eq(tok, "delete") {
        Some(KeyCode::Delete)
    } else if str_eq(tok, "insert") {
        Some(KeyCode::Insert)
    } else if str_eq(tok, "null") {
        Some(KeyCode::Null)
    } else if str_eq(tok, "esc") {
        Some(KeyCode::Esc)
    } else if str_eq(tok, "f1") {
        Some(KeyCode::F(1))
    } else if str_eq(tok, "f2") {
        Some(KeyCode::F(2))
    } else if str_eq(tok, "f3") {
        Some(KeyCode::F(3))
    } else if str_eq(tok, "f4") {
        Some(KeyCode::F(4))
    } else if str_eq(tok, "f5") {
        Some(KeyCode::F(5))
    } else if str_eq(tok, "f6") {
        Some(KeyCode::F(6))
    } else if str_eq(tok, "f7") {
        Some(KeyCode::F(7))
    } else if str_eq(tok, "f8") {
        Some(KeyCode::F(8))
    } else if str_eq(tok, "f9") {
        Some(KeyCode::F(9))
    } else if str_eq(tok, "f10") {
        Some(KeyCode::F(10))
    } else if str_eq(tok, "f11") {
        Some(KeyCode::F(11))
    } else if str_eq(tok, "f12") {
        Some(KeyCode::F(12))
    } else {
        let n = tok.unicode_len();
        if n == 1 {
            let c = tok.get_char(0);
            if (c as u32) <= 127 {
                Some(KeyCode::Char(c))
            } else {
                None
            }
        } else {
            None
        }
    }
}

impl Event {
    /// Map a key token to a `Key` event carrying the given modifiers, or
    /// fail with `InvalidEvent` holding the token itself.
    pub fn event_with_modifiers(s: &str, modifiers: Modifiers) -> (r: Result<Event, AppError>)
        ensures
            (match r {
                Ok(e) => key_code_of(s@) matches Some(c) && e == (Event::Key(c, modifiers)),
                Err(a) => key_code_of(s@) is None && (a matches AppError::InvalidEvent(t)
                    && t@ == s@),
            }),
    {
        match key_code(s) {
            Some(c) => Ok(Event::Key(c, modifiers)),
            None => Err(AppError::InvalidEvent(s.to_owned())),
        }
    }
}

/// Key code and modifier bits of a chord, or the failing key token.
fn parse_parts(s: &str) -> (r: Result<(KeyCode, u8), String>)
    ensures
        (match r {
            Ok(p) => key_code_of(key_token(s@)) == Some(p.0) && p.1 == chord_bits(s@),
            Err(t) => key_code_of(key_token(s@)) is None && t@ == key_token(s@),
        }),
    decreases s@.len(),
{
    let n = s.unicode_len();
    let mut i: usize = 0;
    while i < n && s.get_char(i) != '+'
        invariant
            0 <= i <= n,
            n == s@.len(),
            forall|j: int| 0 <= j < i ==> s@[j] != '+',
        decreases n - i,
    {
        i = i + 1;
    }
    proof {
        lemma_find_plus_is(s@, i as int);
    }
    if i == n {
        match key_code(s) {
            Some(c) => Ok((c, 0)),
            None => Err(s.to_owned()),
        }
    } else {
        let tok = s.substring_char(0, i);
        let rest = s.substring_char(i + 1, n);
        proof {
            assert(tok@ =~= s@.take(i as int));
            assert(rest@ =~= s@.skip(i as int + 1));
        }
        let bit = modifier_bit(tok);
        match parse_parts(rest) {
            Ok((c, b)) => Ok((c, bit | b)),
            Err(t) => Err(t),
        }
    }
}

impl core::str::FromStr for Event {
    type Err = AppError;

    /// Parsing through the std trait promises the same as `parse_chord`.
    fn from_str(s: &str) -> (r: Result<Event, AppError>)
        ensures
            (match r {
                Ok(e) => key_code_of(key_token(s@)) matches Some(c) && e == (Event::Key(
                    c,
                    Modifiers { bits: chord_bits(s@) },
                )),
                Err(a) => key_code_of(key_token(s@)) is None && (a
                    matches AppError::InvalidEvent(t) && t@ == key_token(s@)),
            }),
    {
        parse_chord(s)
    }
}

/// Parse a chord string into a `Key` event, or fail with `InvalidEvent`
/// holding the key token when that token does not denote a key.
pub fn parse_chord(s: &str) -> (r: Result<Event, AppError>)
    ensures
        (match r {
            Ok(e) => key_code_of(key_token(s@)) matches Some(c) && e == (Event::Key(
                c,
                Modifiers { bits: chord_bits(s@) },
            )),
            Err(a) => key_code_of(key_token(s@)) is None && (a matches AppError::InvalidEvent(t)
                && t@ == key_token(s@)),
        }),
{
    match parse_parts(s) {
        Ok((c, b)) => Ok(Event::Key(c, Modifiers { bits: b })),
        Err(t) => Err(AppError::InvalidEvent(t)),
    }
}

} // verus!
