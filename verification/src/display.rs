//! The display formatter: a total, human-readable rendering of every
//! event, meant for logging. It is not a parse-inverse: named keys render
//! under their symbolic names (`Enter`), not their chord tokens (`enter`).

use vstd::prelude::*;

use crate::event::Event;
use crate::keys::{KeyCode, Modifiers, ALT, CONTROL, HYPER, META, SHIFT, SUPER};
use crate::payload::{ChatList, MouseButton, MouseEvent, MouseKind, Rect, ReplyTarget};
use crate::text::{
    bool_rep, dec_int_rep, dec_rep, fmt_i64, fmt_ids, fmt_u64, ids_rep, push_char,
};

verus! {

/// The symbolic name of a key; a character key renders as the character
/// alone.
pub open spec fn key_name_rep(k: KeyCode) -> Seq<char> {
    match k {
        KeyCode::Backspace => "Backspace"@,
        KeyCode::Enter => "Enter"@,
        KeyCode::Left => "Left"@,
        KeyCode::Right => "Right"@,
        KeyCode::Up => "Up"@,
        KeyCode::Down => "Down"@,
        KeyCode::Home => "Home"@,
        KeyCode::End => "End"@,
        KeyCode::PageUp => "PageUp"@,
        KeyCode::PageDown => "PageDown"@,
        KeyCode::Tab => "Tab"@,
        KeyCode::BackTab => "BackTab"@,
        KeyCode::Delete => "Delete"@,
        KeyCode::Insert => "Insert"@,
        KeyCode::Null => "Null"@,
        KeyCode::Esc => "Esc"@,
        KeyCode::F(n) => "F("@ + dec_rep(n as nat) + ")"@,
        KeyCode::Char(c) => seq![c],
    }
}

/// One joined piece of the modifier rendering: nothing when the bit is
/// off, the name alone when it is the first, ` | ` and the name after an
/// earlier one.
pub open spec fn add_flag(acc: Seq<char>, some_before: bool, on: bool, name: Seq<char>) -> Seq<
    char,
> {
    if !on {
        acc
    } else if some_before {
        acc + " | "@ + name
    } else {
        acc + name
    }
}

/// The names of the set modifier bits, in a fixed order, joined by ` | `.
pub open spec fn flags_rep(m: u8) -> Seq<char> {
    let a = add_flag(Seq::empty(), false, m & SHIFT != 0, "SHIFT"@);
    let a = add_flag(a, m & SHIFT != 0, m & CONTROL != 0, "CONTROL"@);
    let a = add_flag(a, m & (SHIFT | CONTROL) != 0, m & ALT != 0, "ALT"@);
    let a = add_flag(a, m & (SHIFT | CONTROL | ALT) != 0, m & SUPER != 0, "SUPER"@);
    let a = add_flag(a, m & (SHIFT | CONTROL | ALT | SUPER) != 0, m & HYPER != 0, "HYPER"@);
    let a = add_flag(
        a,
        m & (SHIFT | CONTROL | ALT | SUPER | HYPER) != 0,
        m & META != 0,
        "META"@,
    );
    a
}

/// The generic rendering of a modifier bit-set, as
/// `Modifiers(CONTROL | SHIFT)`.
pub open spec fn mods_debug_rep(m: u8) -> Seq<char> {
    "Modifiers("@ + flags_rep(m) + ")"@
}

/// What precedes the key name: nothing for the empty set, the canonical
/// name for a single modifier, the generic bit-set form otherwise.
pub open spec fn mods_prefix_rep(m: u8) -> Seq<char> {
    if m == 0 {
        Seq::empty()
    } else if m == CONTROL {
        "Ctrl+"@
    } else if m == ALT {
        "Alt+"@
    } else if m == SHIFT {
        "Shift+"@
    } else if m == SUPER {
        "Super+"@
    } else if m == META {
        "Meta+"@
    } else if m == HYPER {
        "Hyper+"@
    } else {
        mods_debug_rep(m) + "+"@
    }
}

/// Rendering of a pointer button.
pub open spec fn button_rep(b: MouseButton) -> Seq<char> {
    match b {
        MouseButton::Left => "Left"@,
        MouseButton::Right => "Right"@,
        MouseButton::Middle => "Middle"@,
    }
}

/// Rendering of what a pointer event reports.
pub open spec fn mouse_kind_rep(k: MouseKind) -> Seq<char> {
    match k {
        MouseKind::Down(b) => "Down("@ + button_rep(b) + ")"@,
        MouseKind::Up(b) => "Up("@ + button_rep(b) + ")"@,
        MouseKind::Drag(b) => "Drag("@ + button_rep(b) + ")"@,
        MouseKind::Moved => "Moved"@,
        MouseKind::ScrollDown => "ScrollDown"@,
        MouseKind::ScrollUp => "ScrollUp"@,
        MouseKind::ScrollLeft => "ScrollLeft"@,
        MouseKind::ScrollRight => "ScrollRight"@,
    }
}

/// Rendering of a pointer event.
pub open spec fn mouse_rep(m: MouseEvent) -> Seq<char> {
    "MouseEvent { kind: "@ + mouse_kind_rep(m.kind) + ", column: "@ + dec_rep(m.column as nat)
        + ", row: "@ + dec_rep(m.row as nat) + ", mods: "@ + mods_debug_rep(m.mods.bits) + " }"@
}

/// Rendering of a layout region.
pub open spec fn rect_rep(r: Rect) -> Seq<char> {
    "Rect { x: "@ + dec_rep(r.x as nat) + ", y: "@ + dec_rep(r.y as nat) + ", width: "@ + dec_rep(
        r.width as nat,
    ) + ", height: "@ + dec_rep(r.height as nat) + " }"@
}

/// Rendering of a chat index.
pub open spec fn chat_list_rep(l: ChatList) -> Seq<char> {
    match l {
        ChatList::Main => "Main"@,
        ChatList::Archive => "Archive"@,
        ChatList::Folder(n) => "Folder("@ + dec_int_rep(n as int) + ")"@,
    }
}

/// Rendering of a reply target.
pub open spec fn reply_rep(t: ReplyTarget) -> Seq<char> {
    "ReplyTarget { chat_id: "@ + dec_int_rep(t.chat_id as int) + ", message_id: "@ + dec_int_rep(
        t.message_id as int,
    ) + " }"@
}

/// Rendering of an optional reply target.
pub open spec fn opt_reply_rep(t: Option<ReplyTarget>) -> Seq<char> {
    match t {
        None => "None"@,
        Some(r) => "Some("@ + reply_rep(r) + ")"@,
    }
}

/// What the display formatter produces for each event.
pub open spec fn display_rep(e: Event) -> Seq<char> {
    match e {
        Event::Unknown => "Unknown"@,
        Event::Init => "Init"@,
        Event::Render => "Render"@,
        Event::Resize(w, h) => "Resize("@ + dec_rep(w as nat) + ", "@ + dec_rep(h as nat) + ")"@,
        Event::Key(k, m) => mods_prefix_rep(m.bits) + key_name_rep(k),
        Event::Mouse(m) => "Mouse("@ + mouse_rep(m) + ")"@,
        Event::UpdateArea(r) => "UpdateArea("@ + rect_rep(r) + ")"@,
        Event::Paste(s) => "Paste("@ + s@ + ")"@,
        Event::FocusLost => "FocusLost"@,
        Event::FocusGained => "FocusGained"@,
        Event::GetMe => "GetMe"@,
        Event::LoadChats(l, n) => "LoadChats("@ + chat_list_rep(l) + ", "@ + dec_int_rep(n as int)
            + ")"@,
        Event::SendMessage(s, r) => "SendMessage("@ + s@ + ", "@ + opt_reply_rep(r) + ")"@,
        Event::SendMessageEdited(id, s) => "SendMessageEdited("@ + dec_int_rep(id as int) + ", "@
            + s@ + ")"@,
        Event::GetChatHistory => "GetChatHistory"@,
        Event::DeleteMessages(v, rev) => "DeleteMessages("@ + ids_rep(v@) + ", "@ + bool_rep(rev)
            + ")"@,
        Event::EditMessage(id, s) => "EditMessage("@ + dec_int_rep(id as int) + ", "@ + s@ + ")"@,
        Event::ReplyMessage(id, s) => "ReplyMessage("@ + dec_int_rep(id as int) + ", "@ + s@
            + ")"@,
        Event::ViewAllMessages => "ViewAllMessages"@,
    }
}

/// Append one modifier name, preceded by the separator when an earlier
/// bit was set.
fn append_one_flag(out: &mut String, some_before: bool, on: bool, name: &str)
    ensures
        final(out)@ == add_flag(old(out)@, some_before, on, name@),
{
    if on {
        if some_before {
            out.append(" | ");
        }
        out.append(name);
    }
}

/// Append the names of the set modifier bits, joined by ` | `.
fn append_flags(out: &mut String, m: u8)
    ensures
        final(out)@ == old(out)@ + flags_rep(m),
{
    let ghost base = old(out)@;
    proof {
        assert(out@ =~= base + Seq::<char>::empty());
    }
    append_one_flag(out, false, m & SHIFT != 0, "SHIFT");
    append_one_flag(out, m & SHIFT != 0, m & CONTROL != 0, "CONTROL");
    append_one_flag(out, m & (SHIFT | CONTROL) != 0, m & ALT != 0, "ALT");
    append_one_flag(out, m & (SHIFT | CONTROL | ALT) != 0, m & SUPER != 0, "SUPER");
    append_one_flag(out, m & (SHIFT | CONTROL | ALT | SUPER) != 0, m & HYPER != 0, "HYPER");
    append_one_flag(out, m & (SHIFT | CONTROL | ALT | SUPER | HYPER) != 0, m & META != 0, "META");
    proof {
        lemma_add_flag_base(base, Seq::<char>::empty(), false, m & SHIFT != 0, "SHIFT"@);
        let a1 = add_flag(Seq::empty(), false, m & SHIFT != 0, "SHIFT"@);
        lemma_add_flag_base(base, a1, m & SHIFT != 0, m & CONTROL != 0, "CONTROL"@);
        let a2 = add_flag(a1, m & SHIFT != 0, m & CONTROL != 0, "CONTROL"@);
        lemma_add_flag_base(base, a2, m & (SHIFT | CONTROL) != 0, m & ALT != 0, "ALT"@);
        let a3 = add_flag(a2, m & (SHIFT | CONTROL) != 0, m & ALT != 0, "ALT"@);
        lemma_add_flag_base(base, a3, m & (SHIFT | CONTROL | ALT) != 0, m & SUPER != 0, "SUPER"@);
        let a4 = add_flag(a3, m & (SHIFT | CONTROL | ALT) != 0, m & SUPER != 0, "SUPER"@);
        lemma_add_flag_base(
            base,
            a4,
            m & (SHIFT | CONTROL | ALT | SUPER) != 0,
            m & HYPER != 0,
            "HYPER"@,
        );
        let a5 = add_flag(a4, m & (SHIFT | CONTROL | ALT | SUPER) != 0, m & HYPER != 0, "HYPER"@);
        lemma_add_flag_base(
            base,
            a5,
            m & (SHIFT | CONTROL | ALT | SUPER | HYPER) != 0,
            m & META != 0,
            "META"@,
        );
    }
}

/// Prepending a fixed base commutes with joining one more flag piece.
proof fn lemma_add_flag_base(base: Seq<char>, acc: Seq<char>, some_before: bool, on: bool, name: Seq<char>)
    ensures
        add_flag(base + acc, some_before, on, name) == base + add_flag(
            acc,
            some_before,
            on,
            name,
        ),
{
    assert(add_flag(base + acc, some_before, on, name) =~= base + add_flag(
        acc,
        some_before,
        on,
        name,
    ));
}

/// Append the generic rendering of a modifier bit-set.
fn append_mods_debug(out: &mut String, m: u8)
    ensures
        final(out)@ == old(out)@ + mods_debug_rep(m),
{
    out.append("Modifiers(");
    append_flags(out, m);
    out.append(")");
    proof {
        assert(out@ =~= old(out)@ + mods_debug_rep(m));
    }
}

/// Append what precedes the key name for the given modifier set.
fn append_mods_prefix(out: &mut String, m: u8)
    ensures
        final(out)@ == old(out)@ + mods_prefix_rep(m),
{
    if m == 0 {
        proof {
            assert(out@ =~= old(out)@ + mods_prefix_rep(m));
        }
    } else if m == CONTROL {
        out.append("Ctrl+");
    } else if m == ALT {
        out.append("Alt+");
    } else if m == SHIFT {
        out.append("Shift+");
    } else if m == SUPER {
        out.append("Super+");
    } else if m == META {
        out.append("Meta+");
    } else if m == HYPER {
        out.append("Hyper+");
    } else {
        append_mods_debug(out, m);
        out.append("+");
        proof {
            assert(out@ =~= old(out)@ + mods_prefix_rep(m));
        }
    }
}

/// Append the symbolic name of a key.
fn append_key_name(out: &mut String, k: KeyCode)
    ensures
        final(out)@ == old(out)@ + key_name_rep(k),
{
    match k {
        KeyCode::Backspace => out.append("Backspace"),
        KeyCode::Enter => out.append("Enter"),
        KeyCode::Left => out.append("Left"),
        KeyCode::Right => out.append("Right"),
        KeyCode::Up => out.append("Up"),
        KeyCode::Down => out.append("Down"),
        KeyCode::Home => out.append("Home"),
        KeyCode::End => out.append("End"),
        KeyCode::PageUp => out.append("PageUp"),
        KeyCode::PageDown => out.append("PageDown"),
        KeyCode::Tab => out.append("Tab"),
        KeyCode::BackTab => out.append("BackTab"),
        KeyCode::Delete => out.append("Delete"),
        KeyCode::Insert => out.append("Insert"),
        KeyCode::Null => out.append("Null"),
        KeyCode::Esc => out.append("Esc"),
        KeyCode::F(n) => {
            out.append("F(");
            fmt_u64(out, n as u64);
            out.append(")");
            proof {
                assert(out@ =~= old(out)@ + key_name_rep(k));
            }
        },
        KeyCode::Char(c) => {
            push_char(out, c);
            proof {
                assert(out@ =~= old(out)@ + key_name_rep(k));
            }
        },
    }
}

/// Append the rendering of a pointer event.
fn append_mouse(out: &mut String, m: &MouseEvent)
    ensures
        final(out)@ == old(out)@ + mouse_rep(*m),
{
    out.append("MouseEvent { kind: ");
    match m.kind {
        MouseKind::Down(b) => {
            out.append("Down(");
            append_button(out, b);
            out.append(")");
        },
        MouseKind::Up(b) => {
            out.append("Up(");
            append_button(out, b);
            out.append(")");
        },
        MouseKind::Drag(b) => {
            out.append("Drag(");
            append_button(out, b);
            out.append(")");
        },
        MouseKind::Moved => out.append("Moved"),
        MouseKind::ScrollDown => out.append("ScrollDown"),
        MouseKind::ScrollUp => out.append("ScrollUp"),
        MouseKind::ScrollLeft => out.append("ScrollLeft"),
        MouseKind::ScrollRight => out.append("ScrollRight"),
    }
    out.append(", column: ");
    fmt_u64(out, m.column as u64);
    out.append(", row: ");
    fmt_u64(out, m.row as u64);
    out.append(", mods: ");
    append_mods_debug(out, m.mods.bits);
    out.append(" }");
    proof {
        assert(out@ =~= old(out)@ + mouse_rep(*m));
    }
}

/// Append the rendering of a pointer button.
fn append_button(out: &mut String, b: MouseButton)
    ensures
        final(out)@ == old(out)@ + button_rep(b),
{
    match b {
        MouseButton::Left => out.append("Left"),
        MouseButton::Right => out.append("Right"),
        MouseButton::Middle => out.append("Middle"),
    }
}

impl Event {
    /// The human-readable rendering of this event.
    pub fn display(&self) -> (r: String)
        ensures
            r@ == display_rep(*self),
    {
        let mut out = String::new();
        match self {
            Event::Unknown => {
                out.append("Unknown");
                proof {
                    assert(out@ =~= display_rep(*self));
                }
            },
            Event::Init => {
                out.append("Init");
                proof {
                    assert(out@ =~= display_rep(*self));
                }
            },
            Event::Render => {
                out.append("Render");
                proof {
                    assert(out@ =~= display_rep(*self));
                }
            },
            Event::Resize(w, h) => {
                out.append("Resize(");
                fmt_u64(&mut out, *w as u64);
                out.append(", ");
                fmt_u64(&mut out, *h as u64);
                out.append(")");
                proof {
                    assert(out@ =~= display_rep(*self));
                }
            },
            Event::Key(k, m) => {
                append_mods_prefix(&mut out, m.bits);
                append_key_name(&mut out, *k);
                proof {
                    assert(out@ =~= display_rep(*self));
                }
            },
            Event::Mouse(m) => {
                out.append("Mouse(");
                append_mouse(&mut out, m);
                out.append(")");
                proof {
                    assert(out@ =~= display_rep(*self));
                }
            },
            Event::UpdateArea(r) => {
                out.append("UpdateArea(");
                out.append("Rect { x: ");
                fmt_u64(&mut out, r.x as u64);
                out.append(", y: ");
                fmt_u64(&mut out, r.y as u64);
                out.append(", width: ");
                fmt_u64(&mut out, r.width as u64);
                out.append(", height: ");
                fmt_u64(&mut out, r.height as u64);
                out.append(" }");
                out.append(")");
                proof {
                    assert(out@ =~= display_rep(*self));
                }
            },
            Event::Paste(s) => {
                out.append("Paste(");
                out.append(s.as_str());
                out.append(")");
                proof {
                    assert(out@ =~= display_rep(*self));
                }
            },
            Event::FocusLost => {
                out.append("FocusLost");
                proof {
                    assert(out@ =~= display_rep(*self));
                }
            },
            Event::FocusGained => {
                out.append("FocusGained");
                proof {
                    assert(out@ =~= display_rep(*self));
                }
            },
            Event::GetMe => {
                out.append("GetMe");
                proof {
                    assert(out@ =~= display_rep(*self));
                }
            },
            Event::LoadChats(l, n) => {
                out.append("LoadChats(");
                match l {
                    ChatList::Main => out.append("Main"),
                    ChatList::Archive => out.append("Archive"),
                    ChatList::Folder(f) => {
                        out.append("Folder(");
                        fmt_i64(&mut out, *f as i64);
                        out.append(")");
                    },
                }
                out.append(", ");
                fmt_i64(&mut out, *n as i64);
                out.append(")");
                proof {
                    assert(out@ =~= display_rep(*self));
                }
            },
            Event::SendMessage(s, r) => {
                out.append("SendMessage(");
                out.append(s.as_str());
                out.append(", ");
                match r {
                    None => out.append("None"),
                    Some(t) => {
                        out.append("Some(");
                        out.append("ReplyTarget { chat_id: ");
                        fmt_i64(&mut out, t.chat_id);
                        out.append(", message_id: ");
                        fmt_i64(&mut out, t.message_id);
                        out.append(" }");
                        out.append(")");
                    },
                }
                out.append(")");
                proof {
                    assert(out@ =~= display_rep(*self));
                }
            },
            Event::SendMessageEdited(id, s) => {
                out.append("SendMessageEdited(");
                fmt_i64(&mut out, *id);
                out.append(", ");
                out.append(s.as_str());
                out.append(")");
                proof {
                    assert(out@ =~= display_rep(*self));
                }
            },
            Event::GetChatHistory => {
                out.append("GetChatHistory");
                proof {
                    assert(out@ =~= display_rep(*self));
                }
            },
            Event::DeleteMessages(v, rev) => {
                out.append("DeleteMessages(");
                fmt_ids(&mut out, v);
                out.append(", ");
                if *rev {
                    out.append("true");
                } else {
                    out.append("false");
                }
                out.append(")");
                proof {
                    assert(out@ =~= display_rep(*self));
                }
            },
            Event::EditMessage(id, s) => {
                out.append("EditMessage(");
                fmt_i64(&mut out, *id);
                out.append(", ");
                out.append(s.as_str());
                out.append(")");
                proof {
                    assert(out@ =~= display_rep(*self));
                }
            },
            Event::ReplyMessage(id, s) => {
                out.append("ReplyMessage(");
                fmt_i64(&mut out, *id);
                out.append(", ");
                out.append(s.as_str());
                out.append(")");
                proof {
                    assert(out@ =~= display_rep(*self));
                }
            },
            Event::ViewAllMessages => {
                out.append("ViewAllMessages");
                proof {
                    assert(out@ =~= display_rep(*self));
                }
            },
        }
        out
    }
}

} // verus!
