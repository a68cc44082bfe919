//! Structured payloads carried by events: layout regions, pointer events,
//! and the chat-backend references that outbound commands mention.

use vstd::prelude::*;

use crate::keys::Modifiers;

verus! {

/// A rectangular layout region, in terminal cells.
#[derive(Clone, Copy, PartialEq, Eq, Hash, Debug, Structural)]
pub struct Rect {
    pub x: u16,
    pub y: u16,
    pub width: u16,
    pub height: u16,
}

/// A pointer button.
#[derive(Clone, Copy, PartialEq, Eq, Hash, Debug, Structural)]
pub enum MouseButton {
    Left,
    Right,
    Middle,
}

/// What a pointer event reports.
#[derive(Clone, Copy, PartialEq, Eq, Hash, Debug, Structural)]
pub enum MouseKind {
    Down(MouseButton),
    Up(MouseButton),
    Drag(MouseButton),
    Moved,
    ScrollDown,
    ScrollUp,
    ScrollLeft,
    ScrollRight,
}

/// A pointer event: what happened, where, and with which modifiers held.
#[derive(Clone, Copy, PartialEq, Eq, Hash, Debug, Structural)]
pub struct MouseEvent {
    pub kind: MouseKind,
    pub column: u16,
    pub row: u16,
    pub mods: Modifiers,
}

/// Which chat index a `LoadChats` command addresses.
#[derive(Clone, Copy, PartialEq, Eq, Hash, Debug, Structural)]
pub enum ChatList {
    Main,
    Archive,
    Folder(i32),
}

/// A reference to the message a new message replies to.
#[derive(Clone, Copy, PartialEq, Eq, Hash, Debug, Structural)]
pub struct ReplyTarget {
    pub chat_id: i64,
    pub message_id: i64,
}

} // verus!
