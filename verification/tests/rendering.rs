use tui_events::event::Event;
use tui_events::keys::{KeyCode, Modifiers, ALT, CONTROL, HYPER, META, SHIFT, SUPER};
use tui_events::payload::{ChatList, MouseButton, MouseEvent, MouseKind, Rect, ReplyTarget};

#[test]
fn ctrl_char_renders() {
    let e = Event::Key(KeyCode::Char('a'), Modifiers { bits: CONTROL });
    assert_eq!(e.display(), "Ctrl+a");
}

#[test]
fn resize_renders() {
    assert_eq!(Event::Resize(80, 24).display(), "Resize(80, 24)");
}

#[test]
fn plain_char_renders_as_itself() {
    for b in 0x20u8..0x7fu8 {
        let c = b as char;
        let e = Event::Key(KeyCode::Char(c), Modifiers { bits: 0 });
        assert_eq!(e.display(), c.to_string(), "ascii {}", b);
    }
}

#[test]
fn named_key_renders_symbolically() {
    assert_eq!(
        Event::Key(KeyCode::Enter, Modifiers { bits: 0 }).display(),
        "Enter"
    );
    assert_eq!(
        Event::Key(KeyCode::PageUp, Modifiers { bits: 0 }).display(),
        "PageUp"
    );
    assert_eq!(
        Event::Key(KeyCode::BackTab, Modifiers { bits: 0 }).display(),
        "BackTab"
    );
}

#[test]
fn function_key_renders_with_number() {
    assert_eq!(
        Event::Key(KeyCode::F(3), Modifiers { bits: 0 }).display(),
        "F(3)"
    );
    assert_eq!(
        Event::Key(KeyCode::F(12), Modifiers { bits: CONTROL }).display(),
        "Ctrl+F(12)"
    );
}

#[test]
fn each_single_modifier_renders_canonically() {
    let k = KeyCode::Char('k');
    let cases: Vec<(u8, &str)> = vec![
        (CONTROL, "Ctrl+k"),
        (ALT, "Alt+k"),
        (SHIFT, "Shift+k"),
        (SUPER, "Super+k"),
        (META, "Meta+k"),
        (HYPER, "Hyper+k"),
    ];
    for (bits, expect) in cases {
        assert_eq!(Event::Key(k, Modifiers { bits }).display(), expect);
    }
}

#[test]
fn combined_modifiers_render_generically() {
    let e = Event::Key(KeyCode::Char('a'), Modifiers { bits: CONTROL | SHIFT });
    assert_eq!(e.display(), "Modifiers(SHIFT | CONTROL)+a");
}

#[test]
fn three_modifiers_render_generically() {
    let e = Event::Key(KeyCode::Enter, Modifiers { bits: CONTROL | ALT | META });
    assert_eq!(e.display(), "Modifiers(CONTROL | ALT | META)+Enter");
}

#[test]
fn payload_free_variants_render_as_names() {
    assert_eq!(Event::Unknown.display(), "Unknown");
    assert_eq!(Event::Init.display(), "Init");
    assert_eq!(Event::Render.display(), "Render");
    assert_eq!(Event::FocusLost.display(), "FocusLost");
    assert_eq!(Event::FocusGained.display(), "FocusGained");
    assert_eq!(Event::GetMe.display(), "GetMe");
    assert_eq!(Event::GetChatHistory.display(), "GetChatHistory");
    assert_eq!(Event::ViewAllMessages.display(), "ViewAllMessages");
}

#[test]
fn paste_renders_text() {
    assert_eq!(
        Event::Paste(String::from("hello world")).display(),
        "Paste(hello world)"
    );
}

#[test]
fn mouse_renders_structurally() {
    let m = MouseEvent {
        kind: MouseKind::Down(MouseButton::Left),
        column: 3,
        row: 7,
        mods: Modifiers { bits: 0 },
    };
    assert_eq!(
        Event::Mouse(m).display(),
        "Mouse(MouseEvent { kind: Down(Left), column: 3, row: 7, mods: Modifiers() })"
    );
}

#[test]
fn mouse_scroll_with_modifiers_renders() {
    let m = MouseEvent {
        kind: MouseKind::ScrollUp,
        column: 0,
        row: 0,
        mods: Modifiers { bits: SHIFT },
    };
    assert_eq!(
        Event::Mouse(m).display(),
        "Mouse(MouseEvent { kind: ScrollUp, column: 0, row: 0, mods: Modifiers(SHIFT) })"
    );
}

#[test]
fn update_area_renders_rect() {
    let r = Rect { x: 1, y: 2, width: 80, height: 24 };
    assert_eq!(
        Event::UpdateArea(r).display(),
        "UpdateArea(Rect { x: 1, y: 2, width: 80, height: 24 })"
    );
}

#[test]
fn load_chats_renders() {
    assert_eq!(
        Event::LoadChats(ChatList::Main, 20).display(),
        "LoadChats(Main, 20)"
    );
    assert_eq!(
        Event::LoadChats(ChatList::Folder(-3), 50).display(),
        "LoadChats(Folder(-3), 50)"
    );
}

#[test]
fn send_message_renders_without_reply() {
    assert_eq!(
        Event::SendMessage(String::from("hi"), None).display(),
        "SendMessage(hi, None)"
    );
}

#[test]
fn send_message_renders_with_reply() {
    let t = ReplyTarget { chat_id: 5, message_id: 9 };
    assert_eq!(
        Event::SendMessage(String::from("hi"), Some(t)).display(),
        "SendMessage(hi, Some(ReplyTarget { chat_id: 5, message_id: 9 }))"
    );
}

#[test]
fn send_message_edited_renders() {
    assert_eq!(
        Event::SendMessageEdited(42, String::from("fixed")).display(),
        "SendMessageEdited(42, fixed)"
    );
}

#[test]
fn delete_messages_renders_id_list() {
    assert_eq!(
        Event::DeleteMessages(vec![1, 2, 3], true).display(),
        "DeleteMessages([1, 2, 3], true)"
    );
    assert_eq!(
        Event::DeleteMessages(vec![], false).display(),
        "DeleteMessages([], false)"
    );
    assert_eq!(
        Event::DeleteMessages(vec![-7], false).display(),
        "DeleteMessages([-7], false)"
    );
}

#[test]
fn edit_and_reply_render() {
    assert_eq!(
        Event::EditMessage(-12, String::from("oops")).display(),
        "EditMessage(-12, oops)"
    );
    assert_eq!(
        Event::ReplyMessage(7, String::from("yes")).display(),
        "ReplyMessage(7, yes)"
    );
}

#[test]
fn large_and_extreme_numbers_render() {
    assert_eq!(Event::Resize(65535, 0).display(), "Resize(65535, 0)");
    assert_eq!(
        Event::SendMessageEdited(i64::MIN, String::new()).display(),
        format!("SendMessageEdited({}, )", i64::MIN)
    );
    assert_eq!(
        Event::SendMessageEdited(i64::MAX, String::new()).display(),
        format!("SendMessageEdited({}, )", i64::MAX)
    );
}
