use std::collections::hash_map::DefaultHasher;
use std::hash::{Hash, Hasher};

use tui_events::event::Event;
use tui_events::keys::{KeyCode, Modifiers, CONTROL};
use tui_events::payload::{ChatList, ReplyTarget};

fn hash_of(e: &Event) -> u64 {
    let mut h = DefaultHasher::new();
    e.hash(&mut h);
    h.finish()
}

#[test]
fn equal_payloads_compare_equal_and_hash_equal() {
    let pairs: Vec<(Event, Event)> = vec![
        (Event::Unknown, Event::Unknown),
        (Event::Resize(80, 24), Event::Resize(80, 24)),
        (
            Event::Key(KeyCode::Char('a'), Modifiers { bits: CONTROL }),
            Event::Key(KeyCode::Char('a'), Modifiers { bits: CONTROL }),
        ),
        (
            Event::Paste(String::from("x")),
            Event::Paste(String::from("x")),
        ),
        (
            Event::SendMessage(String::from("hi"), Some(ReplyTarget { chat_id: 1, message_id: 2 })),
            Event::SendMessage(String::from("hi"), Some(ReplyTarget { chat_id: 1, message_id: 2 })),
        ),
        (
            Event::DeleteMessages(vec![1, 2], true),
            Event::DeleteMessages(vec![1, 2], true),
        ),
        (
            Event::LoadChats(ChatList::Folder(4), 10),
            Event::LoadChats(ChatList::Folder(4), 10),
        ),
    ];
    for (a, b) in pairs {
        assert_eq!(a, b);
        assert_eq!(hash_of(&a), hash_of(&b));
    }
}

#[test]
fn different_payloads_compare_unequal() {
    assert_ne!(Event::Resize(80, 24), Event::Resize(80, 25));
    assert_ne!(
        Event::Key(KeyCode::Char('a'), Modifiers { bits: 0 }),
        Event::Key(KeyCode::Char('b'), Modifiers { bits: 0 })
    );
    assert_ne!(
        Event::Key(KeyCode::Char('a'), Modifiers { bits: 0 }),
        Event::Key(KeyCode::Char('a'), Modifiers { bits: CONTROL })
    );
    assert_ne!(
        Event::Paste(String::from("x")),
        Event::Paste(String::from("y"))
    );
    assert_ne!(
        Event::DeleteMessages(vec![1, 2], true),
        Event::DeleteMessages(vec![2, 1], true)
    );
    assert_ne!(
        Event::SendMessage(String::from("hi"), None),
        Event::SendMessage(
            String::from("hi"),
            Some(ReplyTarget { chat_id: 1, message_id: 2 })
        )
    );
}

#[test]
fn distinct_variants_compare_unequal() {
    assert_ne!(Event::Unknown, Event::Init);
    assert_ne!(Event::Render, Event::GetMe);
    assert_ne!(
        Event::EditMessage(1, String::from("t")),
        Event::ReplyMessage(1, String::from("t"))
    );
}

#[test]
fn cloned_events_compare_equal() {
    let e = Event::SendMessage(
        String::from("hello"),
        Some(ReplyTarget { chat_id: -1, message_id: 7 }),
    );
    let c = e.clone();
    assert_eq!(e, c);
    assert_eq!(hash_of(&e), hash_of(&c));
}
