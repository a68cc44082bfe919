use tui_events::error::AppError;
use tui_events::event::{parse_chord, Event};
use tui_events::keys::{KeyCode, Modifiers, ALT, CONTROL, HYPER, META, SHIFT, SUPER};

#[test]
fn single_char_parses_plain() {
    assert_eq!(
        parse_chord("a"),
        Ok(Event::Key(KeyCode::Char('a'), Modifiers { bits: 0 }))
    );
}

#[test]
fn ctrl_char_parses() {
    assert_eq!(
        parse_chord("ctrl+a"),
        Ok(Event::Key(KeyCode::Char('a'), Modifiers { bits: CONTROL }))
    );
}

#[test]
fn ctrl_shift_page_up_parses() {
    assert_eq!(
        parse_chord("ctrl+shift+page_up"),
        Ok(Event::Key(KeyCode::PageUp, Modifiers { bits: CONTROL | SHIFT }))
    );
}

#[test]
fn f12_parses() {
    assert_eq!(
        parse_chord("f12"),
        Ok(Event::Key(KeyCode::F(12), Modifiers { bits: 0 }))
    );
}

#[test]
fn non_ascii_char_is_rejected() {
    assert_eq!(
        parse_chord("\u{e9}"),
        Err(AppError::InvalidEvent(String::from("\u{e9}")))
    );
}

#[test]
fn trailing_separator_fails_with_empty_token() {
    assert_eq!(
        parse_chord("ctrl+"),
        Err(AppError::InvalidEvent(String::new()))
    );
}

#[test]
fn empty_string_fails_with_empty_token() {
    assert_eq!(parse_chord(""), Err(AppError::InvalidEvent(String::new())));
}

#[test]
fn lone_separator_fails_with_empty_token() {
    assert_eq!(parse_chord("+"), Err(AppError::InvalidEvent(String::new())));
}

#[test]
fn multi_char_garbage_is_rejected_with_key_token_only() {
    assert_eq!(
        parse_chord("ctrl+quux"),
        Err(AppError::InvalidEvent(String::from("quux")))
    );
}

#[test]
fn every_named_key_parses_plain() {
    let table: Vec<(&str, KeyCode)> = vec![
        ("backspace", KeyCode::Backspace),
        ("enter", KeyCode::Enter),
        ("left", KeyCode::Left),
        ("right", KeyCode::Right),
        ("up", KeyCode::Up),
        ("down", KeyCode::Down),
        ("home", KeyCode::Home),
        ("end", KeyCode::End),
        ("page_up", KeyCode::PageUp),
        ("page_down", KeyCode::PageDown),
        ("tab", KeyCode::Tab),
        ("back_tab", KeyCode::BackTab),
        ("delete", KeyCode::Delete),
        ("insert", KeyCode::Insert),
        ("null", KeyCode::Null),
        ("esc", KeyCode::Esc),
        ("f1", KeyCode::F(1)),
        ("f2", KeyCode::F(2)),
        ("f3", KeyCode::F(3)),
        ("f4", KeyCode::F(4)),
        ("f5", KeyCode::F(5)),
        ("f6", KeyCode::F(6)),
        ("f7", KeyCode::F(7)),
        ("f8", KeyCode::F(8)),
        ("f9", KeyCode::F(9)),
        ("f10", KeyCode::F(10)),
        ("f11", KeyCode::F(11)),
        ("f12", KeyCode::F(12)),
    ];
    for (name, code) in table {
        assert_eq!(
            parse_chord(name),
            Ok(Event::Key(code, Modifiers { bits: 0 })),
            "named key {}",
            name
        );
    }
}

#[test]
fn every_ascii_char_but_separator_parses_plain() {
    for b in 0u8..=127u8 {
        let c = b as char;
        if c == '+' {
            continue;
        }
        let s = c.to_string();
        assert_eq!(
            parse_chord(&s),
            Ok(Event::Key(KeyCode::Char(c), Modifiers { bits: 0 })),
            "ascii {}",
            b
        );
    }
}

#[test]
fn modifier_order_does_not_matter() {
    assert_eq!(parse_chord("ctrl+shift+a"), parse_chord("shift+ctrl+a"));
    assert_eq!(
        parse_chord("alt+super+meta+enter"),
        parse_chord("meta+alt+super+enter")
    );
}

#[test]
fn repeated_modifier_is_idempotent() {
    assert_eq!(parse_chord("ctrl+ctrl+a"), parse_chord("ctrl+a"));
    assert_eq!(
        parse_chord("shift+shift+shift+page_down"),
        parse_chord("shift+page_down")
    );
}

#[test]
fn all_six_modifiers_fold_together() {
    assert_eq!(
        parse_chord("ctrl+alt+shift+super+meta+hyper+x"),
        Ok(Event::Key(
            KeyCode::Char('x'),
            Modifiers { bits: CONTROL | ALT | SHIFT | SUPER | META | HYPER }
        ))
    );
}

#[test]
fn unknown_modifier_contributes_no_bit() {
    assert_eq!(
        parse_chord("foo+a"),
        Ok(Event::Key(KeyCode::Char('a'), Modifiers { bits: 0 }))
    );
}

#[test]
fn modifiers_are_case_sensitive() {
    assert_eq!(
        parse_chord("CTRL+a"),
        Ok(Event::Key(KeyCode::Char('a'), Modifiers { bits: 0 }))
    );
}

#[test]
fn named_keys_are_case_sensitive() {
    assert_eq!(
        parse_chord("Enter"),
        Err(AppError::InvalidEvent(String::from("Enter")))
    );
}

#[test]
fn empty_modifier_token_contributes_no_bit() {
    assert_eq!(
        parse_chord("ctrl++a"),
        Ok(Event::Key(KeyCode::Char('a'), Modifiers { bits: CONTROL }))
    );
}

#[test]
fn event_with_modifiers_maps_named_key() {
    assert_eq!(
        Event::event_with_modifiers("esc", Modifiers { bits: ALT }),
        Ok(Event::Key(KeyCode::Esc, Modifiers { bits: ALT }))
    );
}

#[test]
fn event_with_modifiers_rejects_bad_token() {
    assert_eq!(
        Event::event_with_modifiers("escape", Modifiers { bits: 0 }),
        Err(AppError::InvalidEvent(String::from("escape")))
    );
}

#[test]
fn separator_as_key_is_not_reachable() {
    // A lone `+` splits into two empty tokens, so `+` itself cannot be bound.
    assert_eq!(
        parse_chord("ctrl++"),
        Err(AppError::InvalidEvent(String::new()))
    );
}

#[test]
fn from_str_goes_through_the_parser() {
    let e: Event = "ctrl+enter".parse().unwrap();
    assert_eq!(e, Event::Key(KeyCode::Enter, Modifiers { bits: CONTROL }));
    assert!("bogus".parse::<Event>().is_err());
}

#[test]
fn modifiers_union_is_bitwise() {
    let a = Modifiers { bits: CONTROL };
    let b = Modifiers { bits: SHIFT };
    assert_eq!(a.union(b), Modifiers { bits: CONTROL | SHIFT });
    assert_eq!(Modifiers::none().union(a), a);
    assert_eq!(a.union(a), a);
}
