//! Structural equality for `Event`.
//!
//! `Event` carries `String` and `Vec` payloads, so `==` is written by hand
//! and specified to mean: the variants match and the payloads are equal.

use vstd::prelude::*;

use crate::event::Event;

verus! {

/// Structural equality on events: same variant, equal payloads; string and
/// list payloads compare by contents.
pub open spec fn event_like(a: Event, b: Event) -> bool {
    match (a, b) {
        (Event::Unknown, Event::Unknown) => true,
        (Event::Resize(w1, h1), Event::Resize(w2, h2)) => w1 == w2 && h1 == h2,
        (Event::Key(c1, m1), Event::Key(c2, m2)) => c1 == c2 && m1 == m2,
        (Event::Paste(s1), Event::Paste(s2)) => s1@ == s2@,
        (Event::Mouse(m1), Event::Mouse(m2)) => m1 == m2,
        (Event::Init, Event::Init) => true,
        (Event::Render, Event::Render) => true,
        (Event::FocusLost, Event::FocusLost) => true,
        (Event::FocusGained, Event::FocusGained) => true,
        (Event::UpdateArea(r1), Event::UpdateArea(r2)) => r1 == r2,
        (Event::EditMessage(i1, s1), Event::EditMessage(i2, s2)) => i1 == i2 && s1@ == s2@,
        (Event::ReplyMessage(i1, s1), Event::ReplyMessage(i2, s2)) => i1 == i2 && s1@ == s2@,
        (Event::GetMe, Event::GetMe) => true,
        (Event::LoadChats(l1, n1), Event::LoadChats(l2, n2)) => l1 == l2 && n1 == n2,
        (Event::SendMessage(s1, r1), Event::SendMessage(s2, r2)) => s1@ == s2@ && r1 == r2,
        (Event::SendMessageEdited(i1, s1), Event::SendMessageEdited(i2, s2)) => i1 == i2 && s1@
            == s2@,
        (Event::GetChatHistory, Event::GetChatHistory) => true,
        (Event::DeleteMessages(v1, b1), Event::DeleteMessages(v2, b2)) => v1@ == v2@ && b1 == b2,
        (Event::ViewAllMessages, Event::ViewAllMessages) => true,
        _ => false,
    }
}

/// Element-wise equality of two id lists.
fn vec_i64_eq(a: &Vec<i64>, b: &Vec<i64>) -> (r: bool)
    ensures
        r == (a@ == b@),
{
    if a.len() != b.len() {
        return false;
    }
    let mut i: usize = 0;
    while i < a.len()
        invariant
            0 <= i <= a.len(),
            a.len() == b.len(),
            forall|j: int| 0 <= j < i ==> a@[j] == b@[j],
        decreases a.len() - i,
    {
        if a[i] != b[i] {
            return false;
        }
        i = i + 1;
    }
    proof {
        assert(a@ =~= b@);
    }
    true
}

impl PartialEq for Event {
    fn eq(&self, other: &Event) -> (r: bool) {
        match (self, other) {
            (Event::Unknown, Event::Unknown) => true,
            (Event::Resize(w1, h1), Event::Resize(w2, h2)) => *w1 == *w2 && *h1 == *h2,
            (Event::Key(c1, m1), Event::Key(c2, m2)) => *c1 == *c2 && *m1 == *m2,
            (Event::Paste(s1), Event::Paste(s2)) => *s1 == *s2,
            (Event::Mouse(m1), Event::Mouse(m2)) => *m1 == *m2,
            (Event::Init, Event::Init) => true,
            (Event::Render, Event::Render) => true,
            (Event::FocusLost, Event::FocusLost) => true,
            (Event::FocusGained, Event::FocusGained) => true,
            (Event::UpdateArea(r1), Event::UpdateArea(r2)) => *r1 == *r2,
            (Event::EditMessage(i1, s1), Event::EditMessage(i2, s2)) => *i1 == *i2 && *s1 == *s2,
            (Event::ReplyMessage(i1, s1), Event::ReplyMessage(i2, s2)) => *i1 == *i2 && *s1
                == *s2,
            (Event::GetMe, Event::GetMe) => true,
            (Event::LoadChats(l1, n1), Event::LoadChats(l2, n2)) => *l1 == *l2 && *n1 == *n2,
            (Event::SendMessage(s1, r1), Event::SendMessage(s2, r2)) => {
                let reply_eq = match (r1, r2) {
                    (None, None) => true,
                    (Some(a), Some(b)) => *a == *b,
                    _ => false,
                };
                *s1 == *s2 && reply_eq
            },
            (Event::SendMessageEdited(i1, s1), Event::SendMessageEdited(i2, s2)) => *i1 == *i2
                && *s1 == *s2,
            (Event::GetChatHistory, Event::GetChatHistory) => true,
            (Event::DeleteMessages(v1, b1), Event::DeleteMessages(v2, b2)) => vec_i64_eq(v1, v2)
                && *b1 == *b2,
            (Event::ViewAllMessages, Event::ViewAllMessages) => true,
            _ => false,
        }
    }
}

impl vstd::std_specs::cmp::PartialEqSpecImpl for Event {
    open spec fn obeys_eq_spec() -> bool {
        true
    }

    open spec fn eq_spec(&self, other: &Event) -> bool {
        event_like(*self, *other)
    }
}

} // verus!
