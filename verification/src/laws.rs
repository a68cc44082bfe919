//! The quantified guarantees of the chord parser and the formatter, proved
//! over the specification functions the public contracts use.

use vstd::prelude::*;

use crate::display::{display_rep, key_name_rep, mods_prefix_rep};
use crate::event::{
    chord_bits, key_code_of, key_token, lemma_find_plus_is, mod_bit_of, Event,
};
use crate::keys::{key_code_wf, KeyCode, Modifiers};

verus! {

/// True of a token that contains no separator.
pub open spec fn plus_free(t: Seq<char>) -> bool {
    forall|i: int| 0 <= i < t.len() ==> t[i] != '+'
}

/// The union of the modifier bits of a token list, folded from the left.
pub open spec fn bits_union(toks: Seq<Seq<char>>) -> u8
    decreases toks.len(),
{
    if toks.len() == 0 {
        0
    } else {
        mod_bit_of(toks[0]) | bits_union(toks.drop_first())
    }
}

/// The chord string that names the given modifiers, in order, before the
/// given key token: each modifier followed by a `+`.
pub open spec fn chord_join(mods: Seq<Seq<char>>, k: Seq<char>) -> Seq<char>
    decreases mods.len(),
{
    if mods.len() == 0 {
        k
    } else {
        mods[0] + seq!['+'] + chord_join(mods.drop_first(), k)
    }
}

/// A chord without separators is all key token: it parses with the empty
/// modifier set.
pub proof fn lemma_plain_chord(s: Seq<char>)
    requires
        plus_free(s),
    ensures
        key_token(s) == s,
        chord_bits(s) == 0,
{
    lemma_find_plus_is(s, s.len() as int);
}

/// A bit is set in the union of a token list exactly when some token
/// contributes it.
pub proof fn lemma_bits_union_members(s: Seq<Seq<char>>, j: u8)
    requires
        j < 8,
    ensures
        ((bits_union(s) >> j) & 1 == 1) <==> (exists|i: int|
            0 <= i < s.len() && (mod_bit_of(s[i]) >> j) & 1 == 1),
    decreases s.len(),
{
    if s.len() == 0 {
        assert((0u8 >> j) & 1 == 0) by (bit_vector)
            requires
                j < 8,
        ;
    } else {
        let a = mod_bit_of(s[0]);
        let rest = s.drop_first();
        let b = bits_union(rest);
        lemma_bits_union_members(rest, j);
        assert((((a | b) >> j) & 1 == 1) <==> (((a >> j) & 1 == 1) || ((b >> j) & 1 == 1)))
            by (bit_vector)
            requires
                j < 8,
        ;
        if (a >> j) & 1 == 1 {
            assert(0 <= 0 < s.len() && (mod_bit_of(s[0]) >> j) & 1 == 1);
        }
        if (b >> j) & 1 == 1 {
            let i = choose|i: int| 0 <= i < rest.len() && (mod_bit_of(rest[i]) >> j) & 1 == 1;
            assert(s[i + 1] == rest[i]);
            assert(0 <= i + 1 < s.len() && (mod_bit_of(s[i + 1]) >> j) & 1 == 1);
        }
        if exists|i: int| 0 <= i < s.len() && (mod_bit_of(s[i]) >> j) & 1 == 1 {
            let i = choose|i: int| 0 <= i < s.len() && (mod_bit_of(s[i]) >> j) & 1 == 1;
            if i > 0 {
                assert(rest[i - 1] == s[i]);
                assert(0 <= i - 1 < rest.len() && (mod_bit_of(rest[i - 1]) >> j) & 1 == 1);
            }
        }
    }
}

/// The union of a token list depends only on which tokens occur in it,
/// not on their order or their repetition.
pub proof fn lemma_bits_union_order_blind(s1: Seq<Seq<char>>, s2: Seq<Seq<char>>)
    requires
        forall|t: Seq<char>| s1.contains(t) <==> s2.contains(t),
    ensures
        bits_union(s1) == bits_union(s2),
{
    let x = bits_union(s1);
    let y = bits_union(s2);
    assert forall|j: u8| j < 8 implies (x >> j) & 1 == (y >> j) & 1 by {
        lemma_bits_union_members(s1, j);
        lemma_bits_union_members(s2, j);
        if (x >> j) & 1 == 1 {
            let i = choose|i: int| 0 <= i < s1.len() && (mod_bit_of(s1[i]) >> j) & 1 == 1;
            assert(s1.contains(s1[i]));
            assert(s2.contains(s1[i]));
            let i2 = choose|i2: int| 0 <= i2 < s2.len() && s2[i2] == s1[i];
            assert(0 <= i2 < s2.len() && (mod_bit_of(s2[i2]) >> j) & 1 == 1);
        }
        if (y >> j) & 1 == 1 {
            let i = choose|i: int| 0 <= i < s2.len() && (mod_bit_of(s2[i]) >> j) & 1 == 1;
            assert(s2.contains(s2[i]));
            assert(s1.contains(s2[i]));
            let i1 = choose|i1: int| 0 <= i1 < s1.len() && s1[i1] == s2[i];
            assert(0 <= i1 < s1.len() && (mod_bit_of(s1[i1]) >> j) & 1 == 1);
        }
        assert(((x >> j) & 1 == 0) || ((x >> j) & 1 == 1)) by (bit_vector);
        assert(((y >> j) & 1 == 0) || ((y >> j) & 1 == 1)) by (bit_vector);
    }
    assert((x >> 0) & 1 == (y >> 0) & 1);
    assert((x >> 1) & 1 == (y >> 1) & 1);
    assert((x >> 2) & 1 == (y >> 2) & 1);
    assert((x >> 3) & 1 == (y >> 3) & 1);
    assert((x >> 4) & 1 == (y >> 4) & 1);
    assert((x >> 5) & 1 == (y >> 5) & 1);
    assert((x >> 6) & 1 == (y >> 6) & 1);
    assert((x >> 7) & 1 == (y >> 7) & 1);
    assert(x == y) by (bit_vector)
        requires
            (x >> 0) & 1 == (y >> 0) & 1,
            (x >> 1) & 1 == (y >> 1) & 1,
            (x >> 2) & 1 == (y >> 2) & 1,
            (x >> 3) & 1 == (y >> 3) & 1,
            (x >> 4) & 1 == (y >> 4) & 1,
            (x >> 5) & 1 == (y >> 5) & 1,
            (x >> 6) & 1 == (y >> 6) & 1,
            (x >> 7) & 1 == (y >> 7) & 1,
    ;
}

/// A chord built from separator-free modifier tokens before a
/// separator-free key token parses to that key token, under the union of
/// the modifier bits.
pub proof fn lemma_chord_join(mods: Seq<Seq<char>>, k: Seq<char>)
    requires
        forall|i: int| 0 <= i < mods.len() ==> plus_free(#[trigger] mods[i]),
        plus_free(k),
    ensures
        key_token(chord_join(mods, k)) == k,
        chord_bits(chord_join(mods, k)) == bits_union(mods),
    decreases mods.len(),
{
    if mods.len() == 0 {
        lemma_plain_chord(k);
    } else {
        let t = mods[0];
        let s = chord_join(mods, k);
        let rest = chord_join(mods.drop_first(), k);
        assert(plus_free(mods[0]));
        assert forall|j: int| 0 <= j < t.len() implies s[j] != '+' by {
            assert(s[j] == t[j]);
        }
        assert(s[t.len() as int] == '+');
        lemma_find_plus_is(s, t.len() as int);
        assert(s.take(t.len() as int) =~= t);
        assert(s.skip(t.len() as int + 1) =~= rest);
        assert forall|i: int| 0 <= i < mods.drop_first().len() implies plus_free(
            #[trigger] mods.drop_first()[i],
        ) by {
            assert(mods.drop_first()[i] == mods[i + 1]);
        }
        lemma_chord_join(mods.drop_first(), k);
    }
}

/// The parse of a chord is blind to the order, and to the repetition, of
/// its modifier tokens.
pub proof fn lemma_chord_order_blind(m1: Seq<Seq<char>>, m2: Seq<Seq<char>>, k: Seq<char>)
    requires
        forall|i: int| 0 <= i < m1.len() ==> plus_free(#[trigger] m1[i]),
        forall|i: int| 0 <= i < m2.len() ==> plus_free(#[trigger] m2[i]),
        plus_free(k),
        forall|t: Seq<char>| m1.contains(t) <==> m2.contains(t),
    ensures
        key_token(chord_join(m1, k)) == key_token(chord_join(m2, k)),
        chord_bits(chord_join(m1, k)) == chord_bits(chord_join(m2, k)),
{
    lemma_chord_join(m1, k);
    lemma_chord_join(m2, k);
    lemma_bits_union_order_blind(m1, m2);
}

/// Repeating a modifier token does not change the union of the bits.
pub proof fn lemma_repeat_modifier(mods: Seq<Seq<char>>, i: int)
    requires
        0 <= i < mods.len(),
    ensures
        bits_union(mods.push(mods[i])) == bits_union(mods),
{
    let p = mods.push(mods[i]);
    assert forall|t: Seq<char>| p.contains(t) == mods.contains(t) by {
        if p.contains(t) {
            let idx = choose|idx: int| 0 <= idx < p.len() && p[idx] == t;
            if idx < mods.len() {
                assert(mods[idx] == t);
            } else {
                assert(t == mods[i]);
            }
            assert(mods.contains(t));
        }
        if mods.contains(t) {
            let idx = choose|idx: int| 0 <= idx < mods.len() && mods[idx] == t;
            assert(p[idx] == t);
            assert(p.contains(t));
        }
    }
    lemma_bits_union_order_blind(p, mods);
}

/// Repeating a modifier token of a chord changes nothing of its parse:
/// neither the key token nor the modifier bits.
pub proof fn lemma_repeat_modifier_chord(mods: Seq<Seq<char>>, i: int, k: Seq<char>)
    requires
        forall|j: int| 0 <= j < mods.len() ==> plus_free(#[trigger] mods[j]),
        plus_free(k),
        0 <= i < mods.len(),
    ensures
        key_token(chord_join(mods.push(mods[i]), k)) == key_token(chord_join(mods, k)),
        chord_bits(chord_join(mods.push(mods[i]), k)) == chord_bits(chord_join(mods, k)),
{
    let p = mods.push(mods[i]);
    assert forall|j: int| 0 <= j < p.len() implies plus_free(#[trigger] p[j]) by {
        if j < mods.len() {
            assert(p[j] == mods[j]);
        } else {
            assert(p[j] == mods[i]);
        }
    }
    lemma_chord_join(mods, k);
    lemma_chord_join(p, k);
    lemma_repeat_modifier(mods, i);
}

/// True of the tokens that name a key outright.
pub open spec fn is_named_key(t: Seq<char>) -> bool {
    ||| t == "backspace"@
    ||| t == "enter"@
    ||| t == "left"@
    ||| t == "right"@
    ||| t == "up"@
    ||| t == "down"@
    ||| t == "home"@
    ||| t == "end"@
    ||| t == "page_up"@
    ||| t == "page_down"@
    ||| t == "tab"@
    ||| t == "back_tab"@
    ||| t == "delete"@
    ||| t == "insert"@
    ||| t == "null"@
    ||| t == "esc"@
    ||| t == "f1"@
    ||| t == "f2"@
    ||| t == "f3"@
    ||| t == "f4"@
    ||| t == "f5"@
    ||| t == "f6"@
    ||| t == "f7"@
    ||| t == "f8"@
    ||| t == "f9"@
    ||| t == "f10"@
    ||| t == "f11"@
    ||| t == "f12"@
}

/// A named key token, alone, is a whole chord: it parses to its own key
/// code with the empty modifier set.
pub proof fn lemma_named_key_chord(t: Seq<char>)
    requires
        is_named_key(t),
    ensures
        key_token(t) == t,
        chord_bits(t) == 0,
        key_code_of(t) is Some,
{
    reveal_strlit("backspace");
    reveal_strlit("enter");
    reveal_strlit("left");
    reveal_strlit("right");
    reveal_strlit("up");
    reveal_strlit("down");
    reveal_strlit("home");
    reveal_strlit("end");
    reveal_strlit("page_up");
    reveal_strlit("page_down");
    reveal_strlit("tab");
    reveal_strlit("back_tab");
    reveal_strlit("delete");
    reveal_strlit("insert");
    reveal_strlit("null");
    reveal_strlit("esc");
    reveal_strlit("f1");
    reveal_strlit("f2");
    reveal_strlit("f3");
    reveal_strlit("f4");
    reveal_strlit("f5");
    reveal_strlit("f6");
    reveal_strlit("f7");
    reveal_strlit("f8");
    reveal_strlit("f9");
    reveal_strlit("f10");
    reveal_strlit("f11");
    reveal_strlit("f12");
    assert(plus_free(t));
    lemma_plain_chord(t);
}

/// A single ASCII character other than the separator, alone, is a whole
/// chord: it parses to `Char` of itself with the empty modifier set. The
/// separator itself, as a chord, splits into two empty tokens instead.
pub proof fn lemma_single_ascii_chord(c: char)
    requires
        (c as u32) <= 127,
        c != '+',
    ensures
        key_token(seq![c]) == seq![c],
        chord_bits(seq![c]) == 0,
        key_code_of(seq![c]) == Some(KeyCode::Char(c)),
{
    lemma_plain_chord(seq![c]);
    reveal_strlit("backspace");
    reveal_strlit("enter");
    reveal_strlit("left");
    reveal_strlit("right");
    reveal_strlit("up");
    reveal_strlit("down");
    reveal_strlit("home");
    reveal_strlit("end");
    reveal_strlit("page_up");
    reveal_strlit("page_down");
    reveal_strlit("tab");
    reveal_strlit("back_tab");
    reveal_strlit("delete");
    reveal_strlit("insert");
    reveal_strlit("null");
    reveal_strlit("esc");
    reveal_strlit("f1");
    reveal_strlit("f2");
    reveal_strlit("f3");
    reveal_strlit("f4");
    reveal_strlit("f5");
    reveal_strlit("f6");
    reveal_strlit("f7");
    reveal_strlit("f8");
    reveal_strlit("f9");
    reveal_strlit("f10");
    reveal_strlit("f11");
    reveal_strlit("f12");
}

/// Whatever key the parser can produce satisfies the key-code invariant:
/// function keys stay within `f1..f12`, characters within ASCII.
pub proof fn lemma_parsed_key_wf(t: Seq<char>)
    ensures
        key_code_of(t) matches Some(k) ==> key_code_wf(k),
{
}

/// A character key with no modifiers renders as the one-character string
/// holding the character alone.
pub proof fn lemma_display_plain_char(c: char)
    requires
        (c as u32) <= 127,
    ensures
        display_rep(Event::Key(KeyCode::Char(c), Modifiers { bits: 0 })) == seq![c],
{
    assert(mods_prefix_rep(0) + key_name_rep(KeyCode::Char(c)) =~= seq![c]);
}

} // verus!
