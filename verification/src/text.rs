//! Building blocks for the display formatter: decimal renderings of the
//! integer payloads and of id lists, appended to a growing string.

use vstd::prelude::*;

verus! {

/// The digit character for a value below ten.
pub open spec fn digit_char(d: nat) -> char {
    ((48 + d) as u8) as char
}

/// Decimal representation of a natural number, most significant digit
/// first, with no leading zeros (a lone zero for zero).
pub open spec fn dec_rep(n: nat) -> Seq<char>
    decreases n,
{
    if n < 10 {
        seq![digit_char(n)]
    } else {
        dec_rep(n / 10).push(digit_char(n % 10))
    }
}

/// Decimal representation of an integer: a minus sign before the
/// magnitude when negative.
pub open spec fn dec_int_rep(n: int) -> Seq<char> {
    if n < 0 {
        seq!['-'] + dec_rep((-n) as nat)
    } else {
        dec_rep(n as nat)
    }
}

/// The comma-separated decimal renderings of an id list.
pub open spec fn ids_inner_rep(s: Seq<i64>) -> Seq<char>
    decreases s.len(),
{
    if s.len() == 0 {
        Seq::empty()
    } else if s.len() == 1 {
        dec_int_rep(s[0] as int)
    } else {
        ids_inner_rep(s.drop_last()) + ", "@ + dec_int_rep(s.last() as int)
    }
}

/// An id list rendered in brackets, as `[1, 2, 3]`.
pub open spec fn ids_rep(s: Seq<i64>) -> Seq<char> {
    "["@ + ids_inner_rep(s) + "]"@
}

/// Rendering of a boolean payload.
pub open spec fn bool_rep(b: bool) -> Seq<char> {
    if b {
        "true"@
    } else {
        "false"@
    }
}

/// Relies on `String::push`: appends exactly the one character.
#[verifier::external_body]
pub fn push_char(out: &mut String, c: char)
    ensures
        final(out)@ == old(out)@.push(c),
{
    out.push(c);
}

/// Append the decimal rendering of `n`.
pub fn fmt_u64(out: &mut String, n: u64)
    ensures
        final(out)@ == old(out)@ + dec_rep(n as nat),
    decreases n,
{
    if n < 10 {
        push_char(out, (48 + n as u8) as char);
        proof {
            assert(old(out)@.push(digit_char(n as nat)) =~= old(out)@ + dec_rep(n as nat));
        }
    } else {
        fmt_u64(out, n / 10);
        push_char(out, (48 + (n % 10) as u8) as char);
        proof {
            assert((old(out)@ + dec_rep((n / 10) as nat)).push(digit_char((n % 10) as nat)) =~= old(
                out,
            )@ + dec_rep(n as nat));
        }
    }
}

/// Append the decimal rendering of `n`, sign included.
pub fn fmt_i64(out: &mut String, n: i64)
    ensures
        final(out)@ == old(out)@ + dec_int_rep(n as int),
{
    if n >= 0 {
        fmt_u64(out, n as u64);
    } else {
        push_char(out, '-');
        let wide: i128 = -(n as i128);
        let m: u64 = wide as u64;
        fmt_u64(out, m);
        proof {
            assert(old(out)@.push('-') + dec_rep(m as nat) =~= old(out)@ + dec_int_rep(n as int));
        }
    }
}

/// Append the bracketed, comma-separated rendering of an id list.
pub fn fmt_ids(out: &mut String, v: &Vec<i64>)
    ensures
        final(out)@ == old(out)@ + ids_rep(v@),
{
    out.append("[");
    let ghost base = old(out)@;
    let mut i: usize = 0;
    while i < v.len()
        invariant
            0 <= i <= v.len(),
            out@ == base + "["@ + ids_inner_rep(v@.take(i as int)),
        decreases v.len() - i,
    {
        if i > 0 {
            out.append(", ");
        }
        fmt_i64(out, v[i]);
        proof {
            let t = v@.take(i + 1);
            assert(t.drop_last() =~= v@.take(i as int));
            assert(t.last() == v@[i as int]);
            if i == 0 {
                assert(base + "["@ + ids_inner_rep(v@.take(0)) + dec_int_rep(v@[0] as int) =~= base
                    + "["@ + ids_inner_rep(t));
            } else {
                assert(base + "["@ + ids_inner_rep(v@.take(i as int)) + ", "@ + dec_int_rep(
                    v@[i as int] as int,
                ) =~= base + "["@ + ids_inner_rep(t));
            }
        }
        i = i + 1;
    }
    out.append("]");
    proof {
        assert(v@.take(v@.len() as int) =~= v@);
        assert(base + "["@ + ids_inner_rep(v@) + "]"@ =~= base + ids_rep(v@));
    }
}

} // verus!
