//! Register lists for the multiple-register load/store families.
//!
//! An 8-bit bitmap names the registers r0-r7 that take part in a transfer.
//! The renderer walks bit positions 0-7 low-to-high and joins the names of
//! the present registers with commas. The spec side gives the exact index
//! sequence (`reg_indices`) and character sequence (`list_str`), a parser
//! over character sequences (`parse_list`), and the round-trip proof that
//! re-parsing a rendered list recovers exactly the set bits in ascending
//! order, each register named at most once.

use vstd::prelude::*;
use vstd::string::StringExecFns;
use crate::render::{dec_digit, dec_rep, reg_name, render_reg};

verus! {

broadcast use vstd::seq_lib::group_seq_properties;

/// The indices below `k` whose bits are set in `bitmap`, ascending.
pub open spec fn reg_indices_up_to(bitmap: u8, k: int) -> Seq<u8>
    decreases k,
{
    if k <= 0 {
        Seq::empty()
    } else if bitmap & (1u8 << (k - 1) as u8) != 0 {
        reg_indices_up_to(bitmap, k - 1).push((k - 1) as u8)
    } else {
        reg_indices_up_to(bitmap, k - 1)
    }
}

/// The register indices present in `bitmap`, ascending.
pub open spec fn reg_indices(bitmap: u8) -> Seq<u8> {
    reg_indices_up_to(bitmap, 8)
}

/// The rendered register list: register names joined by commas.
pub open spec fn list_str(s: Seq<u8>) -> Seq<char>
    decreases s.len(),
{
    if s.len() == 0 {
        Seq::empty()
    } else if s.len() == 1 {
        reg_name(s[0] as u16)
    } else {
        reg_name(s[0] as u16) + ","@ + list_str(s.skip(1))
    }
}

/// Whether `c` is a decimal digit character.
pub open spec fn is_dec_digit(c: char) -> bool {
    exists|d: nat| d < 10 && c == dec_digit(d)
}

/// The value of a decimal digit character.
pub open spec fn digit_val(c: char) -> u8 {
    if c == '0' {
        0
    } else if c == '1' {
        1
    } else if c == '2' {
        2
    } else if c == '3' {
        3
    } else if c == '4' {
        4
    } else if c == '5' {
        5
    } else if c == '6' {
        6
    } else if c == '7' {
        7
    } else if c == '8' {
        8
    } else {
        9
    }
}

/// Parses a rendered register list back into register indices: a possibly
/// empty, comma-separated sequence of `r` followed by one digit.
pub open spec fn parse_list(cs: Seq<char>) -> Option<Seq<u8>>
    decreases cs.len(),
{
    if cs.len() == 0 {
        Some(Seq::empty())
    } else if cs.len() >= 2 && cs[0] == 'r' && is_dec_digit(cs[1]) {
        if cs.len() == 2 {
            Some(seq![digit_val(cs[1])])
        } else if cs[2] == ',' {
            match parse_list(cs.skip(3)) {
                Some(rest) => if rest.len() > 0 {
                    Some(seq![digit_val(cs[1])] + rest)
                } else {
                    None
                },
                None => None,
            }
        } else {
            None
        }
    } else {
        None
    }
}

/// A digit character parses back to its value.
proof fn lemma_digit_round_trip(d: nat)
    requires
        d < 10,
    ensures
        is_dec_digit(dec_digit(d)),
        digit_val(dec_digit(d)) == d,
{
}

/// Shape of `reg_indices_up_to`: every element is an index below `k` whose
/// bit is set, every such index occurs, and the sequence is strictly
/// ascending.
proof fn lemma_reg_indices_up_to_props(bitmap: u8, k: int)
    requires
        0 <= k <= 8,
    ensures
        forall|i: int|
            0 <= i < reg_indices_up_to(bitmap, k).len() ==> reg_indices_up_to(bitmap, k)[i]
                < k,
        forall|i: int, j: int|
            0 <= i < j < reg_indices_up_to(bitmap, k).len() ==> reg_indices_up_to(
                bitmap,
                k,
            )[i] < reg_indices_up_to(bitmap, k)[j],
        forall|r: u8|
            #[trigger] reg_indices_up_to(bitmap, k).contains(r) <==> ((r as int) < k && bitmap
                & (1u8 << r) != 0),
    decreases k,
{
    if k > 0 {
        lemma_reg_indices_up_to_props(bitmap, k - 1);
        let pre = reg_indices_up_to(bitmap, k - 1);
        let cur = reg_indices_up_to(bitmap, k);
        let e = (k - 1) as u8;
        if bitmap & (1u8 << e) != 0 {
            assert(cur == pre.push(e));
            assert forall|i: int| 0 <= i < cur.len() implies cur[i] < k by {
                if i < pre.len() {
                    assert(cur[i] == pre[i]);
                }
            }
            assert forall|i: int, j: int| 0 <= i < j < cur.len() implies cur[i] < cur[j] by {
                if j < pre.len() {
                    assert(cur[i] == pre[i] && cur[j] == pre[j]);
                } else {
                    assert(cur[j] == e);
                    assert(cur[i] == pre[i] && pre[i] < k - 1);
                }
            }
        }
    }
}

/// The register list of a bitmap re-parses to exactly the set bits in
/// ascending order; strict ascent means each register is named at most
/// once.
proof fn lemma_parse_list_str(s: Seq<u8>)
    requires
        forall|i: int| 0 <= i < s.len() ==> s[i] < 10,
    ensures
        parse_list(list_str(s)) == Some(s),
    decreases s.len(),
{
    reveal_strlit("r");
    reveal_strlit(",");
    if s.len() == 0 {
        assert(list_str(s).len() == 0);
    } else {
        let d = s[0] as nat;
        lemma_digit_round_trip(d);
        let head = reg_name(s[0] as u16);
        assert(dec_rep(d) == seq![dec_digit(d)]);
        assert(head =~= seq!['r', dec_digit(d)]);
        if s.len() == 1 {
            let cs = list_str(s);
            assert(cs == head);
            assert(cs.len() == 2 && cs[0] == 'r' && cs[1] == dec_digit(d));
            assert(parse_list(cs) == Some(seq![digit_val(dec_digit(d))]));
            assert(seq![s[0]] =~= s);
        } else {
            lemma_parse_list_str(s.skip(1));
            let tail = list_str(s.skip(1));
            let cs = list_str(s);
            assert(cs == head + ","@ + tail);
            assert(cs.len() == 3 + tail.len());
            assert(cs[0] == 'r' && cs[1] == dec_digit(d) && cs[2] == ',');
            assert(cs.skip(3) =~= tail);
            assert(s.skip(1).len() > 0);
            assert(tail.len() > 0) by {
                if s.skip(1).len() == 1 {
                    assert(tail == reg_name(s.skip(1)[0] as u16));
                    assert(dec_rep(s.skip(1)[0] as nat).len() > 0);
                }
            }
            assert(parse_list(cs) == Some(seq![digit_val(cs[1])] + s.skip(1)));
            assert(seq![s[0]] + s.skip(1) =~= s);
        }
    }
}

/// Round trip on register-list rendering: for any 8-bit bitmap, the
/// rendered list re-parses to exactly the registers whose bits are set,
/// in ascending order, each named at most once.
pub proof fn lemma_register_list_round_trip(bitmap: u8)
    ensures
        parse_list(list_str(reg_indices(bitmap))) == Some(reg_indices(bitmap)),
        forall|i: int, j: int|
            0 <= i < j < reg_indices(bitmap).len() ==> reg_indices(bitmap)[i] < reg_indices(
                bitmap,
            )[j],
        forall|r: u8|
            #[trigger] reg_indices(bitmap).contains(r) <==> (r < 8 && bitmap & (1u8 << r)
                != 0),
{
    lemma_reg_indices_up_to_props(bitmap, 8);
    lemma_parse_list_str(reg_indices(bitmap));
}

/// Collects the register indices present in `bitmap`, ascending.
fn collect_regs(bitmap: u8) -> (v: Vec<u8>)
    ensures
        v@ == reg_indices(bitmap),
{
    let mut v: Vec<u8> = Vec::new();
    let mut i: u8 = 0;
    while i < 8
        invariant
            i <= 8,
            v@ == reg_indices_up_to(bitmap, i as int),
        decreases 8 - i,
    {
        if bitmap & (1u8 << i) != 0 {
            v.push(i);
        }
        i = i + 1;
    }
    v
}

/// Renders the names of `v[i..]`, joined by commas.
fn render_list_suffix(v: &Vec<u8>, i: usize) -> (r: String)
    requires
        i <= v.len(),
    ensures
        r@ == list_str(v@.skip(i as int)),
    decreases v.len() - i,
{
    if i == v.len() {
        String::new()
    } else {
        let head = render_reg(v[i] as u16);
        assert(v@.skip(i as int)[0] == v@[i as int]);
        if i + 1 == v.len() {
            head
        } else {
            let rest = render_list_suffix(v, i + 1);
            assert(v@.skip(i as int).skip(1) =~= v@.skip(i as int + 1));
            head.concat(",").concat(rest.as_str())
        }
    }
}

/// Renders the comma-separated register list of `bitmap`.
pub fn render_register_list(bitmap: u8) -> (r: String)
    ensures
        r@ == list_str(reg_indices(bitmap)),
{
    let v = collect_regs(bitmap);
    let r = render_list_suffix(&v, 0);
    proof {
        assert(v@.skip(0) =~= v@);
    }
    r
}

} // verus!
