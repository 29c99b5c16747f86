//! 256-bit values and their canonical reduction.
//!
//! Nullifier hashes, commitments and Merkle roots travel in a raw
//! ("mr"-form) encoding and are compared and stored only in their reduced
//! canonical form: the value taken modulo the scalar-field order of the
//! proof system's curve. The two forms must never be mixed; [`RawU256`]
//! keeps the raw value and [`RawU256::reduce`] produces the canonical one.

use vstd::prelude::*;
use vstd::arithmetic::div_mod::{lemma_small_mod, lemma_mod_sub_multiples_vanish, lemma_mod_multiples_vanish, lemma_div_multiples_vanish_fancy};
use crate::U256;
use crate::u256_val;

verus! {

/// The scalar-field order of the proof system's curve.
pub open spec fn field_order() -> int {
    21888242871839275222246405745257275088548364400416034343698204186575808495617int
}

/// The field order, as little-endian 64-bit limbs (lowest limb first).
pub const FIELD_ORDER_LIMB_0: u64 = 0x43E1F593F0000001;
pub const FIELD_ORDER_LIMB_1: u64 = 0x2833E84879B97091;
pub const FIELD_ORDER_LIMB_2: u64 = 0xB85045B68181585D;
pub const FIELD_ORDER_LIMB_3: u64 = 0x30644E72E131A029;

/// The canonical reduced form of a raw 256-bit value.
pub open spec fn spec_reduce(a: U256) -> int {
    u256_val(a) % field_order()
}

proof fn lemma_u256_val_bounds(a: U256)
    ensures
        0 <= u256_val(a),
        u256_val(a) < 0x1_0000_0000_0000_0000_0000_0000_0000_0000_0000_0000_0000_0000_0000_0000_0000_0000int,
{
}

/// Whether `a` denotes a value no smaller than `b`, decided from the most
/// significant limb down.
fn u256_ge(a: &U256, b: &U256) -> (r: bool)
    ensures
        r <==> u256_val(*a) >= u256_val(*b),
{
    if a[3] != b[3] {
        a[3] > b[3]
    } else if a[2] != b[2] {
        a[2] > b[2]
    } else if a[1] != b[1] {
        a[1] > b[1]
    } else {
        a[0] >= b[0]
    }
}

/// One limb of a borrowing subtraction.
fn sub_limb(a: u64, b: u64, borrow_in: bool) -> (r: (u64, bool))
    ensures
        r.0 as int == a - b - (if borrow_in { 1int } else { 0int })
            + (if r.1 { 0x1_0000_0000_0000_0000int } else { 0int }),
{
    let bi: u64 = if borrow_in { 1 } else { 0 };
    let av: u128 = a as u128;
    let sv: u128 = b as u128 + bi as u128;
    if av >= sv {
        ((av - sv) as u64, false)
    } else {
        ((av + 0x1_0000_0000_0000_0000u128 - sv) as u64, true)
    }
}

/// Subtraction of 256-bit values; the minuend must be the larger.
fn u256_sub(a: &U256, b: &U256) -> (r: U256)
    requires
        u256_val(*a) >= u256_val(*b),
    ensures
        u256_val(r) == u256_val(*a) - u256_val(*b),
{
    let (d0, c0) = sub_limb(a[0], b[0], false);
    let (d1, c1) = sub_limb(a[1], b[1], c0);
    let (d2, c2) = sub_limb(a[2], b[2], c1);
    let (d3, c3) = sub_limb(a[3], b[3], c2);
    let r: U256 = [d0, d1, d2, d3];
    proof {
        lemma_u256_val_bounds(r);
        lemma_u256_val_bounds(*a);
        lemma_u256_val_bounds(*b);
        assert(u256_val(r) == u256_val(*a) - u256_val(*b)
            + (if c3 { 0x1_0000_0000_0000_0000_0000_0000_0000_0000_0000_0000_0000_0000_0000_0000_0000_0000int } else { 0int }));
    }
    r
}

/// Reduces a raw 256-bit value modulo the field order.
pub fn u256_mod_field_order(a: &U256) -> (r: U256)
    ensures
        u256_val(r) == spec_reduce(*a),
        r == spec_reduced(*a),
{
    let m: U256 = [FIELD_ORDER_LIMB_0, FIELD_ORDER_LIMB_1, FIELD_ORDER_LIMB_2, FIELD_ORDER_LIMB_3];
    proof {
        assert(u256_val(m) == field_order());
    }
    let mut x: U256 = *a;
    while u256_ge(&x, &m)
        invariant
            u256_val(m) == field_order(),
            u256_val(x) % field_order() == u256_val(*a) % field_order(),
            u256_val(x) >= 0,
        decreases u256_val(x),
    {
        proof {
            lemma_mod_sub_multiples_vanish(u256_val(x), field_order());
        }
        x = u256_sub(&x, &m);
    }
    proof {
        lemma_u256_val_bounds(x);
        lemma_small_mod(u256_val(x) as nat, field_order() as nat);
        lemma_limbs_of_val(x);
    }
    x
}

/// The unique limb decomposition of a 256-bit value.
pub open spec fn limbs_of_val(v: int) -> U256 {
    [
        (v % 0x1_0000_0000_0000_0000) as u64,
        ((v / 0x1_0000_0000_0000_0000) % 0x1_0000_0000_0000_0000) as u64,
        ((v / 0x1_0000_0000_0000_0000 / 0x1_0000_0000_0000_0000) % 0x1_0000_0000_0000_0000) as u64,
        ((v / 0x1_0000_0000_0000_0000 / 0x1_0000_0000_0000_0000
            / 0x1_0000_0000_0000_0000) % 0x1_0000_0000_0000_0000) as u64,
    ]
}

/// The canonical reduced limbs of a raw 256-bit value.
pub open spec fn spec_reduced(a: U256) -> U256 {
    limbs_of_val(spec_reduce(a))
}

/// Limb decomposition inverts valuation: every 256-bit value is the
/// decomposition of what it denotes.
pub proof fn lemma_limbs_of_val(a: U256)
    ensures
        limbs_of_val(u256_val(a)) == a,
{
    let p = 0x1_0000_0000_0000_0000int;
    let v = u256_val(a);
    let t1 = a[1] + a[2] * p + a[3] * p * p;
    assert(v == p * t1 + a[0]) by (nonlinear_arith)
        requires
            v == a[0] + a[1] * p + a[2] * (p * p) + a[3] * (p * (p * p)),
            t1 == a[1] + a[2] * p + a[3] * p * p,
    ;
    lemma_mod_multiples_vanish(t1, a[0] as int, p);
    lemma_small_mod(a[0] as nat, p as nat);
    lemma_div_multiples_vanish_fancy(t1, a[0] as int, p);
    let t2 = a[2] + a[3] * p;
    assert(t1 == p * t2 + a[1]) by (nonlinear_arith)
        requires
            t1 == a[1] + a[2] * p + a[3] * p * p,
            t2 == a[2] + a[3] * p,
    ;
    lemma_mod_multiples_vanish(t2, a[1] as int, p);
    lemma_small_mod(a[1] as nat, p as nat);
    lemma_div_multiples_vanish_fancy(t2, a[1] as int, p);
    let t3 = a[3] as int;
    assert(t2 == p * t3 + a[2]) by (nonlinear_arith)
        requires
            t2 == a[2] + a[3] * p,
            t3 == a[3] as int,
    ;
    lemma_mod_multiples_vanish(t3, a[2] as int, p);
    lemma_small_mod(a[2] as nat, p as nat);
    lemma_div_multiples_vanish_fancy(t3, a[2] as int, p);
    lemma_small_mod(a[3] as nat, p as nat);
    assert(limbs_of_val(v) =~= a);
}

/// The little-endian byte string a [`U256`] denotes.
pub open spec fn u256_le_bytes(v: U256) -> Seq<u8> {
    vstd::bytes::spec_u64_to_le_bytes(v[0]) + vstd::bytes::spec_u64_to_le_bytes(v[1])
        + vstd::bytes::spec_u64_to_le_bytes(v[2]) + vstd::bytes::spec_u64_to_le_bytes(v[3])
}

/// The limbs a little-endian 32-byte string denotes.
pub open spec fn u256_from_bytes(s: Seq<u8>) -> U256
    recommends
        s.len() == 32,
{
    [
        vstd::bytes::spec_u64_from_le_bytes(s.subrange(0, 8)),
        vstd::bytes::spec_u64_from_le_bytes(s.subrange(8, 16)),
        vstd::bytes::spec_u64_from_le_bytes(s.subrange(16, 24)),
        vstd::bytes::spec_u64_from_le_bytes(s.subrange(24, 32)),
    ]
}

/// Serializes a 256-bit value as 32 little-endian bytes.
pub fn u256_to_le_bytes(v: &U256) -> (r: Vec<u8>)
    ensures
        r@ == u256_le_bytes(*v),
        r@.len() == 32,
{
    let mut out: Vec<u8> = vstd::bytes::u64_to_le_bytes(v[0]);
    let mut b1: Vec<u8> = vstd::bytes::u64_to_le_bytes(v[1]);
    let mut b2: Vec<u8> = vstd::bytes::u64_to_le_bytes(v[2]);
    let mut b3: Vec<u8> = vstd::bytes::u64_to_le_bytes(v[3]);
    out.append(&mut b1);
    out.append(&mut b2);
    out.append(&mut b3);
    out
}

/// Reads a 256-bit value off 32 little-endian bytes.
pub fn u256_from_le_bytes(b: &Vec<u8>) -> (r: U256)
    requires
        b@.len() == 32,
    ensures
        r == u256_from_bytes(b@),
{
    let s: &[u8] = b.as_slice();
    let l0: u64 = vstd::bytes::u64_from_le_bytes(vstd::slice::slice_subrange(s, 0, 8));
    let l1: u64 = vstd::bytes::u64_from_le_bytes(vstd::slice::slice_subrange(s, 8, 16));
    let l2: u64 = vstd::bytes::u64_from_le_bytes(vstd::slice::slice_subrange(s, 16, 24));
    let l3: u64 = vstd::bytes::u64_from_le_bytes(vstd::slice::slice_subrange(s, 24, 32));
    let r: U256 = [l0, l1, l2, l3];
    proof {
        assert(r =~= u256_from_bytes(b@));
    }
    r
}

/// A 256-bit value in its raw ("mr") encoding.
///
/// The raw bytes are what the statement carries on the wire; arithmetic
/// comparisons against stored state happen only on [`RawU256::reduce`]'s
/// result.
#[derive(Clone, Copy, PartialEq, Eq, Debug)]
pub struct RawU256(pub U256);

impl RawU256 {
    /// The raw value this wraps.
    pub open spec fn view_raw(self) -> U256 {
        self.0
    }

    pub fn new(r: U256) -> (s: Self)
        ensures
            s.view_raw() == r,
    {
        RawU256(r)
    }

    /// Performs the modular reduction into canonical form.
    pub fn reduce(&self) -> (r: U256)
        ensures
            u256_val(r) == spec_reduce(self.view_raw()),
            r == spec_reduced(self.view_raw()),
    {
        u256_mod_field_order(&self.0)
    }

    /// Hands back the raw value, skipping the reduction.
    pub fn skip_mr(&self) -> (r: U256)
        ensures
            r == self.view_raw(),
    {
        self.0
    }
}

} // verus!
