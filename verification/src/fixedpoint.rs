//! Fixed-point fractions for digit generation.
//!
//! A fraction `x` with `0 <= x < 1` is stored as big-endian 32-bit limbs:
//! `x = limbs[0] / 2^32 + limbs[1] / 2^64 + ...`.  The series evaluations
//! in `digits` only need a handful of operations: division by a small
//! integer, multiplication by a small integer (returning the integer
//! carry), addition, subtraction, and a zero test.

use vstd::prelude::*;

verus! {

pub(crate) const LIMB_RADIX: u64 = 0x1_0000_0000;

/// A fraction equal to zero, with `len` limbs.
pub(crate) fn fp_zero(len: usize) -> (r: Vec<u32>)
    ensures
        r@.len() == len,
{
    let mut v: Vec<u32> = Vec::new();
    let mut i: usize = 0;
    while i < len
        invariant
            i <= len,
            v@.len() == i,
        decreases len - i,
    {
        v.push(0);
        i += 1;
    }
    v
}

/// The fraction `1 / d`, rounded down to `len` limbs.
pub(crate) fn fp_one_div(len: usize, d: u32) -> (r: Vec<u32>)
    requires
        d >= 2,
    ensures
        r@.len() == len,
{
    let mut v: Vec<u32> = Vec::new();
    let mut rem: u64 = 1;
    let mut i: usize = 0;
    while i < len
        invariant
            i <= len,
            v@.len() == i,
            rem < d,
            d >= 2,
        decreases len - i,
    {
        let x: u64 = rem * LIMB_RADIX;
        assert(x / (d as u64) < LIMB_RADIX && x % (d as u64) < d) by (nonlinear_arith)
            requires
                d >= 2,
                rem < d,
                x == rem * LIMB_RADIX,
        ;
        v.push((x / (d as u64)) as u32);
        rem = x % (d as u64);
        i += 1;
    }
    v
}

/// Divide in place by a small integer, rounding down.
pub(crate) fn fp_div_small(a: &mut Vec<u32>, d: u32)
    requires
        d >= 1,
    ensures
        final(a)@.len() == old(a)@.len(),
{
    let mut rem: u64 = 0;
    let mut i: usize = 0;
    let len = a.len();
    while i < len
        invariant
            i <= len,
            a@.len() == len,
            rem < d,
            d >= 1,
        decreases len - i,
    {
        let limb: u64 = a[i] as u64;
        let x: u64 = rem * LIMB_RADIX + limb;
        assert(x / (d as u64) < LIMB_RADIX && x % (d as u64) < d) by (nonlinear_arith)
            requires
                d >= 1,
                rem < d,
                limb < LIMB_RADIX,
                x == rem * LIMB_RADIX + limb,
        ;
        a[i] = (x / (d as u64)) as u32;
        rem = x % (d as u64);
        i += 1;
    }
}

/// Multiply in place by a small integer; the returned carry is the
/// integer part of the product, always less than `m`.
pub(crate) fn fp_mul_small(a: &mut Vec<u32>, m: u32) -> (carry: u32)
    requires
        m >= 1,
    ensures
        final(a)@.len() == old(a)@.len(),
        carry < m,
{
    let mut c: u64 = 0;
    let len = a.len();
    let mut i: usize = len;
    while i > 0
        invariant
            i <= len,
            a@.len() == len,
            c < m,
            m >= 1,
        decreases i,
    {
        i -= 1;
        let limb: u64 = a[i] as u64;
        assert(limb * (m as u64) + c < (m as u64) * LIMB_RADIX) by (nonlinear_arith)
            requires
                c < m,
                m >= 1,
                limb < LIMB_RADIX,
        ;
        let x: u64 = limb * (m as u64) + c;
        a[i] = (x % LIMB_RADIX) as u32;
        c = x / LIMB_RADIX;
        assert(c < m) by (nonlinear_arith)
            requires
                x < (m as u64) * LIMB_RADIX,
                c == x / LIMB_RADIX,
        ;
    }
    c as u32
}

/// Add `b` in place; a final carry out of the fraction is discarded.
pub(crate) fn fp_add(a: &mut Vec<u32>, b: &Vec<u32>)
    requires
        old(a)@.len() == b@.len(),
    ensures
        final(a)@.len() == old(a)@.len(),
{
    let mut c: u64 = 0;
    let len = a.len();
    let mut i: usize = len;
    while i > 0
        invariant
            i <= len,
            a@.len() == len,
            b@.len() == len,
            c <= 1,
        decreases i,
    {
        i -= 1;
        let x: u64 = (a[i] as u64) + (b[i] as u64) + c;
        a[i] = (x % LIMB_RADIX) as u32;
        c = x / LIMB_RADIX;
    }
}

/// Subtract `b` in place; a final borrow out of the fraction is discarded.
pub(crate) fn fp_sub(a: &mut Vec<u32>, b: &Vec<u32>)
    requires
        old(a)@.len() == b@.len(),
    ensures
        final(a)@.len() == old(a)@.len(),
{
    let mut borrow: u64 = 0;
    let len = a.len();
    let mut i: usize = len;
    while i > 0
        invariant
            i <= len,
            a@.len() == len,
            b@.len() == len,
            borrow <= 1,
        decreases i,
    {
        i -= 1;
        let x: u64 = LIMB_RADIX + (a[i] as u64) - (b[i] as u64) - borrow;
        a[i] = (x % LIMB_RADIX) as u32;
        borrow = if x < LIMB_RADIX { 1 } else { 0 };
    }
}

/// True when every limb is zero.
pub(crate) fn fp_is_zero(a: &Vec<u32>) -> (r: bool) {
    let mut i: usize = 0;
    let len = a.len();
    while i < len
        invariant
            i <= len,
            a@.len() == len,
        decreases len - i,
    {
        if a[i] != 0 {
            return false;
        }
        i += 1;
    }
    true
}

} // verus!
