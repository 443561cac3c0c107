//! Digit generation for the six supported constants, in any base from 2
//! to 36.
//!
//! Digits are produced strictly sequentially from position 0.  Position 0
//! holds the integer part (every supported constant has an integer part
//! below 4, rendered in the requested base), and the following positions
//! hold the fractional digits.
//!
//! Three constants have digit sequences simple enough to state exactly:
//! the Thue–Morse bits, Liouville's constant (a 1 exactly at the
//! factorial positions), and Champernowne's base-`b` constant (the
//! natural numbers written in base `b` and concatenated).  For those the
//! generator is proved to return exactly the modelled sequence.  The
//! series-based constants (pi, e, ln 2) are computed by fixed-point
//! evaluation of classical series; for those the contract states the
//! length and digit range.

use vstd::prelude::*;

use crate::fixedpoint::{fp_add, fp_div_small, fp_is_zero, fp_mul_small, fp_one_div, fp_sub, fp_zero};

verus! {

/// The largest number of digits a single request may ask for.
pub const MAX_DIGITS: usize = 100_000;

/// The constants a stream can be bound to.
#[derive(Clone, Copy, Debug, PartialEq, Eq, Structural)]
pub enum Constant {
    Pi,
    E,
    Ln2,
    Liouville,
    Champernowne,
    ThueMorse,
}

/// The display name of each constant.
pub open spec fn constant_name(c: Constant) -> Seq<char> {
    match c {
        Constant::Pi => "pi"@,
        Constant::E => "e"@,
        Constant::Ln2 => "ln2"@,
        Constant::Liouville => "Liouville"@,
        Constant::Champernowne => "Champernowne"@,
        Constant::ThueMorse => "Thue-Morse"@,
    }
}

/// The short base-10 reference string of each constant.
pub open spec fn constant_approx(c: Constant) -> Seq<char> {
    match c {
        Constant::Pi => "3.14159265358979..."@,
        Constant::E => "2.71828182845904..."@,
        Constant::Ln2 => "0.69314718055994..."@,
        Constant::Liouville => "0.110001000000000000000001..."@,
        Constant::Champernowne => "0.123456789101112..."@,
        Constant::ThueMorse => "0.0110100110010110... (binary)"@,
    }
}

impl Constant {
    /// Display name.
    pub fn name(&self) -> (r: &'static str)
        ensures
            r@ == constant_name(*self),
    {
        match self {
            Constant::Pi => "pi",
            Constant::E => "e",
            Constant::Ln2 => "ln2",
            Constant::Liouville => "Liouville",
            Constant::Champernowne => "Champernowne",
            Constant::ThueMorse => "Thue-Morse",
        }
    }

    /// A short base-10 reference value for display.
    pub fn approx(&self) -> (r: &'static str)
        ensures
            r@ == constant_approx(*self),
    {
        match self {
            Constant::Pi => "3.14159265358979...",
            Constant::E => "2.71828182845904...",
            Constant::Ln2 => "0.69314718055994...",
            Constant::Liouville => "0.110001000000000000000001...",
            Constant::Champernowne => "0.123456789101112...",
            Constant::ThueMorse => "0.0110100110010110... (binary)",
        }
    }

    /// Every supported constant, in menu order.
    pub fn all() -> (r: Vec<Constant>)
        ensures
            r@.len() == 6,
    {
        let mut v: Vec<Constant> = Vec::new();
        v.push(Constant::Pi);
        v.push(Constant::E);
        v.push(Constant::Ln2);
        v.push(Constant::Liouville);
        v.push(Constant::Champernowne);
        v.push(Constant::ThueMorse);
        v
    }

    /// The first `n` digits of this constant in `base`, integer part
    /// first.
    pub fn digits_in_base(&self, base: u8, n: usize) -> (r: Vec<u8>)
        requires
            2 <= base <= 36,
            n <= MAX_DIGITS,
        ensures
            r@.len() == n,
            forall|i: int| 0 <= i < n ==> r@[i] < base,
            modeled(*self) ==> forall|i: int|
                0 <= i < n ==> r@[i] == #[trigger] digit_model(*self, base, i as nat),
    {
        digits_in_base_impl(*self, base, n)
    }
}

/// True for the constants whose digit sequence the contracts state
/// exactly.
pub open spec fn modeled(c: Constant) -> bool {
    c == Constant::Liouville || c == Constant::Champernowne || c == Constant::ThueMorse
}

// ───────────────────────────────────────────────────────────────────────
// Spec models
// ───────────────────────────────────────────────────────────────────────

/// Parity of the number of one bits of `n`: the Thue–Morse sequence.
pub open spec fn tm_parity(n: nat) -> u8
    decreases n,
{
    if n == 0 {
        0
    } else {
        (((tm_parity(n / 2) + n % 2) as nat) % 2) as u8
    }
}

/// The Thue–Morse sequence only takes the values 0 and 1.
pub proof fn lemma_tm_parity_bound(n: nat)
    ensures
        tm_parity(n) < 2,
    decreases n,
{
    if n > 0 {
        lemma_tm_parity_bound(n / 2);
    }
}

/// `m!`.
pub open spec fn fact(m: nat) -> nat
    decreases m,
{
    if m == 0 {
        1
    } else {
        m * fact((m - 1) as nat)
    }
}

/// True when `i` is `m!` for some `m >= 1`.
pub open spec fn is_factorial(i: nat) -> bool {
    exists|m: nat| 1 <= m && #[trigger] fact(m) == i
}

/// The digits of `m` written in `base`, most significant first.
pub open spec fn rep_digits(base: nat, m: nat) -> Seq<u8>
    recommends
        2 <= base <= 36,
    decreases m,
    via rep_digits_dec
{
    if m < base || base <= 1 {
        seq![m as u8]
    } else {
        rep_digits(base, m / base).push((m % base) as u8)
    }
}

#[via_fn]
proof fn rep_digits_dec(base: nat, m: nat) {
    if !(m < base || base <= 1) {
        assert(m / base < m) by (nonlinear_arith)
            requires
                base >= 2,
                m >= base,
        ;
    }
}

/// The digit stream of Champernowne's base-`base` constant up to and
/// including the representation of `upto`: a leading 0 for the integer
/// part, then 1, 2, ... written in `base` and concatenated.
pub open spec fn champ_prefix(base: nat, upto: nat) -> Seq<u8>
    decreases upto,
{
    if upto == 0 {
        seq![0u8]
    } else {
        champ_prefix(base, (upto - 1) as nat) + rep_digits(base, upto)
    }
}

/// Digit `i` of the modelled constants: position 0 is the integer part.
pub open spec fn digit_model(c: Constant, base: u8, i: nat) -> u8 {
    match c {
        Constant::ThueMorse => if i == 0 {
            0
        } else {
            tm_parity((i - 1) as nat)
        },
        Constant::Liouville => if i >= 1 && is_factorial(i) {
            1
        } else {
            0
        },
        Constant::Champernowne => champ_prefix(base as nat, i + 1)[i as int],
        _ => 0,
    }
}

// ───────────────────────────────────────────────────────────────────────
// Model lemmas
// ───────────────────────────────────────────────────────────────────────

/// `m!` never decreases.
pub proof fn lemma_fact_monotone(a: nat, b: nat)
    requires
        a <= b,
    ensures
        fact(a) <= fact(b),
    decreases b,
{
    if a < b {
        lemma_fact_monotone(a, (b - 1) as nat);
        assert(fact(b) == b * fact((b - 1) as nat));
        assert(fact((b - 1) as nat) <= b * fact((b - 1) as nat)) by (nonlinear_arith)
            requires
                b >= 1,
                fact((b - 1) as nat) >= 0,
        ;
    }
}

/// `m!` is at least 1.
pub proof fn lemma_fact_pos(m: nat)
    ensures
        fact(m) >= 1,
    decreases m,
{
    if m > 0 {
        lemma_fact_pos((m - 1) as nat);
        assert(fact(m) == m * fact((m - 1) as nat));
        assert(m * fact((m - 1) as nat) >= 1) by (nonlinear_arith)
            requires
                m >= 1,
                fact((m - 1) as nat) >= 1,
        ;
    }
}

/// Champernowne prefixes only grow: an earlier prefix is a prefix of a
/// later one.
proof fn lemma_champ_prefix_extends(base: nat, u: nat, v: nat)
    requires
        u <= v,
    ensures
        champ_prefix(base, u).len() <= champ_prefix(base, v).len(),
        forall|i: int|
            0 <= i < champ_prefix(base, u).len() ==> champ_prefix(base, v)[i] == champ_prefix(
                base,
                u,
            )[i],
    decreases v,
{
    if u < v {
        lemma_champ_prefix_extends(base, u, (v - 1) as nat);
        assert(champ_prefix(base, v) == champ_prefix(base, (v - 1) as nat) + rep_digits(base, v));
    }
}

/// Each number contributes at least one digit, so the prefix through
/// `upto` is longer than `upto`.
proof fn lemma_champ_prefix_len(base: nat, upto: nat)
    ensures
        champ_prefix(base, upto).len() > upto,
    decreases upto,
{
    if upto > 0 {
        lemma_champ_prefix_len(base, (upto - 1) as nat);
        assert(rep_digits(base, upto).len() >= 1);
    }
}

/// Every digit of a base-`base` representation is below the base.
proof fn lemma_rep_digits_bound(base: nat, m: nat)
    requires
        base >= 2,
    ensures
        forall|i: int|
            0 <= i < rep_digits(base, m).len() ==> #[trigger] rep_digits(base, m)[i] < base,
    decreases m,
{
    if m >= base {
        assert(m / base < m) by (nonlinear_arith)
            requires
                base >= 2,
                m >= base,
        ;
        lemma_rep_digits_bound(base, m / base);
        assert(m % base < base) by (nonlinear_arith)
            requires
                base >= 2,
        ;
        assert(rep_digits(base, m) == rep_digits(base, m / base).push((m % base) as u8));
    }
}

/// Every digit of a Champernowne prefix is below the base.
proof fn lemma_champ_prefix_bound(base: nat, upto: nat)
    requires
        base >= 2,
    ensures
        forall|i: int|
            0 <= i < champ_prefix(base, upto).len() ==> #[trigger] champ_prefix(base, upto)[i]
                < base,
    decreases upto,
{
    if upto > 0 {
        lemma_champ_prefix_bound(base, (upto - 1) as nat);
        lemma_rep_digits_bound(base, upto);
        assert(champ_prefix(base, upto) == champ_prefix(base, (upto - 1) as nat) + rep_digits(
            base,
            upto,
        ));
    }
}

// ───────────────────────────────────────────────────────────────────────
// Exec generators for the modelled constants
// ───────────────────────────────────────────────────────────────────────

/// Digit `i` of the Thue–Morse stream.
fn tm_digit(i: usize) -> (r: u8)
    ensures
        r == digit_model(Constant::ThueMorse, 2, i as nat),
        r < 2,
{
    if i == 0 {
        return 0;
    }
    let mut n: usize = i - 1;
    let mut par: u8 = 0;
    proof {
        lemma_tm_parity_bound(n as nat);
    }
    while n > 0
        invariant
            par < 2,
            ((par + tm_parity(n as nat)) as nat % 2) as u8 == tm_parity((i - 1) as nat),
        decreases n,
    {
        proof {
            lemma_tm_parity_bound((n / 2) as nat);
            lemma_tm_parity_bound(n as nat);
        }
        par = (par + (n % 2) as u8) % 2;
        n = n / 2;
    }
    par
}

/// Digit `i` of the Liouville stream: 1 exactly at the factorial
/// positions.
fn liouville_digit(i: usize) -> (r: u8)
    ensures
        r == digit_model(Constant::Liouville, 10, i as nat),
        r < 2,
{
    if i == 0 {
        proof {
            if is_factorial(0) {
                let m = choose|m: nat| 1 <= m && #[trigger] fact(m) == 0;
                lemma_fact_pos(m);
            }
        }
        return 0;
    }
    let mut m: u64 = 1;
    let mut f: u64 = 1;
    proof {
        assert(fact(1) == 1 * fact(0));
    }
    while f < (i as u64)
        invariant
            1 <= m <= f,
            f == fact(m as nat),
            1 <= f <= i,
            i >= 1,
            forall|k: nat| 1 <= k < m ==> #[trigger] fact(k) < i,
        decreases i - f,
    {
        proof {
            assert((f as int) * ((m + 1) as int) < 0x1_0000_0000_0000_0000_0000_0000_0000_0000int)
                by (nonlinear_arith)
                requires
                    f < 0x1_0000_0000_0000_0000int,
                    m + 1 <= 0x1_0000_0000_0000_0000int,
            ;
        }
        let next: u128 = (f as u128) * ((m as u128) + 1);
        proof {
            assert(fact((m + 1) as nat) == (m + 1) * fact(m as nat));
            assert((m + 1) * fact(m as nat) == next) by (nonlinear_arith)
                requires
                    fact(m as nat) == f,
                    next == (f as int) * ((m + 1) as int),
            ;
            assert(next >= 2 * f && next >= m + 1) by (nonlinear_arith)
                requires
                    f >= 1,
                    m >= 1,
                    next == (f as int) * ((m + 1) as int),
            ;
            assert forall|k: nat| 1 <= k < m + 1 implies #[trigger] fact(k) < i by {
                if k < m {
                } else {
                    assert(k == m);
                }
            }
        }
        if next > (i as u128) {
            // No later factorial can equal i either, since factorials
            // only grow.
            proof {
                if is_factorial(i as nat) {
                    let w = choose|w: nat| 1 <= w && #[trigger] fact(w) == i;
                    if w <= m {
                        lemma_fact_monotone(w, m as nat);
                        assert(fact(w) <= fact(m as nat));
                    } else {
                        lemma_fact_monotone((m + 1) as nat, w);
                        assert(fact((m + 1) as nat) <= fact(w));
                    }
                    assert(false);
                }
            }
            return 0;
        }
        m = m + 1;
        f = next as u64;
    }
    if f == (i as u64) {
        proof {
            assert(1 <= m as nat && fact(m as nat) == i as nat);
            assert(is_factorial(i as nat));
        }
        1
    } else {
        proof {
            if is_factorial(i as nat) {
                let w = choose|w: nat| 1 <= w && #[trigger] fact(w) == i;
                if w < m {
                } else {
                    lemma_fact_monotone(m as nat, w);
                }
                assert(false);
            }
        }
        0
    }
}

/// The digits of `m` in `base`, most significant first.
fn number_digits(m: u64, base: u8) -> (r: Vec<u8>)
    requires
        2 <= base,
    ensures
        r@ == rep_digits(base as nat, m as nat),
    decreases m,
{
    if m < base as u64 {
        let mut v: Vec<u8> = Vec::new();
        v.push(m as u8);
        proof {
            assert(v@ =~= rep_digits(base as nat, m as nat));
        }
        v
    } else {
        proof {
            assert(m / (base as u64) < m) by (nonlinear_arith)
                requires
                    base >= 2,
                    m >= base,
            ;
        }
        let mut v = number_digits(m / (base as u64), base);
        v.push((m % (base as u64)) as u8);
        proof {
            assert(m as nat / base as nat == (m / (base as u64)) as nat);
            assert(v@ =~= rep_digits(base as nat, m as nat));
        }
        v
    }
}

/// The first `n` digits of Champernowne's base-`base` constant.
fn champernowne_digits(base: u8, n: usize) -> (r: Vec<u8>)
    requires
        2 <= base <= 36,
        n <= MAX_DIGITS,
    ensures
        r@.len() == n,
        forall|i: int| 0 <= i < n ==> r@[i] < base,
        forall|i: int|
            0 <= i < n ==> r@[i] == #[trigger] digit_model(Constant::Champernowne, base, i as nat),
{
    let mut out: Vec<u8> = Vec::new();
    out.push(0);
    let mut cur: u64 = 0;
    proof {
        assert(out@ =~= champ_prefix(base as nat, 0));
    }
    while out.len() < n
        invariant
            2 <= base <= 36,
            n <= MAX_DIGITS,
            cur <= n,
            out@ == champ_prefix(base as nat, cur as nat),
            out@.len() >= 1,
        decreases n - cur,
    {
        proof {
            lemma_champ_prefix_len(base as nat, cur as nat);
        }
        let mut d = number_digits(cur + 1, base);
        proof {
            assert(rep_digits(base as nat, (cur + 1) as nat).len() >= 1);
        }
        out.append(&mut d);
        cur = cur + 1;
        proof {
            assert(out@ =~= champ_prefix(base as nat, cur as nat));
        }
    }
    proof {
        lemma_champ_prefix_len(base as nat, cur as nat);
        lemma_champ_prefix_bound(base as nat, cur as nat);
    }
    let ghost full = out@;
    out.truncate(n);
    proof {
        assert forall|i: int| 0 <= i < n implies out@[i] == digit_model(
            Constant::Champernowne,
            base,
            i as nat,
        ) && out@[i] < base by {
            assert(out@[i] == full[i]);
            lemma_champ_prefix_len(base as nat, (i + 1) as nat);
            if i + 1 <= cur {
                lemma_champ_prefix_extends(base as nat, (i + 1) as nat, cur as nat);
            } else {
                lemma_champ_prefix_extends(base as nat, cur as nat, (i + 1) as nat);
            }
        }
    }
    out
}

// ───────────────────────────────────────────────────────────────────────
// Series-based generators (pi, e, ln 2)
// ───────────────────────────────────────────────────────────────────────

/// `atan(1/x)` as a fixed-point fraction with `len` limbs, from the
/// alternating series `1/x - 1/(3 x^3) + 1/(5 x^5) - ...`.
fn atan_inv(len: usize, x: u32) -> (r: Vec<u32>)
    requires
        2 <= x <= 1000,
        len <= 100_000,
    ensures
        r@.len() == len,
{
    let mut p = fp_one_div(len, x);
    let mut acc = fp_zero(len);
    proof {
        assert(4 <= x * x <= 1_000_000) by (nonlinear_arith)
            requires
                2 <= x <= 1000,
        ;
    }
    let xsq: u32 = x * x;
    let iters: usize = len * 16 + 4;
    let mut k: usize = 0;
    while k < iters
        invariant
            p@.len() == len,
            acc@.len() == len,
            k <= iters,
            iters == len * 16 + 4,
            len <= 100_000,
            xsq >= 4,
        decreases iters - k,
    {
        let mut term = p.clone();
        proof {
            assert(p@.len() == len);
        }
        fp_div_small(&mut term, (2 * k + 1) as u32);
        if k % 2 == 0 {
            fp_add(&mut acc, &term);
        } else {
            fp_sub(&mut acc, &term);
        }
        fp_div_small(&mut p, xsq);
        if fp_is_zero(&p) {
            return acc;
        }
        k += 1;
    }
    acc
}

/// The integer part and fraction of pi, via Machin's formula
/// `pi/4 = 4 atan(1/5) - atan(1/239)`.
fn pi_parts(len: usize) -> (r: (u32, Vec<u32>))
    requires
        len <= 100_000,
    ensures
        r.1@.len() == len,
        r.0 < 4,
{
    let mut a = atan_inv(len, 5);
    let _ = fp_mul_small(&mut a, 4);
    let b = atan_inv(len, 239);
    fp_sub(&mut a, &b);
    let c = fp_mul_small(&mut a, 4);
    (c, a)
}

/// The integer part and fraction of e, from `e - 2 = 1/2! + 1/3! + ...`.
fn e_parts(len: usize) -> (r: (u32, Vec<u32>))
    requires
        1 <= len <= 100_000,
    ensures
        r.1@.len() == len,
        r.0 < 4,
{
    let mut acc = fp_one_div(len, 2);
    let mut p = fp_one_div(len, 2);
    let iters: usize = len * 32 + 8;
    let mut j: usize = 0;
    while j < iters
        invariant
            acc@.len() == len,
            p@.len() == len,
            j <= iters,
            iters == len * 32 + 8,
            len <= 100_000,
        decreases iters - j,
    {
        fp_div_small(&mut p, (j + 3) as u32);
        if fp_is_zero(&p) {
            return (2, acc);
        }
        fp_add(&mut acc, &p);
        j += 1;
    }
    (2, acc)
}

/// The integer part and fraction of ln 2, from
/// `ln 2 = 1/(1*2) + 1/(2*4) + 1/(3*8) + ...`.
fn ln2_parts(len: usize) -> (r: (u32, Vec<u32>))
    requires
        1 <= len <= 100_000,
    ensures
        r.1@.len() == len,
        r.0 < 4,
{
    let mut acc = fp_one_div(len, 2);
    let mut p = fp_one_div(len, 2);
    let iters: usize = len * 32 + 8;
    let mut j: usize = 0;
    while j < iters
        invariant
            acc@.len() == len,
            p@.len() == len,
            j <= iters,
            iters == len * 32 + 8,
            len <= 100_000,
        decreases iters - j,
    {
        fp_div_small(&mut p, 2);
        if fp_is_zero(&p) {
            return (0, acc);
        }
        let mut term = p.clone();
        fp_div_small(&mut term, (j + 2) as u32);
        fp_add(&mut acc, &term);
        j += 1;
    }
    (0, acc)
}

/// The digits of a small integer part in `base`, most significant first.
fn int_part_digits(v: u32, base: u8) -> (r: Vec<u8>)
    requires
        2 <= base <= 36,
        v < 4,
    ensures
        1 <= r@.len() <= 2,
        forall|i: int| 0 <= i < r@.len() ==> r@[i] < base,
{
    let mut out: Vec<u8> = Vec::new();
    if v >= base as u32 {
        // Only base 2 or 3 can need two digits for a value below 4, and
        // the leading digit is then 1.
        proof {
            assert(v / (base as u32) < base && v % (base as u32) < base) by (nonlinear_arith)
                requires
                    2 <= base,
                    v < 4,
                    v >= base,
            ;
        }
        out.push((v / base as u32) as u8);
    } else {
        proof {
            assert(v % (base as u32) == v) by (nonlinear_arith)
                requires
                    v < base,
            ;
        }
    }
    out.push((v % base as u32) as u8);
    out
}

/// Extract `n` fractional digits in `base` from a fixed-point fraction.
fn frac_digits(frac: &mut Vec<u32>, base: u8, n: usize) -> (r: Vec<u8>)
    requires
        2 <= base <= 36,
    ensures
        r@.len() == n,
        forall|i: int| 0 <= i < n ==> r@[i] < base,
{
    let mut out: Vec<u8> = Vec::new();
    let mut i: usize = 0;
    while i < n
        invariant
            i <= n,
            out@.len() == i,
            frac@.len() == old(frac)@.len(),
            2 <= base <= 36,
            forall|j: int| 0 <= j < i ==> out@[j] < base,
        decreases n - i,
    {
        let d = fp_mul_small(frac, base as u32);
        out.push(d as u8);
        i += 1;
    }
    out
}

/// Digits of a series-based constant: the rendered integer part followed
/// by fractional digits, truncated to `n` in all.
fn series_digits(c: Constant, base: u8, n: usize) -> (r: Vec<u8>)
    requires
        2 <= base <= 36,
        n <= MAX_DIGITS,
        c == Constant::Pi || c == Constant::E || c == Constant::Ln2,
    ensures
        r@.len() == n,
        forall|i: int| 0 <= i < n ==> r@[i] < base,
{
    // Six bits per digit covers every base up to 36, plus guard bits
    // against accumulated truncation in the series evaluation.
    let len: usize = (n * 6 + 64) / 32 + 2;
    let (ip, mut frac) = match c {
        Constant::Pi => pi_parts(len),
        Constant::E => e_parts(len),
        _ => ln2_parts(len),
    };
    let mut out = int_part_digits(ip, base);
    out.truncate(n);
    let head = out.len();
    let ghost head_part = out@;
    let mut tail = frac_digits(&mut frac, base, n - head);
    let ghost tail_part = tail@;
    out.append(&mut tail);
    proof {
        assert forall|i: int| 0 <= i < n implies out@[i] < base by {
            if i < head_part.len() {
                assert(out@[i] == head_part[i]);
            } else {
                assert(out@[i] == tail_part[i - head_part.len()]);
            }
        }
    }
    out
}

/// Dispatch a digit request to the right generator.
fn digits_in_base_impl(c: Constant, base: u8, n: usize) -> (r: Vec<u8>)
    requires
        2 <= base <= 36,
        n <= MAX_DIGITS,
    ensures
        r@.len() == n,
        forall|i: int| 0 <= i < n ==> r@[i] < base,
        modeled(c) ==> forall|i: int|
            0 <= i < n ==> r@[i] == #[trigger] digit_model(c, base, i as nat),
{
    match c {
        Constant::Pi | Constant::E | Constant::Ln2 => {
            let r0 = series_digits(c, base, n);
            proof {
                assert(r0@.len() == n);
                assert(forall|i: int| 0 <= i < n ==> r0@[i] < base);
            }
            r0
        },
        Constant::Champernowne => champernowne_digits(base, n),
        Constant::Liouville => {
            let mut out: Vec<u8> = Vec::new();
            let mut i: usize = 0;
            while i < n
                invariant
                    i <= n,
                    out@.len() == i,
                    forall|j: int| 0 <= j < i ==> out@[j] < 2,
                    forall|j: int|
                        0 <= j < i ==> out@[j] == #[trigger] digit_model(
                            Constant::Liouville,
                            base,
                            j as nat,
                        ),
                decreases n - i,
            {
                let d = liouville_digit(i);
                proof {
                    assert(digit_model(Constant::Liouville, 10, i as nat) == digit_model(
                        Constant::Liouville,
                        base,
                        i as nat,
                    ));
                }
                out.push(d);
                i += 1;
            }
            out
        },
        Constant::ThueMorse => {
            let mut out: Vec<u8> = Vec::new();
            let mut i: usize = 0;
            while i < n
                invariant
                    i <= n,
                    out@.len() == i,
                    forall|j: int| 0 <= j < i ==> out@[j] < 2,
                    forall|j: int|
                        0 <= j < i ==> out@[j] == #[trigger] digit_model(
                            Constant::ThueMorse,
                            base,
                            j as nat,
                        ),
                decreases n - i,
            {
                let d = tm_digit(i);
                proof {
                    assert(digit_model(Constant::ThueMorse, 2, i as nat) == digit_model(
                        Constant::ThueMorse,
                        base,
                        i as nat,
                    ));
                }
                out.push(d);
                i += 1;
            }
            out
        },
    }
}

/// The character [`digit_char`] renders a digit as.
pub open spec fn digit_char_spec(d: u8) -> char {
    if d < 10 {
        (48 + d) as char
    } else {
        (87 + d) as char
    }
}

/// The display character for a digit: `0-9` then `a-z`.
pub fn digit_char(d: u8) -> (r: char)
    requires
        d < 36,
    ensures
        r == digit_char_spec(d),
{
    if d < 10 {
        (48 + d) as char
    } else {
        (87 + d) as char
    }
}

} // verus!
