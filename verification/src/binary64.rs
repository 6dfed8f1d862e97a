use vstd::prelude::*;
use vstd::arithmetic::power2::{pow2, lemma_pow2_adds, lemma_pow2_pos, lemma_pow2_unfold, lemma_pow2_strictly_increases, lemma2_to64, lemma2_to64_rest};

verus! {

// ── Round-to-nearest in binary64 ────────────────────────────────────────────
//
// A count divided by 1000 and written with one decimal goes through IEEE 754
// binary64 arithmetic: the count is converted to the nearest double, divided
// by 1000 with the quotient rounded to the nearest double, and the double is
// written rounded to the nearest tenth. These spec functions state each of
// those roundings over integers and fractions; `thousandths_tenths` computes
// the result exactly with integer arithmetic.

/// `a / b` rounded to the nearest integer, halves to the even neighbour.
pub open spec fn rne(a: nat, b: nat) -> nat {
    let f = a / b;
    let r = a % b;
    if 2 * r < b {
        f
    } else if 2 * r > b {
        f + 1
    } else if f % 2 == 0 {
        f
    } else {
        f + 1
    }
}

/// The numerator factor for exponent `e`: `2^e` when `e >= 0`, else 1.
pub open spec fn up(e: int) -> nat {
    if e >= 0 { pow2(e as nat) } else { 1 }
}

/// The denominator factor for exponent `e`: 1 when `e >= 0`, else `2^-e`.
pub open spec fn dn(e: int) -> nat {
    if e >= 0 { 1 } else { pow2((-e) as nat) }
}

/// `a / b` scaled by `2^-e` lies in `[2^52, 2^53)`: the doubles near `a / b`
/// are the multiples of `2^(e)` with 53-bit significands.
pub open spec fn in_binade(a: nat, b: nat, e: int) -> bool {
    &&& pow2(52) * (b * up(e)) <= a * dn(e)
    &&& a * dn(e) < pow2(53) * (b * up(e))
}

/// The exponent of the binade holding `a / b`.
pub open spec fn binade(a: nat, b: nat) -> int {
    choose|e: int| in_binade(a, b, e)
}

/// The double nearest to `a / b` (halves to the even significand), as a
/// fraction `(numerator, denominator)`, for `a / b` in the range of normal
/// doubles.
pub open spec fn nearest_double(a: nat, b: nat) -> (nat, nat) {
    let e = binade(a, b);
    (rne(a * dn(e), b * up(e)) * up(e), dn(e))
}

/// The tenths that `n` gives when converted to a double, divided by 1000 in
/// double arithmetic, and rounded to one decimal (halves to even).
pub open spec fn thousandths_tenths_spec(n: nat) -> nat {
    if n == 0 {
        0
    } else {
        let x = nearest_double(n, 1);
        let y = nearest_double(x.0, x.1 * 1000);
        rne(y.0 * 10, y.1)
    }
}

// ── Lemmas ─────────────────────────────────────────────────────────────────

proof fn lemma_up_dn_pos(e: int)
    ensures
        up(e) > 0,
        dn(e) > 0,
{
    if e >= 0 {
        lemma_pow2_pos(e as nat);
    } else {
        lemma_pow2_pos((-e) as nat);
    }
}

/// Moving the exponent by one doubles the ratio `up / dn`.
proof fn lemma_up_dn_step(e: int)
    ensures
        up(e) * dn(e - 1) == 2 * (up(e - 1) * dn(e)),
{
    if e >= 1 {
        lemma_pow2_unfold(e as nat);
        assert(((e as nat) - 1) as nat == (e - 1) as nat);
        assert(up(e) == 2 * up(e - 1));
        assert(dn(e) == 1 && dn(e - 1) == 1);
    } else if e == 0 {
        lemma2_to64();
        assert(up(e) == 1 && dn(e) == 1 && up(e - 1) == 1 && dn(e - 1) == 2);
    } else {
        let k = (-(e - 1)) as nat;
        lemma_pow2_unfold(k);
        assert((k - 1) as nat == (-e) as nat);
        assert(dn(e - 1) == 2 * dn(e));
        assert(up(e) == 1 && up(e - 1) == 1);
    }
}

/// `up(e2) * dn(e1) == 2^(e2 - e1) * up(e1) * dn(e2)` for `e1 <= e2`.
proof fn lemma_up_dn_ratio(e1: int, e2: int)
    requires
        e1 <= e2,
    ensures
        up(e2) * dn(e1) == pow2((e2 - e1) as nat) * (up(e1) * dn(e2)),
{
    let d = (e2 - e1) as nat;
    lemma_up_dn_pos(e1);
    lemma_up_dn_pos(e2);
    if e1 >= 0 {
        lemma_pow2_adds(d, e1 as nat);
        assert(e2 as nat == d + e1 as nat);
        assert(up(e2) == pow2(d) * up(e1));
        assert(dn(e1) == 1 && dn(e2) == 1);
    } else if e2 >= 0 {
        lemma_pow2_adds(e2 as nat, (-e1) as nat);
        assert(d == e2 as nat + (-e1) as nat);
        assert(up(e2) * dn(e1) == pow2(d));
        assert(up(e1) == 1 && dn(e2) == 1);
    } else {
        lemma_pow2_adds(d, (-e2) as nat);
        assert((-e1) as nat == d + (-e2) as nat);
        assert(dn(e1) == pow2(d) * dn(e2));
        assert(up(e1) == 1 && up(e2) == 1);
    }
}

/// At most one binade holds a given ratio.
proof fn lemma_binade_unique(a: nat, b: nat, e1: int, e2: int)
    requires
        b > 0,
        in_binade(a, b, e1),
        in_binade(a, b, e2),
    ensures
        e1 == e2,
{
    if e1 != e2 {
        let (lo, hi) = if e1 < e2 { (e1, e2) } else { (e2, e1) };
        lemma_up_dn_ratio(lo, hi);
        lemma_up_dn_pos(lo);
        lemma_up_dn_pos(hi);
        let k = pow2((hi - lo) as nat);
        lemma_pow2_strictly_increases(0, (hi - lo) as nat);
        lemma2_to64();
        lemma_pow2_unfold(53);
        let ul = up(lo);
        let dl = dn(lo);
        let uh = up(hi);
        let dh = dn(hi);
        let p = pow2(52);
        assert(false) by (nonlinear_arith)
            requires
                b > 0, ul > 0, dl > 0, uh > 0, dh > 0, k >= 2, p > 0,
                uh * dl == k * (ul * dh),
                p * (b * uh) <= a * dh,
                a * dl < 2 * p * (b * ul),
        {
            assert(p * (b * uh) * dl <= a * dh * dl);
            assert(a * dl * dh < 2 * p * (b * ul) * dh);
            assert(p * b * (uh * dl) == p * b * k * (ul * dh));
            assert(p * b * k * (ul * dh) >= 2 * p * b * (ul * dh));
        }
    }
}

/// A binade that holds the ratio is the one `binade` picks.
proof fn lemma_binade_is(a: nat, b: nat, e: int)
    requires
        b > 0,
        in_binade(a, b, e),
    ensures
        binade(a, b) == e,
{
    let c = binade(a, b);
    assert(in_binade(a, b, c));
    lemma_binade_unique(a, b, c, e);
}

/// `rne(a, b)` is at least `c` when `c * b <= a`.
proof fn lemma_rne_at_least(a: nat, b: nat, c: nat)
    requires
        b > 0,
        c * b <= a,
    ensures
        c <= rne(a, b),
{
    let f = a / b;
    assert(c <= f) by (nonlinear_arith)
        requires b > 0, c * b <= a, f == a / b,
    {
        if c > f {
            assert(a == f * b + a % b);
            assert(a % b < b);
            assert((f + 1) * b <= c * b);
        }
    }
}

/// `rne(a, b)` is at most `c` when `a < c * b`.
proof fn lemma_rne_at_most(a: nat, b: nat, c: nat)
    requires
        b > 0,
        a < c * b,
    ensures
        rne(a, b) <= c,
{
    let f = a / b;
    assert(f < c) by (nonlinear_arith)
        requires b > 0, a < c * b, f == a / b,
    {
        if f >= c {
            assert(a == f * b + a % b);
            assert(f * b >= c * b);
        }
    }
}

// ── Computation ────────────────────────────────────────────────────────────

/// `2^k`.
fn pow2_u128(k: u32) -> (r: u128)
    requires
        k <= 120,
    ensures
        r == pow2(k as nat),
{
    let mut r: u128 = 1;
    let mut i: u32 = 0;
    proof { lemma2_to64(); }
    while i < k
        invariant
            i <= k <= 120,
            r == pow2(i as nat),
        decreases k - i,
    {
        proof {
            lemma_pow2_unfold((i + 1) as nat);
            lemma_pow2_strictly_increases((i + 1) as nat, 121);
            lemma_u128_room();
        }
        r = r * 2;
        i = i + 1;
    }
    r
}

proof fn lemma_u128_room()
    ensures
        pow2(121) <= u128::MAX,
{
    lemma2_to64();
    lemma_pow2_adds(64, 57);
    lemma_pow2_adds(32, 25);
    lemma_pow2_adds(25, 0);
    assert(pow2(25) == 0x2000000);
    assert(pow2(57) == pow2(32) * pow2(25));
    assert(pow2(121) == pow2(64) * pow2(57));
}

/// `rne(a, b)`.
fn rne_u128(a: u128, b: u128) -> (r: u128)
    requires
        b > 0,
        a < u128::MAX,
    ensures
        r == rne(a as nat, b as nat),
{
    let f = a / b;
    let rem = a % b;
    if rem < b - rem {
        f
    } else if rem > b - rem {
        assert(f < u128::MAX) by (nonlinear_arith)
            requires b > 0, f == a / b, a < u128::MAX,
        {}
        f + 1
    } else if f % 2 == 0 {
        f
    } else {
        assert(f < u128::MAX) by (nonlinear_arith)
            requires b > 0, f == a / b, a < u128::MAX,
        {}
        f + 1
    }
}

/// The number of binary digits of `n`.
fn bit_length(n: u64) -> (b: u32)
    requires
        n > 0,
    ensures
        1 <= b <= 64,
        pow2((b - 1) as nat) <= n,
        n < pow2(b as nat),
{
    let mut b: u32 = 0;
    let mut p: u128 = 1;
    proof { lemma2_to64(); }
    while p <= n as u128
        invariant
            b <= 64,
            p == pow2(b as nat),
            b == 0 || pow2((b - 1) as nat) <= n,
        decreases 64 - b,
    {
        proof {
            if b >= 64 {
                lemma2_to64();
                if b > 64 { lemma_pow2_strictly_increases(64, b as nat); }
                assert(false);
            }
            lemma_pow2_unfold((b + 1) as nat);
        }
        p = p * 2;
        b = b + 1;
    }
    b
}

/// The double nearest to `n`, as a fraction, with the bounds the division
/// by 1000 needs: the denominator is a power of two up to `2^52`, and the
/// value lies in `[1, 2^64]`.
fn nearest_double_of_count(n: u64) -> (r: (u128, u128))
    requires
        n > 0,
    ensures
        (r.0 as nat, r.1 as nat) == nearest_double(n as nat, 1),
        1 <= r.1 <= pow2(52),
        r.1 <= r.0,
        r.0 <= pow2(64),
{
    let b = bit_length(n);
    let ghost e: int = b - 53;
    let up1: u128;
    let dn1: u128;
    if b >= 53 {
        up1 = pow2_u128(b - 53);
        dn1 = 1;
    } else {
        up1 = 1;
        dn1 = pow2_u128(53 - b);
    }
    assert(up1 == up(e) && dn1 == dn(e));
    proof {
        lemma2_to64();
        lemma_up_dn_pos(e);
        if b >= 53 {
            lemma_pow2_adds(52, (b - 53) as nat);
            lemma_pow2_adds(53, (b - 53) as nat);
            assert((52 + (b - 53)) as nat == (b - 1) as nat);
            assert(in_binade(n as nat, 1, e));
        } else {
            lemma_pow2_adds((b - 1) as nat, (53 - b) as nat);
            lemma_pow2_adds(b as nat, (53 - b) as nat);
            let lo = pow2((b - 1) as nat);
            let hi = pow2(b as nat);
            let d = pow2((53 - b) as nat);
            assert(lo * d <= (n as nat) * d && (n as nat) * d < hi * d) by (nonlinear_arith)
                requires lo <= n, n < hi, d > 0,
            {}
            assert(((b - 1) as nat + (53 - b) as nat) as nat == 52);
            assert((b as nat + (53 - b) as nat) as nat == 53);
            assert(lo * d == pow2(52));
            assert(hi * d == pow2(53));
            assert(up(e) == 1 && dn(e) == d);
            let u = up(e);
            let p52 = pow2(52);
            let p53 = pow2(53);
            assert(p52 * (1 * u) == p52 && p53 * (1 * u) == p53) by (nonlinear_arith)
                requires u == 1,
            {}
            assert((n as nat) * dn(e) == (n as nat) * d);
            assert(in_binade(n as nat, 1, e));
        }
        lemma_binade_is(n as nat, 1, e);
        lemma2_to64_rest();
        assert((n as nat) * (dn1 as nat) < pow2(64));
    }
    let num = (n as u128) * dn1;
    let q = rne_u128(num, up1);
    proof {
        lemma_rne_at_least(num as nat, up1 as nat, pow2(52));
        lemma_rne_at_most(num as nat, up1 as nat, pow2(53));
    }
    proof {
        lemma2_to64();
        lemma2_to64_rest();
        if b >= 53 {
            lemma_pow2_adds(53, (b - 53) as nat);
            if b < 64 { lemma_pow2_strictly_increases(b as nat, 64); }
            assert(pow2(53) * up1 <= pow2(64));
        } else {
            if b > 1 { lemma_pow2_strictly_increases((53 - b) as nat, 52); }
            assert(dn1 <= pow2(52));
        }
        let p53 = pow2(53);
        assert(q * up1 <= p53 * up1) by (nonlinear_arith)
            requires q <= p53, up1 >= 1,
        {}
        let p52 = pow2(52);
        assert(p52 * up1 <= q * up1) by (nonlinear_arith)
            requires p52 <= q, up1 >= 1,
        {}
    }
    let xa = q * up1;
    (xa, dn1)
}

/// `n / 1000` as double arithmetic writes it with one decimal, in tenths:
/// `n` converted to the nearest double, divided by 1000 with the quotient
/// rounded to the nearest double, then rounded to the nearest tenth.
pub fn thousandths_tenths(n: u64) -> (t: u64)
    ensures
        t as nat == thousandths_tenths_spec(n as nat),
{
    if n == 0 {
        return 0;
    }
    let (a, xb) = nearest_double_of_count(n);
    proof {
        lemma2_to64();
        lemma2_to64_rest();
        lemma_pow2_unfold(53);
    }
    let b = xb * 1000;
    let p52 = pow2_u128(52);
    let mut e: i32 = 3;
    let mut upv: u128 = 8;
    let mut dnv: u128 = 1;
    let mut rhs: u128 = a;
    proof {
        assert(b * 8 <= 0x10000000000000 * 8000) by (nonlinear_arith)
            requires b <= 0x10000000000000 * 1000,
        {}
        let p = pow2(52);
        assert(a * 1 < 2 * p * (b * 8)) by (nonlinear_arith)
            requires a <= pow2(64), pow2(64) == 0x10000000000000000, p == 0x10000000000000, b >= 1000,
        {}
    }
    let mut lhs: u128 = p52 * (b * 8);
    while rhs < lhs
        invariant
            -62 <= e <= 3,
            upv == up(e as int),
            dnv == dn(e as int),
            1 <= upv <= 8,
            dnv >= 1,
            rhs == a * dnv,
            lhs == p52 * (b * upv),
            lhs <= 0x10000000000000 * (0x10000000000000 * 8000),
            a * dnv < pow2(53) * (b * upv),
            p52 == pow2(52),
            pow2(53) == 2 * pow2(52),
            pow2(52) == 0x10000000000000,
            1 <= xb <= pow2(52),
            b == xb * 1000,
            xb <= a,
        decreases e + 62,
    {
        let ghost e0: int = e as int;
        let ghost up0 = upv;
        let ghost dn0 = dnv;
        proof {
            lemma_up_dn_step(e0);
            lemma_up_dn_pos(e0 - 1);
            if e0 == -62 {
                lemma_pow2_adds(52, 10);
                lemma2_to64();
                assert(dn0 == pow2(62));
                assert(pow2(62) == pow2(52) * 1024);
                let p = pow2(52);
                assert(false) by (nonlinear_arith)
                    requires
                        a * (p * 1024) < p * (xb * 1000 * 1),
                        xb <= a, p > 0, xb >= 1,
                {}
            }
            if e0 >= 1 {
                lemma_pow2_strictly_increases(0, e0 as nat);
                lemma2_to64();
            }
            assert(dnv <= rhs) by (nonlinear_arith)
                requires rhs == a * dnv, a >= 1,
            {}
        }
        e = e - 1;
        if upv > 1 {
            proof {
                lemma2_to64();
                assert(e0 >= 1);
                assert(dn(e0) == 1 && dn(e0 - 1) == 1);
                let uprev = up(e0 - 1);
                let dprev = dn(e0 - 1);
                let dcur = dn(e0);
                assert(up0 == 2 * uprev) by (nonlinear_arith)
                    requires dcur == 1, dprev == 1, up0 * dprev == 2 * (uprev * dcur),
                {}
            }
            upv = upv / 2;
        } else {
            proof {
                assert(e0 <= 0);
                assert(up(e0) == 1 && up(e0 - 1) == 1);
                let dprev = dn(e0 - 1);
                let uprev = up(e0 - 1);
                let ucur = up(e0);
                assert(dprev == 2 * dn0) by (nonlinear_arith)
                    requires ucur == 1, uprev == 1, ucur * dprev == 2 * (uprev * dn0),
                {}
            }
            dnv = dnv * 2;
            rhs = rhs * 2;
            proof {
                assert(rhs == a * dnv) by (nonlinear_arith)
                    requires rhs == 2 * (a * dn0), dnv == 2 * dn0,
                {}
            }
        }
        proof {
            let p = pow2(52);
            let u1 = upv as nat;
            let d1 = dnv as nat;
            assert(up0 * d1 == 2 * (u1 * dn0));
            assert(a * d1 < 2 * p * (b * u1)) by (nonlinear_arith)
                requires
                    a * dn0 < p * (b * up0),
                    up0 * d1 == 2 * (u1 * dn0),
                    dn0 > 0,
                    d1 > 0,
            {
                assert(a * dn0 * d1 < p * (b * up0) * d1);
                assert(p * (b * up0) * d1 == 2 * p * b * (u1 * dn0));
                assert(a * d1 * dn0 < 2 * p * b * u1 * dn0);
            }
            assert(b * upv <= 0x10000000000000 * 8000) by (nonlinear_arith)
                requires b <= 0x10000000000000 * 1000, upv <= 8,
            {}
        }
        lhs = p52 * (b * upv);
    }
    let den = b * upv;
    proof {
        assert(in_binade(a as nat, b as nat, e as int));
        lemma_binade_is(a as nat, b as nat, e as int);
        lemma_rne_at_most(rhs as nat, den as nat, pow2(53));
    }
    let q = rne_u128(rhs, den);
    proof {
        assert(q * upv <= 0x20000000000000 * 8) by (nonlinear_arith)
            requires q <= 0x20000000000000, upv <= 8,
        {}
    }
    let y0 = q * upv;
    proof {
        let y10 = (y0 * 10) as nat;
        assert(y10 < (y10 + 1) * dnv) by (nonlinear_arith)
            requires dnv >= 1,
        {}
        lemma_rne_at_most(y10, dnv as nat, y10 + 1);
    }
    let t = rne_u128(y0 * 10, dnv);
    t as u64
}

} // verus!
