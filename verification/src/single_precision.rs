//! The fan curve's interpolation in IEEE 754 single precision, reproduced on integers:
//! the slope `dduty / dtemp` and its product with the temperature offset are each rounded
//! to the nearest value with 24 significant bits (ties to even), and the product is then
//! rounded to the nearest integer (halves away from zero). With both operands of the
//! slope below 2^16 every value involved is normal, so nothing else changes the result.
use vstd::arithmetic::div_mod::{lemma_div_is_ordered, lemma_fundamental_div_mod};
use vstd::arithmetic::power2::{
    lemma2_to64, lemma2_to64_rest, lemma_pow2_adds, lemma_pow2_pos, lemma_pow2_strictly_increases,
    pow2,
};
use vstd::prelude::*;

verus! {

/// `n / d` rounded to the nearest integer, ties to the even one.
pub open spec fn round_even(n: int, d: int) -> int {
    if 2 * (n % d) > d || (2 * (n % d) == d && (n / d) % 2 == 1) {
        n / d + 1
    } else {
        n / d
    }
}

/// The smallest `sh`, from `from` on (and below 64), at which `a * 2^sh` reaches
/// `2^23 * b`: the scale at which `a / b` has 24 bits before the point.
pub open spec fn quotient_shift(a: int, b: int, from: nat) -> nat
    decreases 64 - from,
{
    if from >= 64 || a * pow2(from) >= pow2(23) * b {
        from
    } else {
        quotient_shift(a, b, from + 1)
    }
}

/// The smallest `k`, from `from` on (and below 64), with `p < 2^(24 + k)`: how many low
/// bits of `p` lie beyond 24 significant ones.
pub open spec fn product_shift(p: int, from: nat) -> nat
    decreases 64 - from,
{
    if from >= 64 || p < pow2(24 + from) {
        from
    } else {
        product_shift(p, from + 1)
    }
}

/// `p` rounded to 24 significant bits, ties to even.
pub open spec fn round_significant(p: int) -> int {
    let k = product_shift(p, 0);
    round_even(p, pow2(k) as int) * pow2(k)
}

/// The duty offset the interpolation adds: `a / b` in single precision, times `t` in
/// single precision, rounded to the nearest integer with halves away from zero.
pub open spec fn single_precision_offset(a: int, b: int, t: int) -> int {
    if a == 0 {
        0
    } else {
        let sh = quotient_shift(a, b, 0);
        let m = round_even(a * pow2(sh), b);
        (2 * round_significant(m * t) + pow2(sh)) / (2 * pow2(sh) as int)
    }
}

proof fn lemma_round_even_bounds(n: int, d: int)
    requires
        0 <= n,
        0 < d,
    ensures
        n / d <= round_even(n, d) <= n / d + 1,
        2 * round_even(n, d) * d <= 2 * n + d,
        round_even(n, d) * d > n - d,
        0 <= n / d,
{
    lemma_fundamental_div_mod(n, d);
    let q = n / d;
    let r = n % d;
    assert(0 <= r < d);
    assert(q >= 0) by (nonlinear_arith)
        requires
            n == d * q + r,
            0 <= n,
            0 <= r < d,
    ;
    if round_even(n, d) == q + 1 {
        assert(2 * (q + 1) * d <= 2 * n + d) by (nonlinear_arith)
            requires
                n == d * q + r,
                2 * r >= d,
        ;
        assert((q + 1) * d > n - d) by (nonlinear_arith)
            requires
                n == d * q + r,
                r < d,
                0 < d,
        ;
    } else {
        assert(2 * q * d <= 2 * n + d) by (nonlinear_arith)
            requires
                n == d * q + r,
                0 <= r,
                0 < d,
        ;
        assert(q * d > n - d) by (nonlinear_arith)
            requires
                n == d * q + r,
                r < d,
        ;
    }
}

proof fn lemma_round_even_monotone(n1: int, n2: int, d: int)
    requires
        0 <= n1 <= n2,
        0 < d,
    ensures
        round_even(n1, d) <= round_even(n2, d),
{
    lemma_div_is_ordered(n1, n2, d);
    lemma_round_even_bounds(n1, d);
    lemma_round_even_bounds(n2, d);
    if n1 / d == n2 / d {
        lemma_fundamental_div_mod(n1, d);
        lemma_fundamental_div_mod(n2, d);
        assert(n1 % d <= n2 % d) by (nonlinear_arith)
            requires
                n1 == d * (n1 / d) + n1 % d,
                n2 == d * (n2 / d) + n2 % d,
                n1 / d == n2 / d,
                n1 <= n2,
        ;
    }
}

proof fn lemma_product_shift(p: int, from: nat)
    requires
        0 <= p < pow2(63),
        from <= 63,
        from == 0 || p >= pow2((23 + from) as nat),
    ensures
        product_shift(p, from) >= from,
        product_shift(p, from) < 64,
        p < pow2((24 + product_shift(p, from)) as nat),
        product_shift(p, from) == 0 || p >= pow2((23 + product_shift(p, from)) as nat),
    decreases 64 - from,
{
    if p >= pow2((24 + from) as nat) {
        if from == 63 {
            lemma_pow2_strictly_increases(63, 87);
        }
        lemma_product_shift(p, from + 1);
    }
}

/// The rounding to 24 significant bits never puts a smaller number above a larger one.
proof fn lemma_round_significant_monotone(p1: int, p2: int)
    requires
        0 <= p1 <= p2 < pow2(63),
    ensures
        0 <= round_significant(p1) <= round_significant(p2),
{
    lemma_product_shift(p1, 0);
    lemma_product_shift(p2, 0);
    let k1 = product_shift(p1, 0);
    let k2 = product_shift(p2, 0);
    lemma_pow2_pos(k1);
    lemma_pow2_pos(k2);
    let d1 = pow2(k1) as int;
    let d2 = pow2(k2) as int;
    lemma_round_even_bounds(p1, d1);
    lemma_round_even_bounds(p2, d2);
    assert(0 <= round_significant(p1)) by (nonlinear_arith)
        requires
            round_significant(p1) == round_even(p1, d1) * d1,
            round_even(p1, d1) >= 0,
            d1 > 0,
    ;
    if k1 > k2 {
        if 23 + k1 > 24 + k2 {
            lemma_pow2_strictly_increases((24 + k2) as nat, (23 + k1) as nat);
        }
        assert(false);
    }
    if k1 == k2 {
        lemma_round_even_monotone(p1, p2, d1);
        assert(round_even(p1, d1) * d1 <= round_even(p2, d1) * d1) by (nonlinear_arith)
            requires
                round_even(p1, d1) <= round_even(p2, d1),
                d1 > 0,
        ;
    } else {
        // p1 has fewer bits: it rounds to at most 2^(24 + k1), and p2 to at least
        // 2^(23 + k2), which is no less.
        lemma_pow2_adds(24, k1);
        lemma_pow2_adds(23, k2);
        lemma2_to64();
        let big1 = pow2((24 + k1) as nat) as int;
        let big2 = pow2((23 + k2) as nat) as int;
        if k2 > k1 + 1 {
            lemma_pow2_strictly_increases((24 + k1) as nat, (23 + k2) as nat);
        }
        assert(big1 <= big2);
        assert(p1 / d1 < 16777216) by (nonlinear_arith)
            requires
                p1 < big1,
                big1 == 16777216 * d1,
                d1 > 0,
                0 <= p1,
        {
            lemma_fundamental_div_mod(p1, d1);
        }
        assert(round_even(p1, d1) * d1 <= big1) by (nonlinear_arith)
            requires
                round_even(p1, d1) <= 16777216,
                big1 == 16777216 * d1,
                d1 > 0,
        ;
        assert(p2 / d2 >= 8388608) by (nonlinear_arith)
            requires
                p2 >= big2,
                big2 == 8388608 * d2,
                d2 > 0,
        {
            lemma_fundamental_div_mod(p2, d2);
        }
        assert(round_even(p2, d2) * d2 >= big2) by (nonlinear_arith)
            requires
                round_even(p2, d2) >= 8388608,
                big2 == 8388608 * d2,
                d2 > 0,
        ;
    }
}

/// The single-precision interpolation offset of `a / b` at `t`, which is never more than
/// `a`.
pub fn interpolation_offset(a: u64, b: u64, t: u64) -> (r: u64)
    requires
        a <= 65535,
        2 <= b <= 32767,
        1 <= t < b,
    ensures
        r == single_precision_offset(a as int, b as int, t as int),
        r <= a,
{
    if a == 0 {
        return 0;
    }
    proof {
        lemma2_to64();
        lemma2_to64_rest();
    }
    let mut sh: u64 = 0;
    let mut pw: u64 = 1;
    while a * pw < 8388608 * b
        invariant
            1 <= a <= 65535,
            2 <= b <= 32767,
            pw == pow2(sh as nat),
            1 <= pw < 549755813888,
            a * pw < 36028797018963968,
            pow2(23) == 8388608,
            pow2(39) == 549755813888,
            quotient_shift(a as int, b as int, 0) == quotient_shift(a as int, b as int, sh as nat),
            sh == 0 || a * pw < 16777216 * b,
        decreases 549755813888 - pw,
    {
        proof {
            if sh >= 39 {
                if sh > 39 {
                    lemma_pow2_strictly_increases(39, sh as nat);
                }
                assert(false);
            }
            assert(pw < 274877906944) by (nonlinear_arith)
                requires
                    a * pw < 8388608 * b,
                    1 <= a,
                    b <= 32767,
            ;
            assert(pow2((sh + 1) as nat) == 2 * pow2(sh as nat)) by {
                lemma_pow2_adds(sh as nat, 1);
                lemma2_to64();
            }
            assert(a * (pw * 2) == 2 * (a * pw)) by (nonlinear_arith);
        }
        sh = sh + 1;
        pw = pw * 2;
    }
    proof {
        if sh >= 64 {
            lemma_pow2_strictly_increases(39, sh as nat);
        }
        assert(quotient_shift(a as int, b as int, sh as nat) == sh);
        if sh == 0 {
            assert(false);
        }
        lemma_pow2_pos(sh as nat);
    }
    let num = a * pw;
    let q = num / b;
    let rm = num % b;
    let m = if 2 * rm > b || (2 * rm == b && q % 2 == 1) {
        q + 1
    } else {
        q
    };
    proof {
        lemma_round_even_bounds(num as int, b as int);
        assert(m == round_even(num as int, b as int));
        assert(q < 16777216) by (nonlinear_arith)
            requires
                num < 16777216 * b,
                q == num / b,
                b > 0,
        {
            lemma_fundamental_div_mod(num as int, b as int);
        }
    }
    assert(m * t < 549755813888) by (nonlinear_arith)
        requires
            m <= 16777216,
            t < 32767,
    ;
    let p = m * t;
    let mut k: u64 = 0;
    let mut pk: u64 = 1;
    while p >= 16777216 * pk
        invariant
            p == m * t,
            m <= 16777216,
            1 <= t < 32767,
            pk == pow2(k as nat),
            1 <= pk < 65536,
            pow2(24) == 16777216,
            product_shift(p as int, 0) == product_shift(p as int, k as nat),
            k == 0 || p >= 8388608 * pk,
        decreases 65536 - pk,
    {
        proof {
            assert(p < 549755813888) by (nonlinear_arith)
                requires
                    p == m * t,
                    m <= 16777216,
                    t < 32767,
            ;
            assert(pk < 32768);
            assert(pow2((24 + k) as nat) == 16777216 * pk) by {
                lemma_pow2_adds(24, k as nat);
            }
            if k >= 40 {
                lemma_pow2_strictly_increases(16, k as nat);
                lemma2_to64();
                assert(false);
            }
            assert(pow2((k + 1) as nat) == 2 * pow2(k as nat)) by {
                lemma_pow2_adds(k as nat, 1);
                lemma2_to64();
            }
        }
        k = k + 1;
        pk = pk * 2;
    }
    proof {
        assert(pow2((24 + k) as nat) == 16777216 * pk) by {
            lemma_pow2_adds(24, k as nat);
        }
        if k >= 64 {
            lemma_pow2_strictly_increases(16, k as nat);
            assert(false);
        }
        assert(product_shift(p as int, k as nat) == k);
        lemma_pow2_pos(k as nat);
    }
    let qq = p / pk;
    let rr = p % pk;
    let r2 = if 2 * rr > pk || (2 * rr == pk && qq % 2 == 1) {
        qq + 1
    } else {
        qq
    };
    proof {
        lemma_round_even_bounds(p as int, pk as int);
        assert(r2 == round_even(p as int, pk as int));
        assert(2 * r2 * pk <= 2 * (m * t) + pk);
        assert(r2 * pk <= p + pk) by (nonlinear_arith)
            requires
                2 * r2 * pk <= 2 * p + pk,
                pk > 0,
        ;
    }
    let mp = r2 * pk;
    let off = (2 * mp + pw) / (2 * pw);
    proof {
        assert(mp == round_significant(p as int));
        lemma_offset_bounds(a as int, b as int, t as int);
    }
    off
}

/// The single-precision offset lies between 0 and `a`: the interpolation stays within the
/// duty span.
pub proof fn lemma_offset_bounds(a: int, b: int, t: int)
    requires
        0 <= a <= 65535,
        2 <= b <= 32767,
        1 <= t < b,
    ensures
        0 <= single_precision_offset(a, b, t) <= a,
{
    if a > 0 {
        lemma2_to64();
        lemma2_to64_rest();
        lemma_quotient_shift_bound(a, b, 0);
        let sh = quotient_shift(a, b, 0);
        lemma_pow2_pos(sh);
        let pw = pow2(sh) as int;
        let num = a * pw;
        let m = round_even(num, b);
        lemma_round_even_bounds(num, b);
        assert(m <= 16777216) by (nonlinear_arith)
            requires
                2 * m * b <= 2 * num + b,
                num < 16777216 * b,
                b >= 2,
        ;
        let p = m * t;
        assert(0 <= p < 549755813888) by (nonlinear_arith)
            requires
                0 <= m <= 16777216,
                1 <= t < 32767,
                p == m * t,
        ;
        lemma_product_shift(p, 0);
        let k = product_shift(p, 0);
        lemma_pow2_pos(k);
        let pk = pow2(k) as int;
        if k > 16 {
            lemma_pow2_strictly_increases(39, (23 + k) as nat);
            assert(false);
        }
        if k < 16 {
            lemma_pow2_strictly_increases(k, 16);
        }
        assert(pk <= 65536);
        lemma_round_even_bounds(p, pk);
        let r2 = round_even(p, pk);
        let mp = r2 * pk;
        assert(mp == round_significant(p));
        assert(0 <= mp) by (nonlinear_arith)
            requires
                r2 >= 0,
                pk > 0,
                mp == r2 * pk,
        ;
        assert(2 * mp <= 2 * m * t + pk) by (nonlinear_arith)
            requires
                2 * r2 * pk <= 2 * p + pk,
                mp == r2 * pk,
                p == m * t,
        ;
        assert(2 * m * b <= 2 * a * pw + b) by (nonlinear_arith)
            requires
                2 * m * b <= 2 * num + b,
                num == a * pw,
        ;
        assert(2 * mp * b + pw * b < 2 * pw * (a + 1) * b) by (nonlinear_arith)
            requires
                2 * m * b <= 2 * a * pw + b,
                2 * mp <= 2 * m * t + pk,
                a * pw >= 8388608 * b,
                1 <= t,
                t + 1 <= b,
                pk <= 65536,
                t < 32767,
                b > 0,
                pw > 0,
                m >= 0,
        {
            assert(2 * mp * b <= (2 * m * t + pk) * b);
            assert(2 * m * t * b <= (2 * a * pw + b) * t);
            assert(2 * a * pw * t <= 2 * a * pw * (b - 1));
        }
        assert(2 * mp + pw < 2 * pw * (a + 1)) by (nonlinear_arith)
            requires
                2 * mp * b + pw * b < 2 * pw * (a + 1) * b,
                b > 0,
        ;
        let x = 2 * mp + pw;
        let dd = 2 * pw;
        lemma_fundamental_div_mod(x, dd);
        vstd::arithmetic::div_mod::lemma_mod_bound(x, dd);
        assert(0 <= x / dd <= a) by (nonlinear_arith)
            requires
                x == dd * (x / dd) + x % dd,
                0 <= x % dd < dd,
                0 <= x < dd * (a + 1),
                dd > 0,
        ;
    }
}

/// The single-precision offset never falls as the temperature rises.
pub proof fn lemma_offset_monotone(a: int, b: int, t1: int, t2: int)
    requires
        0 <= a <= 65535,
        2 <= b <= 32767,
        1 <= t1 <= t2 < b,
    ensures
        single_precision_offset(a, b, t1) <= single_precision_offset(a, b, t2),
{
    if a > 0 {
        lemma2_to64();
        lemma2_to64_rest();
        lemma_quotient_shift_bound(a, b, 0);
        let sh = quotient_shift(a, b, 0);
        lemma_pow2_pos(sh);
        let pw = pow2(sh) as int;
        let m = round_even(a * pw, b);
        lemma_round_even_bounds(a * pw, b);
        assert(m <= 16777216) by (nonlinear_arith)
            requires
                2 * m * b <= 2 * (a * pw) + b,
                a * pw < 16777216 * b,
                b >= 2,
        ;
        assert(0 <= m * t1 <= m * t2 < 549755813888) by (nonlinear_arith)
            requires
                0 <= m <= 16777216,
                1 <= t1 <= t2 < 32767,
        ;
        lemma_round_significant_monotone(m * t1, m * t2);
        lemma_div_is_ordered(
            2 * round_significant(m * t1) + pw,
            2 * round_significant(m * t2) + pw,
            2 * pw,
        );
    }
}

proof fn lemma_quotient_shift_bound(a: int, b: int, from: nat)
    requires
        1 <= a <= 65535,
        2 <= b <= 32767,
        from <= 39,
        a * pow2(from) < 16777216 * b,
    ensures
        quotient_shift(a, b, from) <= 39,
        a * pow2(quotient_shift(a, b, from)) >= 8388608 * b,
        a * pow2(quotient_shift(a, b, from)) < 16777216 * b,
    decreases 64 - from,
{
    lemma2_to64();
    lemma2_to64_rest();
    if a * pow2(from) < 8388608 * b {
        if from == 39 {
            lemma_pow2_pos(39);
            assert(a * pow2(39) >= 8388608 * b) by (nonlinear_arith)
                requires
                    a >= 1,
                    pow2(39) == 549755813888,
                    b <= 32767,
            ;
        }
        assert(pow2(from + 1) == 2 * pow2(from)) by {
            lemma_pow2_adds(from, 1);
        }
        assert(a * pow2(from + 1) < 16777216 * b) by (nonlinear_arith)
            requires
                pow2(from + 1) == 2 * pow2(from),
                a * pow2(from) < 8388608 * b,
        ;
        lemma_quotient_shift_bound(a, b, from + 1);
    }
}

} // verus!
