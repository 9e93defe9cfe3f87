//! The stable curve: a blend of a constant-sum and a constant-product curve,
//! weighted by an amplification factor.
//!
//! Both the invariant `D` of a pair of reserves and the reserve that keeps
//! `D` after a trade are roots of polynomials. They are approached by
//! Newton's method on integers, in at most `MAX_ITERATIONS` steps, with every
//! intermediate value held in 128 bits.

use vstd::prelude::*;

verus! {

/// The number of steps after which the solver gives up.
pub const MAX_ITERATIONS: u32 = 32;

/// The amplification factor times the number of tokens in the pool.
pub open spec fn leverage(amplification: nat) -> nat {
    amplification * 2
}

/// `d^3 / (4 * a * b)`, divided one factor at a time.
pub open spec fn d_product(d: nat, a: nat, b: nat) -> nat {
    ((d * d) / (2 * a)) * d / (2 * b)
}

/// Whether one Newton step on `d` stays within 128 bits and divides by a
/// positive number.
pub open spec fn d_step_fits(ann: nat, s: nat, a: nat, b: nat, d: nat) -> bool {
    let dp = d_product(d, a, b);
    &&& a > 0
    &&& b > 0
    &&& d * d <= u128::MAX
    &&& ((d * d) / (2 * a)) * d <= u128::MAX
    &&& (ann * s + 2 * dp) * d <= u128::MAX
    &&& 0 < (ann - 1) * d + 3 * dp <= u128::MAX
}

/// The Newton step for the invariant:
/// `d' = (ann * s + 2 * dp) * d / ((ann - 1) * d + 3 * dp)`.
pub open spec fn d_next(ann: nat, s: nat, a: nat, b: nat, d: nat) -> nat {
    let dp = d_product(d, a, b);
    ((((ann * s + 2 * dp) * d) as int) / ((ann - 1) * d + 3 * dp)) as nat
}

/// Follows the Newton steps from `d` for as long as they lower the value,
/// and gives the value that the next step would not lower. `None` when a
/// step does not fit or `fuel` steps were not enough.
pub open spec fn d_iterate(ann: nat, s: nat, a: nat, b: nat, d: nat, fuel: nat) -> Option<nat>
    decreases fuel,
{
    if fuel == 0 || !d_step_fits(ann, s, a, b, d) {
        None
    } else {
        let next = d_next(ann, s, a, b, d);
        if next >= d {
            Some(d)
        } else {
            d_iterate(ann, s, a, b, next, (fuel - 1) as nat)
        }
    }
}

/// The invariant `D` of the reserves `a` and `b` under an amplification
/// factor: zero for an empty pool, else where the Newton steps from `a + b`
/// settle. There is none for a zero amplification.
pub open spec fn invariant_spec(amplification: nat, a: nat, b: nat) -> Option<nat> {
    if amplification == 0 {
        None
    } else if a + b == 0 {
        Some(0)
    } else {
        d_iterate(leverage(amplification), a + b, a, b, a + b, MAX_ITERATIONS as nat)
    }
}

/// Where the steps settle, a further step fits and does not lower the
/// value, and the value is at most the one that the steps began with.
pub proof fn lemma_d_iterate_settled(ann: nat, s: nat, a: nat, b: nat, d: nat, fuel: nat)
    ensures
        d_iterate(ann, s, a, b, d, fuel) matches Some(r) ==> d_step_fits(ann, s, a, b, r) && d_next(
            ann,
            s,
            a,
            b,
            r,
        ) >= r && r <= d,
    decreases fuel,
{
    if fuel > 0 && d_step_fits(ann, s, a, b, d) {
        let next = d_next(ann, s, a, b, d);
        if next < d {
            lemma_d_iterate_settled(ann, s, a, b, next, (fuel - 1) as nat);
        }
    }
}

/// A sum with a term above the 128-bit range, times a positive factor, is
/// above it too.
proof fn lemma_product_overflows(x: int, y: int, d: int)
    requires
        x > u128::MAX,
        y >= 0,
        d >= 1,
    ensures
        (x + y) * d > u128::MAX,
        (y + x) * d > u128::MAX,
{
    assert((x + y) * d >= x + y) by (nonlinear_arith)
        requires
            x + y >= 0,
            d >= 1,
    ;
    assert((y + x) * d == (x + y) * d);
}

/// One Newton step for the invariant, or `None` where it does not fit.
fn d_step(ann: u128, s: u128, a: u64, b: u64, d: u128) -> (r: Option<u128>)
    requires
        ann >= 1,
    ensures
        r == if d_step_fits(ann as nat, s as nat, a as nat, b as nat, d as nat) {
            Some(d_next(ann as nat, s as nat, a as nat, b as nat, d as nat) as u128)
        } else {
            None::<u128>
        },
        r matches Some(v) ==> v == d_next(ann as nat, s as nat, a as nat, b as nat, d as nat),
{
    if a == 0 || b == 0 {
        return None;
    }
    let a2: u128 = 2 * (a as u128);
    let b2: u128 = 2 * (b as u128);
    let dd: u128 = match d.checked_mul(d) {
        Some(v) => v,
        None => {
            return None;
        },
    };
    let t: u128 = dd / a2;
    let td: u128 = match t.checked_mul(d) {
        Some(v) => v,
        None => {
            return None;
        },
    };
    let dp: u128 = td / b2;
    assert(dp == d_product(d as nat, a as nat, b as nat));
    if d == 0 {
        assert(dp == 0) by (nonlinear_arith)
            requires
                dp == td / b2,
                td == t * d,
                d == 0,
                b2 > 0,
        ;
        assert((ann - 1) * d == 0) by (nonlinear_arith)
            requires
                d == 0,
        ;
        return None;
    }
    let ann_s: u128 = match ann.checked_mul(s) {
        Some(v) => v,
        None => {
            proof {
                lemma_product_overflows(ann * s, 2 * dp, d as int);
            }
            return None;
        },
    };
    let dp2: u128 = match dp.checked_mul(2) {
        Some(v) => v,
        None => {
            proof {
                lemma_product_overflows(2 * dp, ann * s, d as int);
            }
            return None;
        },
    };
    let sum: u128 = match ann_s.checked_add(dp2) {
        Some(v) => v,
        None => {
            proof {
                lemma_product_overflows(ann * s + 2 * dp, 0, d as int);
            }
            return None;
        },
    };
    let numerator: u128 = match sum.checked_mul(d) {
        Some(v) => v,
        None => {
            return None;
        },
    };
    let ann_d: u128 = match (ann - 1).checked_mul(d) {
        Some(v) => v,
        None => {
            return None;
        },
    };
    let dp3: u128 = match dp.checked_mul(3) {
        Some(v) => v,
        None => {
            return None;
        },
    };
    let denominator: u128 = match ann_d.checked_add(dp3) {
        Some(v) => v,
        None => {
            return None;
        },
    };
    if denominator == 0 {
        return None;
    }
    Some(numerator / denominator)
}

/// The invariant `D` of the reserves `a` and `b`; it never exceeds their
/// sum.
///
/// `None` when the amplification is zero, when an intermediate value leaves
/// the 128-bit range, when exactly one reserve is empty, or when the steps
/// still lower the value after `MAX_ITERATIONS` of them.
pub fn compute_d(amplification: u64, a: u64, b: u64) -> (r: Option<u128>)
    ensures
        r matches Some(d) ==> invariant_spec(amplification as nat, a as nat, b as nat) == Some(
            d as nat,
        ),
        r is None ==> invariant_spec(amplification as nat, a as nat, b as nat) is None,
        r matches Some(d) ==> d <= a + b,
{
    if amplification == 0 {
        return None;
    }
    let ann: u128 = 2 * (amplification as u128);
    let s: u128 = a as u128 + b as u128;
    if s == 0 {
        return Some(0);
    }
    let mut d: u128 = s;
    let mut i: u32 = 0;
    while i < MAX_ITERATIONS
        invariant
            ann == leverage(amplification as nat),
            amplification > 0,
            i <= MAX_ITERATIONS,
            s == a + b,
            s > 0,
            d <= s,
            d_iterate(
                ann as nat,
                s as nat,
                a as nat,
                b as nat,
                d as nat,
                (MAX_ITERATIONS - i) as nat,
            ) == invariant_spec(amplification as nat, a as nat, b as nat),
        decreases MAX_ITERATIONS - i,
    {
        match d_step(ann, s, a, b, d) {
            None => {
                return None;
            },
            Some(next) => {
                if next >= d {
                    return Some(d);
                }
                d = next;
                i = i + 1;
            },
        }
    }
    None
}

/// `n / m`, rounded up.
pub open spec fn div_ceil(n: nat, m: nat) -> nat
    recommends
        m > 0,
{
    if n % m == 0 {
        n / m
    } else {
        n / m + 1
    }
}

/// The constant term of the quadratic that the new reserve solves:
/// `d^3 / (4 * x * ann)`, divided one factor at a time and rounded up each
/// time.
pub open spec fn y_constant(ann: nat, x: nat, d: nat) -> nat {
    div_ceil(div_ceil(d * d, 2 * x) * d, 2 * ann)
}

/// The linear term of that quadratic, before `d` is taken off:
/// `x + d / ann`, rounded down.
pub open spec fn y_linear(ann: nat, x: nat, d: nat) -> nat {
    x + d / ann
}

/// Whether the two terms can be computed in 128 bits.
pub open spec fn y_setup_fits(ann: nat, x: nat, d: nat) -> bool {
    &&& ann > 0
    &&& x > 0
    &&& d * d <= u128::MAX
    &&& div_ceil(d * d, 2 * x) * d <= u128::MAX
}

/// Whether one Newton step on `y` stays within 128 bits and divides by a
/// positive number.
pub open spec fn y_step_fits(c: nat, b: nat, d: nat, y: nat) -> bool {
    &&& y * y + c <= u128::MAX
    &&& 2 * y + b > d
}

/// The Newton step for the new reserve:
/// `y' = (y^2 + c) / (2 * y + b - d)`.
pub open spec fn y_next(c: nat, b: nat, d: nat, y: nat) -> nat {
    (((y * y + c) as int) / (2 * y + b - d)) as nat
}

/// Follows the Newton steps from `y` for as long as they lower the value,
/// and gives the value that the next step would not lower. `None` when a
/// step does not fit or `fuel` steps were not enough.
pub open spec fn y_iterate(c: nat, b: nat, d: nat, y: nat, fuel: nat) -> Option<nat>
    decreases fuel,
{
    if fuel == 0 || !y_step_fits(c, b, d, y) {
        None
    } else {
        let next = y_next(c, b, d, y);
        if next >= y {
            Some(y)
        } else {
            y_iterate(c, b, d, next, (fuel - 1) as nat)
        }
    }
}

/// The left side of the quadratic `y * (y + b - d) = c`.
pub open spec fn y_quadratic(b: nat, d: nat, y: int) -> int {
    y * (y + b - d)
}

/// The root of the quadratic, rounded down: one Newton step from `d`, then
/// the value at which further steps settle.
pub open spec fn root_floor_spec(c: nat, b: nat, d: nat) -> Option<nat> {
    if !y_step_fits(c, b, d, d) {
        None
    } else {
        y_iterate(c, b, d, y_next(c, b, d, d), MAX_ITERATIONS as nat)
    }
}

/// The reserve of the other token that keeps the invariant `d` once this
/// token's reserve is `x`: the root of the quadratic, rounded up.
pub open spec fn new_reserve_spec(amplification: nat, x: nat, d: nat) -> Option<nat> {
    let ann = leverage(amplification);
    let c = y_constant(ann, x, d);
    let b = y_linear(ann, x, d);
    if !y_setup_fits(ann, x, d) {
        None
    } else {
        match root_floor_spec(c, b, d) {
            None => None,
            Some(y) => if y_quadratic(b, d, y as int) == c {
                Some(y)
            } else {
                Some(y + 1)
            },
        }
    }
}

/// Whether the reserves `x` and `y` lie on or above the curve of the
/// invariant `d`: `4 * x * y * (ann * (x + y) + d - ann * d) >= d^3`.
pub open spec fn on_or_above_curve(ann: nat, x: nat, y: nat, d: nat) -> bool {
    4 * x * y * (ann * (x + y) + d - ann * d) >= d * d * d
}

/// Whatever a Newton step starts from, the quadratic is above `c` one
/// beyond the value that it gives.
pub proof fn lemma_y_next_upper(c: nat, b: nat, d: nat, p: nat)
    requires
        2 * p + b > d,
    ensures
        c < y_quadratic(b, d, (y_next(c, b, d, p) + 1) as int),
{
    let n: int = (p * p + c) as int;
    let m: int = 2 * p + b - d;
    let y: int = y_next(c, b, d, p) as int;
    let pi: int = p as int;
    assert(0 <= n / m) by (nonlinear_arith)
        requires
            n >= 0,
            m > 0,
    ;
    assert(y == n / m);
    assert(n < (y + 1) * m) by (nonlinear_arith)
        requires
            m > 0,
            y == n / m,
    ;
    assert((y + 1) * (y + 1 + b - d) - ((y + 1) * m - pi * pi) == (pi - (y + 1)) * (pi - (y + 1)))
        by (nonlinear_arith)
        requires
            m == 2 * pi + b - d,
    ;
    assert((pi - (y + 1)) * (pi - (y + 1)) >= 0) by (nonlinear_arith);
    assert(p * p == pi * pi);
}

/// Where the steps settle, the quadratic is at most `c`; and if it is above
/// `c` one beyond the value that the steps began with, it is above `c` one
/// beyond the value at which they settle.
pub proof fn lemma_y_iterate_settled(c: nat, b: nat, d: nat, y: nat, fuel: nat)
    requires
        c < y_quadratic(b, d, (y + 1) as int),
    ensures
        y_iterate(c, b, d, y, fuel) matches Some(r) ==> {
            &&& y_step_fits(c, b, d, r)
            &&& y_next(c, b, d, r) >= r
            &&& y_quadratic(b, d, r as int) <= c < y_quadratic(b, d, (r + 1) as int)
        },
    decreases fuel,
{
    if fuel > 0 && y_step_fits(c, b, d, y) {
        let next = y_next(c, b, d, y);
        if next < y {
            lemma_y_next_upper(c, b, d, y);
            lemma_y_iterate_settled(c, b, d, next, (fuel - 1) as nat);
        } else {
            let n: int = (y * y + c) as int;
            let m: int = 2 * y + b - d;
            let yi: int = y as int;
            assert(yi * m <= n) by (nonlinear_arith)
                requires
                    m > 0,
                    n / m >= yi,
            ;
            assert(yi * m == yi * yi + yi * (yi + b - d)) by (nonlinear_arith)
                requires
                    m == 2 * yi + b - d,
            ;
            assert(y * y == yi * yi);
        }
    }
}

/// The root of the quadratic, rounded down, is what its name says: the
/// quadratic is at most `c` there and above `c` one further.
pub proof fn lemma_root_floor(c: nat, b: nat, d: nat)
    ensures
        root_floor_spec(c, b, d) matches Some(r) ==> {
            &&& y_step_fits(c, b, d, r)
            &&& y_next(c, b, d, r) >= r
            &&& y_quadratic(b, d, r as int) <= c < y_quadratic(b, d, (r + 1) as int)
        },
{
    if y_step_fits(c, b, d, d) {
        lemma_y_next_upper(c, b, d, d);
        lemma_y_iterate_settled(c, b, d, y_next(c, b, d, d), MAX_ITERATIONS as nat);
    }
}

/// Rounding up gives at least the exact quotient.
pub proof fn lemma_div_ceil_bound(n: nat, m: nat)
    requires
        m > 0,
    ensures
        div_ceil(n, m) * m >= n,
        div_ceil(n, m) <= n,
{
    let q: int = (n / m) as int;
    let r: int = (n % m) as int;
    assert(n == q * m + r && 0 <= r < m && q >= 0) by (nonlinear_arith)
        requires
            q == n as int / m as int,
            r == n as int % m as int,
            m > 0,
            n >= 0,
    ;
    assert((q + 1) * m == q * m + m) by (nonlinear_arith);
    assert(q * m >= q) by (nonlinear_arith)
        requires
            q >= 0,
            m >= 1,
    ;
}

/// Rounding up gives the least number whose multiple reaches `n`.
pub proof fn lemma_div_ceil_least(n: nat, m: nat, q: nat)
    requires
        m > 0,
        q * m >= n,
    ensures
        div_ceil(n, m) <= q,
{
    let f: int = (n / m) as int;
    let r: int = (n % m) as int;
    assert(n == f * m + r && 0 <= r < m && f >= 0) by (nonlinear_arith)
        requires
            f == n as int / m as int,
            r == n as int % m as int,
            m > 0,
            n >= 0,
    ;
    if r == 0 {
        assert(f <= q) by (nonlinear_arith)
            requires
                f * m <= q * m,
                m > 0,
        ;
    } else {
        assert(f < q) by (nonlinear_arith)
            requires
                f * m < q * m,
                m > 0,
        ;
    }
}

/// The reserves after a trade on the stable curve lie on or above the curve
/// of the invariant that the trade was priced with: the roundings of the new
/// reserve all go the pool's way.
pub proof fn lemma_new_reserve_on_curve(amplification: nat, x: nat, d: nat)
    ensures
        new_reserve_spec(amplification, x, d) matches Some(y) ==> on_or_above_curve(
            leverage(amplification),
            x,
            y,
            d,
        ),
{
    let ann = leverage(amplification);
    let c = y_constant(ann, x, d);
    let b = y_linear(ann, x, d);
    if new_reserve_spec(amplification, x, d) is Some {
        let y = new_reserve_spec(amplification, x, d).unwrap();
        lemma_root_floor(c, b, d);
        // the quadratic at `y` is at least `c`
        assert(y_quadratic(b, d, y as int) >= c);
        // `c` is at least `d^3 / (4 * x * ann)`
        let t = div_ceil(d * d, 2 * x);
        lemma_div_ceil_bound(d * d, 2 * x);
        lemma_div_ceil_bound(t * d, 2 * ann);
        let ci: int = c as int;
        let ti: int = t as int;
        let di: int = d as int;
        let xi: int = x as int;
        let lev: int = ann as int;
        let yi: int = y as int;
        let bi: int = b as int;
        assert(ci * (2 * lev) >= ti * di);
        assert(ti * (2 * xi) >= di * di);
        assert(ci * (2 * lev) * (2 * xi) >= di * di * di) by (nonlinear_arith)
            requires
                ci * (2 * lev) >= ti * di,
                ti * (2 * xi) >= di * di,
                xi > 0,
                di >= 0,
        ;
        // `b` is at most `x + d / ann`
        assert(bi * lev <= xi * lev + di) by (nonlinear_arith)
            requires
                bi == xi + di / lev,
                lev > 0,
                di >= 0,
        ;
        let g: int = lev * (xi + yi) + di - lev * di;
        assert(lev * (yi + bi - di) <= g) by (nonlinear_arith)
            requires
                bi * lev <= xi * lev + di,
                g == lev * (xi + yi) + di - lev * di,
        ;
        assert(yi * g >= lev * (yi * (yi + bi - di))) by (nonlinear_arith)
            requires
                lev * (yi + bi - di) <= g,
                yi >= 0,
        ;
        assert(4 * xi * yi * g >= di * di * di) by (nonlinear_arith)
            requires
                yi * g >= lev * (yi * (yi + bi - di)),
                yi * (yi + bi - di) >= ci,
                ci * (2 * lev) * (2 * xi) >= di * di * di,
                xi > 0,
                lev > 0,
        ;
        assert(on_or_above_curve(ann, x, y, d));
    }
}

/// A number whose square fits 128 bits fits 64 bits.
proof fn lemma_square_root_fits(y: nat)
    requires
        y * y <= u128::MAX,
    ensures
        y <= u64::MAX,
{
    if y > u64::MAX {
        assert(y * y >= 0x1_0000_0000_0000_0000 * 0x1_0000_0000_0000_0000) by (nonlinear_arith)
            requires
                y >= 0x1_0000_0000_0000_0000,
        ;
    }
}

/// `n / m`, rounded up; it never exceeds `n`.
fn divide_rounding_up(n: u128, m: u128) -> (q: u128)
    requires
        m > 0,
    ensures
        q == div_ceil(n as nat, m as nat),
        q <= n,
{
    proof {
        lemma_div_ceil_bound(n as nat, m as nat);
    }
    if n % m == 0 {
        n / m
    } else {
        n / m + 1
    }
}

/// One Newton step for the new reserve, or `None` where it does not fit.
fn y_step(c: u128, b: u128, d: u128, y: u128) -> (r: Option<u128>)
    requires
        b <= u128::MAX / 2,
    ensures
        r == if y_step_fits(c as nat, b as nat, d as nat, y as nat) {
            Some(y_next(c as nat, b as nat, d as nat, y as nat) as u128)
        } else {
            None::<u128>
        },
        r matches Some(v) ==> v == y_next(c as nat, b as nat, d as nat, y as nat),
{
    let yy: u128 = match y.checked_mul(y) {
        Some(v) => v,
        None => {
            return None;
        },
    };
    let numerator: u128 = match yy.checked_add(c) {
        Some(v) => v,
        None => {
            return None;
        },
    };
    proof {
        lemma_square_root_fits(y as nat);
    }
    let m: u128 = 2 * y + b;
    if m <= d {
        return None;
    }
    Some(numerator / (m - d))
}

/// The root of `y * (y + b - d) = c`, rounded down.
fn root_floor(c: u128, b: u128, d: u128) -> (r: Option<u128>)
    requires
        b <= u128::MAX / 2,
    ensures
        r matches Some(y) ==> root_floor_spec(c as nat, b as nat, d as nat) == Some(y as nat),
        r is None ==> root_floor_spec(c as nat, b as nat, d as nat) is None,
{
    let mut y: u128 = match y_step(c, b, d, d) {
        Some(v) => v,
        None => {
            return None;
        },
    };
    let mut i: u32 = 0;
    while i < MAX_ITERATIONS
        invariant
            i <= MAX_ITERATIONS,
            b <= u128::MAX / 2,
            y_iterate(c as nat, b as nat, d as nat, y as nat, (MAX_ITERATIONS - i) as nat)
                == root_floor_spec(c as nat, b as nat, d as nat),
        decreases MAX_ITERATIONS - i,
    {
        match y_step(c, b, d, y) {
            None => {
                return None;
            },
            Some(next) => {
                if next >= y {
                    return Some(y);
                }
                y = next;
                i = i + 1;
            },
        }
    }
    None
}

/// The reserve of the other token that keeps the invariant `d` once this
/// token's reserve is `x`, rounded up.
///
/// `None` when the amplification or `x` is zero, when an intermediate value
/// leaves the 128-bit range, or when the steps still lower the value after
/// `MAX_ITERATIONS` of them.
pub fn compute_new_reserve(amplification: u64, x: u64, d: u128) -> (r: Option<u128>)
    ensures
        r matches Some(y) ==> new_reserve_spec(amplification as nat, x as nat, d as nat) == Some(
            y as nat,
        ),
        r is None ==> new_reserve_spec(amplification as nat, x as nat, d as nat) is None,
        r matches Some(y) ==> on_or_above_curve(
            leverage(amplification as nat),
            x as nat,
            y as nat,
            d as nat,
        ),
{
    proof {
        lemma_new_reserve_on_curve(amplification as nat, x as nat, d as nat);
    }
    if amplification == 0 || x == 0 {
        return None;
    }
    let ann: u128 = 2 * (amplification as u128);
    let dd: u128 = match d.checked_mul(d) {
        Some(v) => v,
        None => {
            return None;
        },
    };
    let t: u128 = divide_rounding_up(dd, 2 * (x as u128));
    let td: u128 = match t.checked_mul(d) {
        Some(v) => v,
        None => {
            return None;
        },
    };
    let c: u128 = divide_rounding_up(td, 2 * ann);
    proof {
        lemma_square_root_fits(d as nat);
        assert(d / ann <= d) by (nonlinear_arith)
            requires
                ann >= 1,
                d >= 0,
        ;
    }
    let b: u128 = x as u128 + d / ann;
    let y: u128 = match root_floor(c, b, d) {
        Some(v) => v,
        None => {
            return None;
        },
    };
    proof {
        lemma_root_floor(c as nat, b as nat, d as nat);
        lemma_exact_root(c as nat, b as nat, d as nat, y as nat);
    }
    let m: u128 = 2 * y + b - d;
    let exact: bool = y * m == y * y + c;
    if exact {
        Some(y)
    } else {
        Some(y + 1)
    }
}

/// At a value that a Newton step does not lower, the two products that
/// tell whether the root is exact fit 128 bits, and they are equal exactly
/// when the quadratic equals `c`.
proof fn lemma_exact_root(c: nat, b: nat, d: nat, y: nat)
    requires
        y_step_fits(c, b, d, y),
        y_next(c, b, d, y) >= y,
    ensures
        y <= u64::MAX,
        0 <= y * (2 * y + b - d) <= y * y + c,
        (y * (2 * y + b - d) == y * y + c) <==> (y_quadratic(b, d, y as int) == c),
{
    let yi: int = y as int;
    let n: int = (y * y + c) as int;
    let m: int = 2 * y + b - d;
    lemma_square_root_fits(y);
    assert(0 <= yi * m <= n) by (nonlinear_arith)
        requires
            m > 0,
            yi >= 0,
            n / m >= yi,
    ;
    assert(yi * m == yi * yi + yi * (yi + b - d)) by (nonlinear_arith)
        requires
            m == 2 * yi + b - d,
    ;
    assert(y * y == yi * yi);
}

} // verus!
