//! Exact plane geometry on integer coordinates: squared distances, the
//! whole part of a square root, clamping and the step of a pursuit.

use vstd::prelude::*;
use crate::unit::position::Position;

verus! {

/// The square of `v`.
pub open spec fn square(v: int) -> int {
    v * v
}

/// The square of the Euclidean distance between `a` and `b`.
pub open spec fn dist2(a: Position<i32>, b: Position<i32>) -> int {
    square(a.x - b.x) + square(a.y - b.y)
}

/// Whether the Euclidean distance between `a` and `b` is strictly less than
/// `radius`. Both sides are non-negative, so the squares decide.
pub open spec fn within(a: Position<i32>, b: Position<i32>, radius: u32) -> bool {
    dist2(a, b) < square(radius as int)
}

/// The value of `v` held to the closed interval from `lo` to `hi`.
pub open spec fn clamped(v: int, lo: int, hi: int) -> int {
    if v < lo {
        lo
    } else if v > hi {
        hi
    } else {
        v
    }
}

/// Whether `r` is the whole part of the square root of `n`.
pub open spec fn is_isqrt(n: int, r: int) -> bool {
    0 <= r && square(r) <= n < square(r + 1)
}

/// The whole part of the square root of `n`: the one `r >= 0` with
/// `r * r <= n < (r + 1) * (r + 1)`.
pub open spec fn isqrt(n: int) -> int {
    choose|r: int| is_isqrt(n, r)
}

/// Squares keep the order of non-negative numbers.
pub proof fn lemma_square_monotonic(a: int, b: int)
    requires
        0 <= a <= b,
    ensures
        square(a) <= square(b),
{
    assert(a * a <= b * b) by (nonlinear_arith)
        requires
            0 <= a <= b,
    ;
}

/// Squares keep the strict order of non-negative numbers.
pub proof fn lemma_square_strictly_monotonic(a: int, b: int)
    requires
        0 <= a < b,
    ensures
        square(a) < square(b),
{
    assert(a * a < b * b) by (nonlinear_arith)
        requires
            0 <= a < b,
    ;
}

/// A square is the same for a number and its negative, and never negative.
pub proof fn lemma_square_even(a: int)
    ensures
        square(a) == square(-a),
        square(a) >= 0,
{
    assert(a * a == (-a) * (-a) && a * a >= 0) by (nonlinear_arith);
}

/// At most one number is the whole part of the square root of `n`.
pub proof fn lemma_isqrt_unique(n: int, r: int)
    requires
        is_isqrt(n, r),
    ensures
        isqrt(n) == r,
{
    let c = isqrt(n);
    assert(is_isqrt(n, c));
    if c < r {
        lemma_square_monotonic(c + 1, r);
    } else if r < c {
        lemma_square_monotonic(r + 1, c);
    }
}

/// Every non-negative number has a whole part of its square root.
pub proof fn lemma_isqrt_exists(n: int)
    requires
        0 <= n,
    ensures
        is_isqrt(n, isqrt(n)),
    decreases n,
{
    if n == 0 {
        assert(is_isqrt(0, 0));
    } else {
        lemma_isqrt_exists(n - 1);
        let r = isqrt(n - 1);
        if square(r + 1) <= n {
            lemma_square_strictly_monotonic(r + 1, r + 2);
            assert(square(r + 1) == n);
            assert(is_isqrt(n, r + 1));
        } else {
            assert(is_isqrt(n, r));
        }
    }
}

/// The distance between two numbers of one axis.
pub open spec fn gap_between(a: int, b: int) -> int {
    if a >= b {
        a - b
    } else {
        b - a
    }
}

/// The distance between two coordinates of one axis.
pub fn gap(a: i32, b: i32) -> (g: u64)
    ensures
        g == gap_between(a as int, b as int),
        g <= 0xffff_ffff,
{
    if a >= b {
        (a as i64 - b as i64) as u64
    } else {
        (b as i64 - a as i64) as u64
    }
}

/// The square of the distance between `a` and `b`, computed without loss.
pub fn distance_squared(a: &Position<i32>, b: &Position<i32>) -> (d: u128)
    ensures
        d == dist2(*a, *b),
{
    let dx: u64 = gap(a.x, b.x);
    let dy: u64 = gap(a.y, b.y);
    proof {
        lemma_square_even(a.x - b.x);
        lemma_square_even(a.y - b.y);
        lemma_square_monotonic(dx as int, 0xffff_ffff);
        lemma_square_monotonic(dy as int, 0xffff_ffff);
    }
    let sx: u128 = (dx as u128) * (dx as u128);
    let sy: u128 = (dy as u128) * (dy as u128);
    sx + sy
}

/// Whether `a` lies strictly nearer to `b` than `radius`.
pub fn is_within(a: &Position<i32>, b: &Position<i32>, radius: u32) -> (hit: bool)
    ensures
        hit == within(*a, *b, radius),
{
    proof {
        lemma_square_monotonic(radius as int, 0xffff_ffff);
    }
    let reach: u128 = (radius as u128) * (radius as u128);
    distance_squared(a, b) < reach
}

/// Holds `v` to the closed interval from `lo` to `hi`.
pub fn clamp(v: i128, lo: i32, hi: i32) -> (r: i32)
    requires
        lo <= hi,
    ensures
        r == clamped(v as int, lo as int, hi as int),
{
    if v < lo as i128 {
        lo
    } else if v > hi as i128 {
        hi
    } else {
        v as i32
    }
}

/// The whole part of the square root of `n`, found by bisection.
pub fn integer_sqrt(n: u128) -> (r: u64)
    ensures
        r == isqrt(n as int),
        is_isqrt(n as int, r as int),
{
    let mut lo: u128 = 0;
    let mut hi: u128 = 0x1_0000_0000_0000_0000;
    assert(square(0x1_0000_0000_0000_0000) == 0x1_0000_0000_0000_0000_0000_0000_0000_0000)
        by (nonlinear_arith);
    while hi - lo > 1
        invariant
            lo < hi <= 0x1_0000_0000_0000_0000,
            square(lo as int) <= n < square(hi as int),
        decreases hi - lo,
    {
        let mid: u128 = lo + (hi - lo) / 2;
        proof {
            lemma_square_monotonic(mid as int, 0xffff_ffff_ffff_ffff);
            assert(square(0xffff_ffff_ffff_ffff) < 0x1_0000_0000_0000_0000_0000_0000_0000_0000)
                by (nonlinear_arith);
        }
        if mid * mid <= n {
            lo = mid;
        } else {
            hi = mid;
        }
    }
    proof {
        lemma_isqrt_unique(n as int, lo as int);
    }
    lo as u64
}

/// `d * s / len`, rounded toward zero.
pub open spec fn scaled(d: int, s: int, len: int) -> int {
    if d >= 0 {
        (d * s) / len
    } else {
        -(((-d) * s) / len)
    }
}

/// Where a coordinate `from` stands after it moved toward `to` by the part
/// `speed / len` of the way, rounded toward `from`.
pub open spec fn advanced(from: int, to: int, speed: int, len: int) -> int {
    from + scaled(to - from, speed, len)
}

/// Whether `mid` lies on the closed stretch between `from` and `to`.
pub open spec fn between(from: int, mid: int, to: int) -> bool {
    (from <= mid <= to) || (to <= mid <= from)
}

/// Where a pursuer that stands at `from` is after one step of length `speed`
/// toward `to`. It lands on `to` where `to` is in its reach; otherwise each
/// component moves by its share `speed / length` of the way, the length taken
/// as a whole number and the share rounded toward zero.
pub open spec fn pursued(from: Position<i32>, to: Position<i32>, speed: u32) -> Position<i32> {
    if dist2(to, from) <= square(speed as int) {
        to
    } else {
        let len = isqrt(dist2(to, from));
        Position {
            x: advanced(from.x as int, to.x as int, speed as int, len) as i32,
            y: advanced(from.y as int, to.y as int, speed as int, len) as i32,
        }
    }
}

/// What is left of a way of length `a` along one axis after the share
/// `s / len` of it, rounded down, has been walked.
pub proof fn lemma_axis_remainder(a: int, s: int, len: int)
    requires
        0 <= a,
        0 <= s <= len,
        0 < len,
    ensures
        0 <= (a * s) / len <= a,
        a * (len - s) <= len * (a - (a * s) / len) < a * (len - s) + len,
{
    let q = (a * s) / len;
    assert(q * len <= a * s < q * len + len && 0 <= q) by (nonlinear_arith)
        requires
            q == (a * s) / len,
            0 <= a,
            0 <= s,
            0 < len,
    ;
    assert(a * s <= a * len) by (nonlinear_arith)
        requires
            0 <= a,
            s <= len,
    ;
    assert(q <= a) by (nonlinear_arith)
        requires
            q * len <= a * len,
            0 < len,
    ;
    assert(len * (a - q) == len * a - q * len) by (nonlinear_arith);
    assert(a * (len - s) == len * a - a * s) by (nonlinear_arith);
}

/// The whole part of the root of a distance that exceeds `speed` is at least
/// `speed`, and at least one.
pub proof fn lemma_out_of_reach(d2: int, speed: int, len: int)
    requires
        0 <= speed,
        square(speed) < d2,
        is_isqrt(d2, len),
    ensures
        speed <= len,
        0 < len,
{
    if len < speed {
        lemma_square_monotonic(len + 1, speed);
    }
    lemma_square_even(speed);
    if len == 0 {
        assert(square(1) == 1);
    }
}

/// One coordinate of a pursuit step stays on the stretch between where the
/// pursuer stood and where its target stands.
pub proof fn lemma_advanced_between(from: int, to: int, speed: int, len: int)
    requires
        0 <= speed <= len,
        0 < len,
    ensures
        between(from, advanced(from, to, speed, len), to),
        gap_between(to, advanced(from, to, speed, len)) == gap_between(to, from) - (gap_between(
            to,
            from,
        ) * speed) / len,
{
    lemma_axis_remainder(gap_between(to, from), speed, len);
}

/// The length that is left of a way `(a, b)` of whole length `len` after the
/// share `s / len` of each component, rounded down, has been walked: it is
/// `len - s`, less than three units of rounding apart.
pub proof fn lemma_remaining_length(a: int, b: int, s: int, len: int)
    requires
        0 <= a,
        0 <= b,
        0 <= s,
        square(s) < square(a) + square(b),
        is_isqrt(square(a) + square(b), len),
    ensures
        square(len - s) <= square(a - (a * s) / len) + square(b - (b * s) / len) < square(
            len - s + 3,
        ),
{
    lemma_out_of_reach(square(a) + square(b), s, len);
    lemma_axis_remainder(a, s, len);
    lemma_axis_remainder(b, s, len);
    let m = len - s;
    let ra = a - (a * s) / len;
    let rb = b - (b * s) / len;
    let l2 = square(len);
    let m2 = square(m);
    lemma_square_even(a);
    lemma_square_even(b);
    lemma_square_even(m);
    lemma_square_even(len);
    lemma_square_even(ra);
    lemma_square_even(rb);
    // Each component is at most the whole length.
    if a > len {
        lemma_square_monotonic(len + 1, a);
    }
    if b > len {
        lemma_square_monotonic(len + 1, b);
    }
    assert(a * m >= 0 && b * m >= 0) by (nonlinear_arith)
        requires
            a >= 0,
            b >= 0,
            m >= 0,
    ;
    // From below.
    lemma_square_monotonic(a * m, len * ra);
    lemma_square_monotonic(b * m, len * rb);
    assert(square(len * ra) == l2 * square(ra) && square(len * rb) == l2 * square(rb))
        by (nonlinear_arith)
        requires
            l2 == len * len,
    ;
    assert(square(a * m) == m2 * square(a) && square(b * m) == m2 * square(b))
        by (nonlinear_arith)
        requires
            m2 == m * m,
    ;
    assert(m2 * square(a) + m2 * square(b) == m2 * (square(a) + square(b)))
        by (nonlinear_arith);
    assert(m2 * l2 <= m2 * (square(a) + square(b))) by (nonlinear_arith)
        requires
            m2 >= 0,
            l2 <= square(a) + square(b),
    ;
    assert(l2 * square(ra) + l2 * square(rb) == l2 * (square(ra) + square(rb)))
        by (nonlinear_arith);
    assert(l2 > 0) by (nonlinear_arith)
        requires
            l2 == len * len,
            len > 0,
    ;
    assert(m2 <= square(ra) + square(rb)) by (nonlinear_arith)
        requires
            l2 > 0,
            l2 * m2 <= l2 * (square(ra) + square(rb)),
    ;
    // From above.
    lemma_square_strictly_monotonic(len * ra, a * m + len);
    lemma_square_strictly_monotonic(len * rb, b * m + len);
    assert(square(a * m + len) == m2 * square(a) + 2 * (a * (m * len)) + l2 && square(
        b * m + len,
    ) == m2 * square(b) + 2 * (b * (m * len)) + l2) by (nonlinear_arith)
        requires
            m2 == m * m,
            l2 == len * len,
    ;
    assert(square(len + 1) == l2 + 2 * len + 1) by (nonlinear_arith)
        requires
            l2 == len * len,
    ;
    assert(m2 * (square(a) + square(b)) <= m2 * (l2 + 2 * len)) by (nonlinear_arith)
        requires
            m2 >= 0,
            square(a) + square(b) <= l2 + 2 * len,
    ;
    assert(m2 * (l2 + 2 * len) == m2 * l2 + 2 * (m2 * len)) by (nonlinear_arith);
    assert(m2 * len <= m * l2) by (nonlinear_arith)
        requires
            m2 == m * m,
            l2 == len * len,
            0 <= m <= len,
    ;
    assert(a * (m * len) <= m * l2 && b * (m * len) <= m * l2) by (nonlinear_arith)
        requires
            l2 == len * len,
            0 <= m,
            0 <= len,
            0 <= a <= len,
            0 <= b <= len,
    ;
    assert(square(m + 3) * l2 == m2 * l2 + 6 * (m * l2) + 9 * l2) by (nonlinear_arith)
        requires
            m2 == m * m,
    ;
    assert(square(ra) + square(rb) < square(m + 3)) by (nonlinear_arith)
        requires
            l2 > 0,
            l2 * (square(ra) + square(rb)) < square(m + 3) * l2,
    ;
}

/// A pursuer whose target is in its reach lands on it.
pub proof fn lemma_pursuit_arrives(from: Position<i32>, to: Position<i32>, speed: u32)
    requires
        dist2(to, from) <= square(speed as int),
    ensures
        pursued(from, to, speed) == to,
{
}

/// A pursuer never passes its target: on each axis it stays on the stretch
/// between where it stood and where the target stands, so the distance to
/// the target does not grow.
pub proof fn lemma_pursuit_never_overshoots(from: Position<i32>, to: Position<i32>, speed: u32)
    ensures
        between(from.x as int, pursued(from, to, speed).x as int, to.x as int),
        between(from.y as int, pursued(from, to, speed).y as int, to.y as int),
        0 <= dist2(to, pursued(from, to, speed)) <= dist2(to, from),
{
    let after = pursued(from, to, speed);
    lemma_square_even(to.x - from.x);
    lemma_square_even(to.y - from.y);
    lemma_square_even(to.x - after.x);
    lemma_square_even(to.y - after.y);
    if dist2(to, from) > square(speed as int) {
        let len = isqrt(dist2(to, from));
        lemma_isqrt_exists(dist2(to, from));
        lemma_out_of_reach(dist2(to, from), speed as int, len);
        lemma_advanced_between(from.x as int, to.x as int, speed as int, len);
        lemma_advanced_between(from.y as int, to.y as int, speed as int, len);
        lemma_square_monotonic(
            gap_between(to.x as int, after.x as int),
            gap_between(to.x as int, from.x as int),
        );
        lemma_square_monotonic(
            gap_between(to.y as int, after.y as int),
            gap_between(to.y as int, from.y as int),
        );
    } else {
        assert(square(0) == 0);
    }
}

/// A pursuer whose target is out of its reach comes nearer by its speed: with
/// `len` the whole part of the distance before the step, the distance after
/// it is at least `len - speed` and less than `len - speed + 3`.
pub proof fn lemma_pursuit_closes_in(from: Position<i32>, to: Position<i32>, speed: u32)
    requires
        dist2(to, from) > square(speed as int),
    ensures
        square(isqrt(dist2(to, from)) - speed) <= dist2(to, pursued(from, to, speed)) < square(
            isqrt(dist2(to, from)) - speed + 3,
        ),
        speed <= isqrt(dist2(to, from)),
{
    let after = pursued(from, to, speed);
    let len = isqrt(dist2(to, from));
    let a = gap_between(to.x as int, from.x as int);
    let b = gap_between(to.y as int, from.y as int);
    lemma_square_even(to.x - from.x);
    lemma_square_even(to.y - from.y);
    lemma_square_even(to.x - after.x);
    lemma_square_even(to.y - after.y);
    lemma_isqrt_exists(dist2(to, from));
    lemma_out_of_reach(dist2(to, from), speed as int, len);
    lemma_advanced_between(from.x as int, to.x as int, speed as int, len);
    lemma_advanced_between(from.y as int, to.y as int, speed as int, len);
    lemma_remaining_length(a, b, speed as int, len);
}

/// The same in whole numbers: the whole part of the distance after the step
/// is the whole part of the distance before it less the speed, or at most
/// two more.
pub proof fn lemma_pursuit_whole_distance(from: Position<i32>, to: Position<i32>, speed: u32)
    requires
        dist2(to, from) > square(speed as int),
    ensures
        isqrt(dist2(to, from)) - speed <= isqrt(dist2(to, pursued(from, to, speed))) <= isqrt(
            dist2(to, from),
        ) - speed + 2,
{
    let m = isqrt(dist2(to, from)) - speed;
    let after = dist2(to, pursued(from, to, speed));
    let left = isqrt(after);
    lemma_pursuit_closes_in(from, to, speed);
    lemma_square_even(m);
    lemma_isqrt_exists(after);
    if left < m {
        lemma_square_monotonic(left + 1, m);
    }
    if left >= m + 3 {
        lemma_square_monotonic(m + 3, left);
    }
}

/// A pursuer without speed, and one that stands on its target, stays where
/// it is.
pub proof fn lemma_pursuit_stays(from: Position<i32>, to: Position<i32>, speed: u32)
    ensures
        pursued(from, to, 0) == from,
        pursued(from, from, speed) == from,
{
    assert(square(0) == 0);
    lemma_square_even(speed as int);
    lemma_square_even(to.x - from.x);
    lemma_square_even(to.y - from.y);
    if dist2(to, from) > 0 {
        let len = isqrt(dist2(to, from));
        lemma_isqrt_exists(dist2(to, from));
        lemma_out_of_reach(dist2(to, from), 0, len);
        lemma_axis_remainder(gap_between(to.x as int, from.x as int), 0, len);
        lemma_axis_remainder(gap_between(to.y as int, from.y as int), 0, len);
        lemma_advanced_between(from.x as int, to.x as int, 0, len);
        lemma_advanced_between(from.y as int, to.y as int, 0, len);
        assert(gap_between(to.x as int, from.x as int) * 0 == 0) by (nonlinear_arith);
        assert(gap_between(to.y as int, from.y as int) * 0 == 0) by (nonlinear_arith);
        assert(0int / len == 0) by (nonlinear_arith)
            requires
                len > 0,
        ;
    } else {
        assert(to.x == from.x && to.y == from.y) by (nonlinear_arith)
            requires
                (to.x - from.x) * (to.x - from.x) + (to.y - from.y) * (to.y - from.y) <= 0,
        ;
    }
}

/// One coordinate of a pursuit step.
fn advance_axis(from: i32, to: i32, speed: u32, len: u64) -> (r: i32)
    requires
        speed <= len,
        0 < len,
    ensures
        r == advanced(from as int, to as int, speed as int, len as int),
{
    let way: u64 = gap(to, from);
    proof {
        lemma_axis_remainder(way as int, speed as int, len as int);
        assert(way * speed <= 0xffff_ffff * 0xffff_ffff) by (nonlinear_arith)
            requires
                0 <= way <= 0xffff_ffff,
                0 <= speed <= 0xffff_ffff,
        ;
    }
    let share: u64 = (((way as u128) * (speed as u128)) / (len as u128)) as u64;
    if to >= from {
        (from as i64 + share as i64) as i32
    } else {
        (from as i64 - share as i64) as i32
    }
}

/// One step of a pursuit: where a pursuer that stands at `from` is after it
/// moved by `speed` toward `to`.
pub fn pursue(from: &Position<i32>, to: &Position<i32>, speed: u32) -> (p: Position<i32>)
    ensures
        p == pursued(*from, *to, speed),
{
    let d2: u128 = distance_squared(to, from);
    proof {
        lemma_square_monotonic(speed as int, 0xffff_ffff);
    }
    let reach: u128 = (speed as u128) * (speed as u128);
    if d2 <= reach {
        return *to;
    }
    let len: u64 = integer_sqrt(d2);
    proof {
        lemma_out_of_reach(d2 as int, speed as int, len as int);
        lemma_advanced_between(from.x as int, to.x as int, speed as int, len as int);
        lemma_advanced_between(from.y as int, to.y as int, speed as int, len as int);
    }
    let x: i32 = advance_axis(from.x, to.x, speed, len);
    let y: i32 = advance_axis(from.y, to.y, speed, len);
    Position { x, y }
}

} // verus!
