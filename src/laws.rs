//! Properties that relate several operations of the scalar and vector types.
use vstd::prelude::*;
use crate::num::{abs, fits_i32, fits_i64, floor_sqrt, fx_div, fx_mul, fx_recip, fx_sqrt, is_floor_sqrt, lemma_floor_sqrt, resolution_ok, trunc_div, Fx32Var};
use crate::vec::{FxVecVar2, FxVecVar3, FxVecVar4};
use vstd::arithmetic::div_mod::lemma_fundamental_div_mod;

verus! {

/// Adding `b` and then subtracting it gives back `a`, whenever the sum is
/// representable.
pub proof fn add_then_sub<const N: u64>(a: Fx32Var<N>, b: Fx32Var<N>)
    requires
        fits_i64(a.internal + b.internal),
    ensures
        fits_i64((a.internal + b.internal) - b.internal),
        (a.internal + b.internal) - b.internal == a.internal,
{
}

/// Multiplying by one keeps a value, and multiplying by zero gives zero.
pub proof fn mul_one_and_zero<const N: u64>(a: Fx32Var<N>)
    requires
        resolution_ok(N),
    ensures
        fx_mul(a.internal as int, N as int, N as int) == a.internal,
        fx_mul(a.internal as int, 0, N as int) == 0,
{
    let n = N as int;
    let x = a.internal as int;
    assert(abs(x * n) == abs(x) * n) by (nonlinear_arith)
        requires
            n >= 1,
    ;
    assert(abs(x) * n / n == abs(x)) by (nonlinear_arith)
        requires
            n >= 1,
    ;
    assert(x * n >= 0 <==> x >= 0) by (nonlinear_arith)
        requires
            n >= 1,
    ;
    assert(x * 0 == 0);
    assert(0int / n == 0) by (nonlinear_arith)
        requires
            n >= 1,
    ;
}

/// A nonzero value divided by itself is exactly one.
pub proof fn div_self_is_one<const N: u64>(a: Fx32Var<N>)
    requires
        resolution_ok(N),
        a.internal != 0,
    ensures
        fx_div(a.internal as int, a.internal as int, N as int) == N,
{
    let n = N as int;
    let x = a.internal as int;
    assert(abs(x * n) == abs(x) * n) by (nonlinear_arith)
        requires
            n >= 1,
    ;
    assert(abs(x) * n / abs(x) == n) by (nonlinear_arith)
        requires
            abs(x) >= 1,
    ;
    assert(x * n >= 0 <==> x > 0) by (nonlinear_arith)
        requires
            n >= 1,
            x != 0,
    ;
}

/// Rebuilding a value from its raw form gives the same value.
pub proof fn raw_round_trip<const N: u64>(a: Fx32Var<N>)
    ensures
        (Fx32Var::<N> { internal: a.internal }) == a,
{
}

/// An integer taken into fixed point and back is unchanged.
pub proof fn integer_round_trip<const N: u64>(k: i32)
    requires
        resolution_ok(N),
    ensures
        fits_i64(k * N),
        fits_i32(trunc_div(k * N, N as int)),
        trunc_div(k * N, N as int) == k,
{
    let n = N as int;
    let x = k as int;
    assert(-0x4000_0000_0000_0000 <= x * n <= 0x4000_0000_0000_0000) by (nonlinear_arith)
        requires
            1 <= n <= 0x8000_0000,
            -0x8000_0000 <= x <= 0x7fff_ffff,
    ;
    assert(abs(x * n) == abs(x) * n) by (nonlinear_arith)
        requires
            n >= 1,
    ;
    assert(abs(x) * n / n == abs(x)) by (nonlinear_arith)
        requires
            n >= 1,
    ;
    assert(x * n >= 0 <==> x >= 0) by (nonlinear_arith)
        requires
            n >= 1,
    ;
}

/// The square root of a non-negative value's square is that value, up to the
/// error that the two roundings bring: `r <= a` and `a * a < (r + 1)^2 + N`
/// in raw units.
pub proof fn sqrt_of_square<const N: u64>(a: Fx32Var<N>)
    requires
        resolution_ok(N),
        a.internal >= 0,
    ensures
        ({
            let r = fx_sqrt(fx_mul(a.internal as int, a.internal as int, N as int), N as int);
            r <= a.internal && a.internal * a.internal < (r + 1) * (r + 1) + N
        }),
{
    let n = N as int;
    let x = a.internal as int;
    let sq = x * x;
    assert(sq >= 0) by (nonlinear_arith)
        requires
            sq == x * x,
    ;
    let m = fx_mul(x, x, n);
    assert(m == sq / n);
    lemma_fundamental_div_mod(sq, n);
    let v = m * n;
    assert(v <= sq && sq < v + n) by (nonlinear_arith)
        requires
            sq == n * m + sq % n,
            0 <= sq % n < n,
            v == m * n,
    ;
    assert(m >= 0) by (nonlinear_arith)
        requires
            m == sq / n,
            sq >= 0,
            n >= 1,
    ;
    assert(v >= 0) by (nonlinear_arith)
        requires
            m >= 0,
            n >= 1,
            v == m * n,
    ;
    lemma_floor_sqrt(v);
    let r = floor_sqrt(v);
    assert(is_floor_sqrt(r, v));
    assert(r <= x) by (nonlinear_arith)
        requires
            0 <= r,
            0 <= x,
            r * r <= v,
            v <= x * x,
    ;
}

/// The reciprocal of a nonzero value whose magnitude is at most `N * N` is
/// nonzero, and taking the reciprocal twice gives a value `r` of the same sign
/// with `|a| <= |r|` and `(|r| - |a|) * |recip(a)| < |a|`.
pub proof fn recip_twice<const N: u64>(a: Fx32Var<N>)
    requires
        resolution_ok(N),
        a.internal != 0,
        abs(a.internal as int) <= N * N,
    ensures
        ({
            let r1 = fx_recip(a.internal as int, N as int);
            let r2 = fx_recip(r1, N as int);
            &&& r1 != 0
            &&& (r2 > 0) == (a.internal > 0)
            &&& abs(a.internal as int) <= abs(r2)
            &&& (abs(r2) - abs(a.internal as int)) * abs(r1) < abs(a.internal as int)
        }),
{
    let n = N as int;
    let m = n * n;
    assert(m >= 1) by (nonlinear_arith)
        requires
            n >= 1,
            m == n * n,
    ;
    let x = a.internal as int;
    let ax = abs(x);
    let q1 = m / ax;
    lemma_fundamental_div_mod(m, ax);
    assert(ax * q1 <= m < ax * q1 + ax) by (nonlinear_arith)
        requires
            m == ax * q1 + m % ax,
            0 <= m % ax < ax,
    ;
    assert(q1 >= 1) by (nonlinear_arith)
        requires
            ax <= m,
            m < ax * q1 + ax,
            ax >= 1,
    ;
    let r1 = fx_recip(x, n);
    assert(abs(r1) == q1);
    assert((r1 > 0) == (x > 0));
    let q2 = m / q1;
    lemma_fundamental_div_mod(m, q1);
    assert(q1 * q2 <= m) by (nonlinear_arith)
        requires
            m == q1 * q2 + m % q1,
            0 <= m % q1,
    ;
    assert(q1 * q2 + q1 > m) by (nonlinear_arith)
        requires
            m == q1 * q2 + m % q1,
            m % q1 < q1,
    ;
    assert(ax <= q2) by (nonlinear_arith)
        requires
            ax * q1 <= m,
            q1 * q2 + q1 > m,
            q1 >= 1,
    ;
    assert((q2 - ax) * q1 < ax) by (nonlinear_arith)
        requires
            q1 * q2 <= m,
            m < ax * q1 + ax,
    ;
    let r2 = fx_recip(r1, n);
    assert(abs(r2) == q2);
    assert(q2 >= 1);
}

/// Normalizing the zero vector with the zero fallback gives the zero vector.
pub proof fn normalize_zero_vec2<const N: u64>(v: FxVecVar2<N>)
    requires
        resolution_ok(N),
        v.is_splat(0),
    ensures
        v.normalize_ok(),
        v.normalize_spec(FxVecVar2 { x: Fx32Var { internal: 0 }, y: Fx32Var { internal: 0 } }) == v,
{
    lemma_zero_length(N as int);
}

/// Normalizing the zero vector with the zero fallback gives the zero vector.
pub proof fn normalize_zero_vec3<const N: u64>(v: FxVecVar3<N>)
    requires
        resolution_ok(N),
        v.is_splat(0),
    ensures
        v.normalize_ok(),
        v.normalize_spec(
            FxVecVar3 {
                x: Fx32Var { internal: 0 },
                y: Fx32Var { internal: 0 },
                z: Fx32Var { internal: 0 },
            },
        ) == v,
{
    lemma_zero_length(N as int);
}

/// Normalizing the zero vector with the zero fallback gives the zero vector.
pub proof fn normalize_zero_vec4<const N: u64>(v: FxVecVar4<N>)
    requires
        resolution_ok(N),
        v.is_splat(0),
    ensures
        v.normalize_ok(),
        v.normalize_spec(
            FxVecVar4 {
                x: Fx32Var { internal: 0 },
                y: Fx32Var { internal: 0 },
                z: Fx32Var { internal: 0 },
                w: Fx32Var { internal: 0 },
            },
        ) == v,
{
    lemma_zero_length(N as int);
}

proof fn lemma_zero_length(n: int)
    requires
        n >= 1,
    ensures
        fx_mul(0, 0, n) == 0,
        fx_sqrt(0, n) == 0,
{
    assert(0int / n == 0) by (nonlinear_arith)
        requires
            n >= 1,
    ;
    assert(floor_sqrt(0) == 0);
}

/// The unit axes x and y are orthogonal: their dot product is zero.
pub proof fn unit_axes_orthogonal<const N: u64>(e1: FxVecVar2<N>, e2: FxVecVar2<N>)
    requires
        resolution_ok(N),
        e1.x.internal == N && e1.y.internal == 0,
        e2.x.internal == 0 && e2.y.internal == N,
    ensures
        e1.dot_ok(e2),
        e1.dot_spec(e2) == 0,
{
    let n = N as int;
    assert(n * 0 == 0 && 0 * n == 0);
    assert(0int / n == 0) by (nonlinear_arith)
        requires
            n >= 1,
    ;
}

/// One direction of "a normalized vector has length one", for 2-vectors:
/// normalizing a vector whose length `l` (raw) is nonzero gives a vector
/// whose length `m` (raw) satisfies `m^2 * l^2 < N^2 * ((l + 1)^2 + 2 * N)`;
/// so `m` exceeds `N` by no more than the roundings allow. No lower bound is
/// stated: a vector of small length can come out much shorter than one.
pub proof fn normalized_length_upper_vec2<const N: u64>(v: FxVecVar2<N>)
    requires
        resolution_ok(N),
        v.normalize_ok(),
        v.length_spec() != 0,
    ensures
        ({
            let zero = FxVecVar2 { x: Fx32Var { internal: 0 }, y: Fx32Var { internal: 0 } };
            let l = v.length_spec();
            let m = v.normalize_spec(zero).length_spec();
            m * m * (l * l) < N * N * ((l + 1) * (l + 1) + 2 * N)
        }),
{
    let n = N as int;
    let zero = FxVecVar2 { x: Fx32Var { internal: 0 }, y: Fx32Var { internal: 0 } };
    let cx = v.x.internal as int;
    let cy = v.y.internal as int;
    let mx = lemma_square_div(cx, n);
    let my = lemma_square_div(cy, n);
    let d = mx + my;
    let sq = cx * cx + cy * cy;
    assert(v.dot_spec(v) == d);
    let (l, r) = lemma_length_and_recip(d, n);
    assert(v.length_spec() == l);
    assert(v.length_recip_spec() == Some(r));
    lemma_bound_positive(l, n, 2);
    if r == 0 {
        lemma_zero_length(n);
        assert(v.normalize_spec(zero) == zero);
        assert(zero.dot_spec(zero) == 0);
        assert(zero.length_spec() == 0);
        assert(0 * 0 * (l * l) == 0) by (nonlinear_arith);
    } else {
        let u = v.scaled(r);
        assert(v.normalize_spec(zero) == u);
        let ux = lemma_scaled_component(cx, r, n);
        let uy = lemma_scaled_component(cy, r, n);
        assert(u.x.internal == ux);
        assert(u.y.internal == uy);
        let qx = lemma_square_div(ux, n);
        let qy = lemma_square_div(uy, n);
        let d2 = qx + qy;
        let usq = ux * ux + uy * uy;
        assert(u.dot_spec(u) == d2);
        assert(sq < n * (d + 2)) by (nonlinear_arith)
            requires
                cx * cx < mx * n + n,
                cy * cy < my * n + n,
                d == mx + my,
                sq == cx * cx + cy * cy,
        ;
        assert(d2 * n <= usq) by (nonlinear_arith)
            requires
                qx * n <= ux * ux,
                qy * n <= uy * uy,
                d2 == qx + qy,
                usq == ux * ux + uy * uy,
        ;
        assert(usq * (n * n) <= sq * (r * r)) by (nonlinear_arith)
            requires
                ux * ux * (n * n) <= cx * cx * (r * r),
                uy * uy * (n * n) <= cy * cy * (r * r),
                sq == cx * cx + cy * cy,
                usq == ux * ux + uy * uy,
        ;
        lemma_normalized_bound(n, 2, sq, d, l, r, usq, d2);
        assert(u.length_spec() == floor_sqrt(d2 * n));
    }
}

/// One direction of "a normalized vector has length one", for 3-vectors:
/// normalizing a vector whose length `l` (raw) is nonzero gives a vector
/// whose length `m` (raw) satisfies `m^2 * l^2 < N^2 * ((l + 1)^2 + 3 * N)`;
/// so `m` exceeds `N` by no more than the roundings allow. No lower bound is
/// stated: a vector of small length can come out much shorter than one.
pub proof fn normalized_length_upper_vec3<const N: u64>(v: FxVecVar3<N>)
    requires
        resolution_ok(N),
        v.normalize_ok(),
        v.length_spec() != 0,
    ensures
        ({
            let zero = FxVecVar3 { x: Fx32Var { internal: 0 }, y: Fx32Var { internal: 0 }, z: Fx32Var { internal: 0 } };
            let l = v.length_spec();
            let m = v.normalize_spec(zero).length_spec();
            m * m * (l * l) < N * N * ((l + 1) * (l + 1) + 3 * N)
        }),
{
    let n = N as int;
    let zero = FxVecVar3 { x: Fx32Var { internal: 0 }, y: Fx32Var { internal: 0 }, z: Fx32Var { internal: 0 } };
    let cx = v.x.internal as int;
    let cy = v.y.internal as int;
    let cz = v.z.internal as int;
    let mx = lemma_square_div(cx, n);
    let my = lemma_square_div(cy, n);
    let mz = lemma_square_div(cz, n);
    let d = mx + my + mz;
    let sq = cx * cx + cy * cy + cz * cz;
    assert(v.dot_spec(v) == d);
    let (l, r) = lemma_length_and_recip(d, n);
    assert(v.length_spec() == l);
    assert(v.length_recip_spec() == Some(r));
    lemma_bound_positive(l, n, 3);
    if r == 0 {
        lemma_zero_length(n);
        assert(v.normalize_spec(zero) == zero);
        assert(zero.dot_spec(zero) == 0);
        assert(zero.length_spec() == 0);
        assert(0 * 0 * (l * l) == 0) by (nonlinear_arith);
    } else {
        let u = v.scaled(r);
        assert(v.normalize_spec(zero) == u);
        let ux = lemma_scaled_component(cx, r, n);
        let uy = lemma_scaled_component(cy, r, n);
        let uz = lemma_scaled_component(cz, r, n);
        assert(u.x.internal == ux);
        assert(u.y.internal == uy);
        assert(u.z.internal == uz);
        let qx = lemma_square_div(ux, n);
        let qy = lemma_square_div(uy, n);
        let qz = lemma_square_div(uz, n);
        let d2 = qx + qy + qz;
        let usq = ux * ux + uy * uy + uz * uz;
        assert(u.dot_spec(u) == d2);
        assert(sq < n * (d + 3)) by (nonlinear_arith)
            requires
                cx * cx < mx * n + n,
                cy * cy < my * n + n,
                cz * cz < mz * n + n,
                d == mx + my + mz,
                sq == cx * cx + cy * cy + cz * cz,
        ;
        assert(d2 * n <= usq) by (nonlinear_arith)
            requires
                qx * n <= ux * ux,
                qy * n <= uy * uy,
                qz * n <= uz * uz,
                d2 == qx + qy + qz,
                usq == ux * ux + uy * uy + uz * uz,
        ;
        assert(usq * (n * n) <= sq * (r * r)) by (nonlinear_arith)
            requires
                ux * ux * (n * n) <= cx * cx * (r * r),
                uy * uy * (n * n) <= cy * cy * (r * r),
                uz * uz * (n * n) <= cz * cz * (r * r),
                sq == cx * cx + cy * cy + cz * cz,
                usq == ux * ux + uy * uy + uz * uz,
        ;
        lemma_normalized_bound(n, 3, sq, d, l, r, usq, d2);
        assert(u.length_spec() == floor_sqrt(d2 * n));
    }
}

/// One direction of "a normalized vector has length one", for 4-vectors:
/// normalizing a vector whose length `l` (raw) is nonzero gives a vector
/// whose length `m` (raw) satisfies `m^2 * l^2 < N^2 * ((l + 1)^2 + 4 * N)`;
/// so `m` exceeds `N` by no more than the roundings allow. No lower bound is
/// stated: a vector of small length can come out much shorter than one.
pub proof fn normalized_length_upper_vec4<const N: u64>(v: FxVecVar4<N>)
    requires
        resolution_ok(N),
        v.normalize_ok(),
        v.length_spec() != 0,
    ensures
        ({
            let zero = FxVecVar4 { x: Fx32Var { internal: 0 }, y: Fx32Var { internal: 0 }, z: Fx32Var { internal: 0 }, w: Fx32Var { internal: 0 } };
            let l = v.length_spec();
            let m = v.normalize_spec(zero).length_spec();
            m * m * (l * l) < N * N * ((l + 1) * (l + 1) + 4 * N)
        }),
{
    let n = N as int;
    let zero = FxVecVar4 { x: Fx32Var { internal: 0 }, y: Fx32Var { internal: 0 }, z: Fx32Var { internal: 0 }, w: Fx32Var { internal: 0 } };
    let cx = v.x.internal as int;
    let cy = v.y.internal as int;
    let cz = v.z.internal as int;
    let cw = v.w.internal as int;
    let mx = lemma_square_div(cx, n);
    let my = lemma_square_div(cy, n);
    let mz = lemma_square_div(cz, n);
    let mw = lemma_square_div(cw, n);
    let d = mx + my + mz + mw;
    let sq = cx * cx + cy * cy + cz * cz + cw * cw;
    assert(v.dot_spec(v) == d);
    let (l, r) = lemma_length_and_recip(d, n);
    assert(v.length_spec() == l);
    assert(v.length_recip_spec() == Some(r));
    lemma_bound_positive(l, n, 4);
    if r == 0 {
        lemma_zero_length(n);
        assert(v.normalize_spec(zero) == zero);
        assert(zero.dot_spec(zero) == 0);
        assert(zero.length_spec() == 0);
        assert(0 * 0 * (l * l) == 0) by (nonlinear_arith);
    } else {
        let u = v.scaled(r);
        assert(v.normalize_spec(zero) == u);
        let ux = lemma_scaled_component(cx, r, n);
        let uy = lemma_scaled_component(cy, r, n);
        let uz = lemma_scaled_component(cz, r, n);
        let uw = lemma_scaled_component(cw, r, n);
        assert(u.x.internal == ux);
        assert(u.y.internal == uy);
        assert(u.z.internal == uz);
        assert(u.w.internal == uw);
        let qx = lemma_square_div(ux, n);
        let qy = lemma_square_div(uy, n);
        let qz = lemma_square_div(uz, n);
        let qw = lemma_square_div(uw, n);
        let d2 = qx + qy + qz + qw;
        let usq = ux * ux + uy * uy + uz * uz + uw * uw;
        assert(u.dot_spec(u) == d2);
        assert(sq < n * (d + 4)) by (nonlinear_arith)
            requires
                cx * cx < mx * n + n,
                cy * cy < my * n + n,
                cz * cz < mz * n + n,
                cw * cw < mw * n + n,
                d == mx + my + mz + mw,
                sq == cx * cx + cy * cy + cz * cz + cw * cw,
        ;
        assert(d2 * n <= usq) by (nonlinear_arith)
            requires
                qx * n <= ux * ux,
                qy * n <= uy * uy,
                qz * n <= uz * uz,
                qw * n <= uw * uw,
                d2 == qx + qy + qz + qw,
                usq == ux * ux + uy * uy + uz * uz + uw * uw,
        ;
        assert(usq * (n * n) <= sq * (r * r)) by (nonlinear_arith)
            requires
                ux * ux * (n * n) <= cx * cx * (r * r),
                uy * uy * (n * n) <= cy * cy * (r * r),
                uz * uz * (n * n) <= cz * cz * (r * r),
                uw * uw * (n * n) <= cw * cw * (r * r),
                sq == cx * cx + cy * cy + cz * cz + cw * cw,
                usq == ux * ux + uy * uy + uz * uz + uw * uw,
        ;
        lemma_normalized_bound(n, 4, sq, d, l, r, usq, d2);
        assert(u.length_spec() == floor_sqrt(d2 * n));
    }
}
/// The raw length `l = floor_sqrt(d * n)` of a vector whose dot product with
/// itself is `d >= 0`, and the raw reciprocal `r = n^2 / l` when `l` is nonzero.
proof fn lemma_length_and_recip(d: int, n: int) -> (res: (int, int))
    requires
        d >= 0,
        n >= 1,
    ensures
        res.0 == fx_sqrt(d, n),
        is_floor_sqrt(res.0, d * n),
        res.0 != 0 ==> res.1 == fx_recip(res.0, n) && 0 <= res.1 && res.1 * res.0 <= n * n,
{
    assert(d * n >= 0) by (nonlinear_arith)
        requires
            d >= 0,
            n >= 1,
    ;
    lemma_floor_sqrt(d * n);
    let l = floor_sqrt(d * n);
    let nn = n * n;
    assert(nn >= 1) by (nonlinear_arith)
        requires
            n >= 1,
            nn == n * n,
    ;
    if l != 0 {
        let r = nn / l;
        assert(fx_recip(l, n) == r);
        lemma_fundamental_div_mod(nn, l);
        assert(0 <= r && r * l <= nn) by (nonlinear_arith)
            requires
                nn == l * r + nn % l,
                0 <= nn % l < l,
                nn >= 1,
                l >= 1,
        ;
        (l, r)
    } else {
        (l, 0)
    }
}

proof fn lemma_bound_positive(l: int, n: int, k: int)
    requires
        n >= 1,
        k >= 1,
        l >= 0,
    ensures
        n * n * ((l + 1) * (l + 1) + k * n) > 0,
{
    assert(n * n * ((l + 1) * (l + 1) + k * n) > 0) by (nonlinear_arith)
        requires
            n >= 1,
            k >= 1,
            l >= 0,
    ;
}

/// The arithmetic behind the normalized-length bound. `s` is the sum of the
/// squared raw components, `d` the dot product with itself (each square
/// divided by `n`, `k` of them), `l` the raw length, `r` its reciprocal, `u`
/// the sum of the squared scaled components and `d2` their dot product.
proof fn lemma_normalized_bound(n: int, k: int, s: int, d: int, l: int, r: int, u: int, d2: int)
    requires
        n >= 1,
        k >= 1,
        d >= 0,
        s < n * (d + k),
        l >= 1,
        is_floor_sqrt(l, d * n),
        r >= 1,
        r * l <= n * n,
        u * (n * n) <= s * (r * r),
        d2 >= 0,
        d2 * n <= u,
    ensures
        floor_sqrt(d2 * n) * floor_sqrt(d2 * n) * (l * l) < n * n * ((l + 1) * (l + 1) + k * n),
{
    assert(d2 * n >= 0) by (nonlinear_arith)
        requires
            d2 >= 0,
            n >= 1,
    ;
    lemma_floor_sqrt(d2 * n);
    let m = floor_sqrt(d2 * n);
    let nn = n * n;
    let pos = (l + 1) * (l + 1) + k * n;
    assert(nn >= 1 && n * (d + k) > 0) by (nonlinear_arith)
        requires
            n >= 1,
            nn == n * n,
            d + k >= 1,
    ;
    assert(m * m * nn < n * (d + k) * (r * r)) by (nonlinear_arith)
        requires
            m * m <= d2 * n,
            d2 * n <= u,
            u * nn <= s * (r * r),
            s < n * (d + k),
            r >= 1,
            nn >= 1,
    ;
    assert(m * m * nn * (l * l) < n * (d + k) * (nn * nn)) by (nonlinear_arith)
        requires
            m * m * nn < n * (d + k) * (r * r),
            0 <= r * l <= nn,
            l >= 1,
            n * (d + k) > 0,
    ;
    assert(n * (d + k) < pos) by (nonlinear_arith)
        requires
            d * n < (l + 1) * (l + 1),
            pos == (l + 1) * (l + 1) + k * n,
    ;
    assert(m * m * (l * l) * nn < pos * nn * nn) by (nonlinear_arith)
        requires
            m * m * nn * (l * l) < n * (d + k) * (nn * nn),
            n * (d + k) < pos,
            nn >= 1,
    ;
    assert(m * m * (l * l) < nn * pos) by (nonlinear_arith)
        requires
            m * m * (l * l) * nn < pos * nn * nn,
            nn >= 1,
    ;
}

/// The fixed-point square of `a` is `a * a / n`, with the remainder below `n`.
proof fn lemma_square_div(a: int, n: int) -> (m: int)
    requires
        n >= 1,
    ensures
        m == fx_mul(a, a, n),
        m >= 0,
        m * n <= a * a < m * n + n,
{
    assert(a * a >= 0) by (nonlinear_arith);
    let m = (a * a) / n;
    lemma_fundamental_div_mod(a * a, n);
    assert(m * n <= a * a < m * n + n) by (nonlinear_arith)
        requires
            a * a == n * m + (a * a) % n,
            0 <= (a * a) % n < n,
    ;
    assert(m >= 0) by (nonlinear_arith)
        requires
            m * n <= a * a,
            a * a < m * n + n,
            n >= 1,
    ;
    m
}

/// A component scaled by `r` fits in 64 bits when `a * r` does, and its
/// square times `n^2` is at most `(a * r)^2`.
proof fn lemma_scaled_component(a: int, r: int, n: int) -> (s: int)
    requires
        n >= 1,
        r >= 0,
        fits_i64(a * r),
    ensures
        s == fx_mul(a, r, n),
        fits_i64(s),
        (fx_mul(a, r, n) as i64) as int == s,
        s * s * (n * n) <= a * a * (r * r),
{
    let p = a * r;
    let q = abs(p) / n;
    lemma_fundamental_div_mod(abs(p), n);
    assert(q * n <= abs(p)) by (nonlinear_arith)
        requires
            abs(p) == n * q + abs(p) % n,
            0 <= abs(p) % n,
    ;
    assert(0 <= q <= abs(p)) by (nonlinear_arith)
        requires
            q * n <= abs(p),
            n >= 1,
            abs(p) >= 0,
            q == abs(p) / n,
    ;
    let s = fx_mul(a, r, n);
    assert(abs(s) == q);
    assert(s * s == q * q) by (nonlinear_arith)
        requires
            abs(s) == q,
    ;
    assert(p * p == abs(p) * abs(p)) by (nonlinear_arith);
    assert(q * q * (n * n) <= abs(p) * abs(p)) by (nonlinear_arith)
        requires
            0 <= q * n <= abs(p),
    ;
    assert(a * a * (r * r) == p * p) by (nonlinear_arith)
        requires
            p == a * r,
    ;
    s
}

} // verus!
