//! The fixed-point scalar `Fx32Var<N>`: a value stored as `value * N` in an
//! `i64`.
//!
//! Overflow policy: an operation whose intermediate product or result would
//! leave 64 bits (or 32 bits, for `as_i32`) is outside its precondition. Each
//! `requires` states the bound, so verified callers prove it and never wrap.
//! Division and multiplication round toward zero, as Rust's integer `/` does.
use vstd::prelude::*;

verus! {

/// Resolutions this library computes with: positive, and small enough that
/// `N * N` and `i32 * N` stay within 64 bits.
pub open spec fn resolution_ok(n: u64) -> bool {
    1 <= n <= 0x8000_0000
}

pub open spec fn fits_i64(v: int) -> bool {
    i64::MIN <= v <= i64::MAX
}

pub open spec fn fits_i32(v: int) -> bool {
    i32::MIN <= v <= i32::MAX
}

pub open spec fn abs(a: int) -> int {
    if a < 0 {
        -a
    } else {
        a
    }
}

/// Integer division that rounds toward zero, as Rust's `/` on signed integers.
pub open spec fn trunc_div(a: int, b: int) -> int {
    let q = abs(a) / abs(b);
    if (a >= 0) == (b > 0) {
        q
    } else {
        -q
    }
}

/// `r` is the integer square root of `v`: the largest integer whose square is
/// at most `v`.
pub open spec fn is_floor_sqrt(r: int, v: int) -> bool {
    0 <= r && r * r <= v < (r + 1) * (r + 1)
}

/// The integer square root, defined by counting up from zero.
pub open spec fn floor_sqrt(v: int) -> int
    decreases v,
{
    if v <= 0 {
        0
    } else {
        let r = floor_sqrt(v - 1);
        if (r + 1) * (r + 1) <= v {
            r + 1
        } else {
            r
        }
    }
}

/// Raw value of the fixed-point product of raw values `a` and `b`.
pub open spec fn fx_mul(a: int, b: int, n: int) -> int {
    trunc_div(a * b, n)
}

/// Raw value of the fixed-point quotient of raw values `a` and `b`.
pub open spec fn fx_div(a: int, b: int, n: int) -> int {
    trunc_div(a * n, b)
}

/// Raw value of the fixed-point square root of raw value `a`.
pub open spec fn fx_sqrt(a: int, n: int) -> int {
    floor_sqrt(a * n)
}

/// Raw value of the fixed-point reciprocal of a nonzero raw value `a`.
pub open spec fn fx_recip(a: int, n: int) -> int {
    trunc_div(n * n, a)
}

pub proof fn lemma_floor_sqrt(v: int)
    requires
        0 <= v,
    ensures
        is_floor_sqrt(floor_sqrt(v), v),
    decreases v,
{
    if v > 0 {
        lemma_floor_sqrt(v - 1);
        let r = floor_sqrt(v - 1);
        if (r + 1) * (r + 1) <= v {
            assert((r + 2) * (r + 2) > v) by (nonlinear_arith)
                requires
                    v - 1 < (r + 1) * (r + 1),
                    0 <= r,
            ;
        }
    }
}

pub proof fn lemma_floor_sqrt_unique(r: int, s: int, v: int)
    requires
        is_floor_sqrt(r, v),
        is_floor_sqrt(s, v),
    ensures
        r == s,
{
    if r < s {
        assert((r + 1) * (r + 1) <= s * s) by (nonlinear_arith)
            requires
                0 <= r < s,
        ;
    } else if s < r {
        assert((s + 1) * (s + 1) <= r * r) by (nonlinear_arith)
            requires
                0 <= s < r,
        ;
    }
}

/// Relies on `i64::isqrt`: the square root rounded down; it panics on a
/// negative argument, which `requires` leaves out.
#[verifier::external_body]
fn isqrt_i64(v: i64) -> (r: i64)
    requires
        v >= 0,
    ensures
        is_floor_sqrt(r as int, v as int),
{
    v.isqrt()
}

fn magnitude(a: i64) -> (m: u64)
    ensures
        m == abs(a as int),
{
    if a >= 0 {
        a as u64
    } else if a == i64::MIN {
        0x8000_0000_0000_0000u64
    } else {
        (-a) as u64
    }
}

/// Signed division rounding toward zero, computed on magnitudes.
fn div_toward_zero(a: i64, b: i64) -> (q: i64)
    requires
        b != 0,
        fits_i64(trunc_div(a as int, b as int)),
    ensures
        q == trunc_div(a as int, b as int),
{
    let ua = magnitude(a);
    let ub = magnitude(b);
    let m = ua / ub;
    if (a >= 0) == (b > 0) {
        m as i64
    } else if m == 0x8000_0000_0000_0000u64 {
        i64::MIN
    } else {
        -(m as i64)
    }
}

/// A fixed-point number: `internal` holds the value times the resolution `N`.
#[derive(Clone, Copy, Debug)]
pub struct Fx32Var<const N: u64> {
    pub internal: i64,
}

impl<const N: u64> PartialEq for Fx32Var<N> {
    fn eq(&self, other: &Self) -> (r: bool) {
        self.internal == other.internal
    }
}

impl<const N: u64> vstd::std_specs::cmp::PartialEqSpecImpl for Fx32Var<N> {
    open spec fn obeys_eq_spec() -> bool {
        true
    }

    open spec fn eq_spec(&self, other: &Self) -> bool {
        self.internal == other.internal
    }
}

impl<const N: u64> Eq for Fx32Var<N> {}

impl<const N: u64> Fx32Var<N> {
    /// Zero (raw 0).
    pub fn zero() -> (r: Self)
        ensures
            r.internal == 0,
    {
        Fx32Var { internal: 0 }
    }

    /// One (raw `N`).
    pub fn one() -> (r: Self)
        requires
            resolution_ok(N),
        ensures
            r.internal == N,
    {
        Fx32Var { internal: N as i64 }
    }

    /// The smallest value of the range: raw `i32::MIN`.
    pub fn min_value() -> (r: Self)
        ensures
            r.internal == i32::MIN,
    {
        Fx32Var { internal: i32::MIN as i64 }
    }

    /// The largest value of the range: raw `i32::MAX`.
    pub fn max_value() -> (r: Self)
        ensures
            r.internal == i32::MAX,
    {
        Fx32Var { internal: i32::MAX as i64 }
    }

    /// The smallest increment: raw 1.
    pub fn epsilon() -> (r: Self)
        ensures
            r.internal == 1,
    {
        Fx32Var { internal: 1 }
    }

    pub fn resolution() -> (r: i64)
        requires
            resolution_ok(N),
        ensures
            r == N,
    {
        N as i64
    }

    /// The integer `value`, exactly: raw `value * N`.
    pub fn new(value: i32) -> (r: Self)
        requires
            resolution_ok(N),
        ensures
            r.internal == value * N,
    {
        proof {
            lemma_i32_times_resolution(value as int, N as int);
        }
        Fx32Var { internal: value as i64 * N as i64 }
    }

    /// The raw value stored as it is, without scaling.
    pub fn from_raw(internal: i64) -> (r: Self)
        ensures
            r.internal == internal,
    {
        Fx32Var { internal }
    }

    /// Raw `integral * N + fractional`.
    pub fn from_parts(integral: i32, fractional: i32) -> (r: Self)
        requires
            resolution_ok(N),
        ensures
            r.internal == integral * N + fractional,
    {
        proof {
            lemma_i32_times_resolution(integral as int, N as int);
        }
        Fx32Var { internal: integral as i64 * N as i64 + fractional as i64 }
    }

    pub fn raw(self) -> (r: i64)
        ensures
            r == self.internal,
    {
        self.internal
    }

    /// The square root: the integer square root of `raw * N`.
    pub fn sqrt(self) -> (r: Self)
        requires
            resolution_ok(N),
            self.internal >= 0,
            fits_i64(self.internal * N),
        ensures
            r.internal == fx_sqrt(self.internal as int, N as int),
            is_floor_sqrt(r.internal as int, self.internal * N),
    {
        let v = self.internal * N as i64;
        let r = isqrt_i64(v);
        proof {
            lemma_floor_sqrt(v as int);
            lemma_floor_sqrt_unique(r as int, floor_sqrt(v as int), v as int);
        }
        Fx32Var { internal: r }
    }

    /// The reciprocal `N * N / raw`, rounded toward zero; `None` for zero.
    pub fn recip(self) -> (r: Option<Self>)
        requires
            resolution_ok(N),
        ensures
            r is None <==> self.internal == 0,
            r matches Some(v) ==> v.internal == fx_recip(self.internal as int, N as int),
    {
        if self.internal == 0 {
            None
        } else {
            proof {
                lemma_recip_bound(self.internal as int, N as int);
            }
            let nn = N as i64 * N as i64;
            Some(Fx32Var { internal: div_toward_zero(nn, self.internal) })
        }
    }

    /// The integer part, rounded toward zero.
    pub fn as_i32(&self) -> (r: i32)
        requires
            resolution_ok(N),
            fits_i32(trunc_div(self.internal as int, N as int)),
        ensures
            r == trunc_div(self.internal as int, N as int),
    {
        div_toward_zero(self.internal, N as i64) as i32
    }

    pub fn add(self, other: Self) -> (r: Self)
        requires
            fits_i64(self.internal + other.internal),
        ensures
            r.internal == self.internal + other.internal,
    {
        Fx32Var { internal: self.internal + other.internal }
    }

    pub fn sub(self, other: Self) -> (r: Self)
        requires
            fits_i64(self.internal - other.internal),
        ensures
            r.internal == self.internal - other.internal,
    {
        Fx32Var { internal: self.internal - other.internal }
    }

    /// The product `a * b / N`, rounded toward zero.
    pub fn mul(self, other: Self) -> (r: Self)
        requires
            resolution_ok(N),
            fits_i64(self.internal * other.internal),
        ensures
            r.internal == fx_mul(self.internal as int, other.internal as int, N as int),
    {
        let p = self.internal * other.internal;
        proof {
            lemma_trunc_div_shrinks(p as int, N as int);
        }
        Fx32Var { internal: div_toward_zero(p, N as i64) }
    }

    /// The quotient `a * N / b`, rounded toward zero.
    pub fn div(self, other: Self) -> (r: Self)
        requires
            resolution_ok(N),
            other.internal != 0,
            fits_i64(self.internal * N),
            fits_i64(fx_div(self.internal as int, other.internal as int, N as int)),
        ensures
            r.internal == fx_div(self.internal as int, other.internal as int, N as int),
    {
        let p = self.internal * N as i64;
        Fx32Var { internal: div_toward_zero(p, other.internal) }
    }

    pub fn neg(self) -> (r: Self)
        requires
            self.internal != i64::MIN,
        ensures
            r.internal == -self.internal,
    {
        Fx32Var { internal: -self.internal }
    }
}

proof fn lemma_i32_times_resolution(v: int, n: int)
    requires
        1 <= n <= 0x8000_0000,
        i32::MIN <= v <= i32::MAX,
    ensures
        -0x4000_0000_0000_0000 <= v * n <= 0x4000_0000_0000_0000,
{
    assert(-0x4000_0000_0000_0000 <= v * n <= 0x4000_0000_0000_0000) by (nonlinear_arith)
        requires
            1 <= n <= 0x8000_0000,
            -0x8000_0000 <= v <= 0x7fff_ffff,
    ;
}

/// Dividing by a positive divisor never grows the magnitude.
proof fn lemma_trunc_div_shrinks(a: int, b: int)
    requires
        b >= 1,
    ensures
        abs(trunc_div(a, b)) <= abs(a),
{
    assert(abs(a) / b <= abs(a)) by (nonlinear_arith)
        requires
            b >= 1,
            abs(a) >= 0,
    ;
}

proof fn lemma_recip_bound(a: int, n: int)
    requires
        1 <= n <= 0x8000_0000,
        a != 0,
    ensures
        0 <= n * n <= 0x4000_0000_0000_0000,
        fits_i64(fx_recip(a, n)),
{
    assert(0 <= n * n <= 0x4000_0000_0000_0000) by (nonlinear_arith)
        requires
            1 <= n <= 0x8000_0000,
    ;
    assert(abs(n * n) / abs(a) <= abs(n * n)) by (nonlinear_arith)
        requires
            abs(a) >= 1,
            abs(n * n) >= 0,
    ;
}

/// Conversion of a plain number into a fixed-point number of resolution `N`.
pub trait AsFx32<const N: u64> {
    /// The raw value that the conversion gives.
    spec fn raw_spec(&self) -> int;

    fn as_fx32(&self) -> (r: Fx32Var<N>)
        requires
            resolution_ok(N),
        ensures
            r.internal == self.raw_spec(),
    ;
}

impl<const N: u64> AsFx32<N> for i32 {
    /// The integer, exactly, as `Fx32Var::new` gives it.
    open spec fn raw_spec(&self) -> int {
        *self * N
    }

    fn as_fx32(&self) -> Fx32Var<N> {
        Fx32Var::new(*self)
    }
}

} // verus!
