//! Vectors of 2, 3 and 4 fixed-point components sharing one resolution `N`.
//! Every operation works axis by axis through the scalar operations, and
//! carries their preconditions per axis.
use vstd::prelude::*;
use crate::num::{fits_i64, fx_div, fx_mul, fx_recip, fx_sqrt, resolution_ok, Fx32Var};

verus! {

/// A fixed-point square is never negative.
pub proof fn lemma_square_nonneg(a: int, n: int)
    requires
        n >= 1,
    ensures
        fx_mul(a, a, n) >= 0,
{
    assert(a * a >= 0) by (nonlinear_arith);
}

/// A vector of 2 fixed-point components, all of resolution `N`.
#[derive(Clone, Copy, Debug)]
pub struct FxVecVar2<const N: u64> {
    pub x: Fx32Var<N>,
    pub y: Fx32Var<N>,
}

impl<const N: u64> PartialEq for FxVecVar2<N> {
    fn eq(&self, other: &Self) -> (r: bool) {
        self.x.internal == other.x.internal && self.y.internal == other.y.internal
    }
}

impl<const N: u64> vstd::std_specs::cmp::PartialEqSpecImpl for FxVecVar2<N> {
    open spec fn obeys_eq_spec() -> bool {
        true
    }

    open spec fn eq_spec(&self, other: &Self) -> bool {
        self.x == other.x && self.y == other.y
    }
}

impl<const N: u64> Eq for FxVecVar2<N> {}

impl<const N: u64> FxVecVar2<N> {
    /// Every component has raw value `raw`.
    pub open spec fn is_splat(self, raw: int) -> bool {
        self.x.internal == raw && self.y.internal == raw
    }

    /// The raw values of the components, in axis order.
    pub open spec fn raws(self) -> Seq<int> {
        seq![self.x.internal as int, self.y.internal as int]
    }

    /// Raw value of the dot product: the sum of the per-axis fixed-point
    /// products, each already divided by `N`.
    pub open spec fn dot_spec(self, rhs: Self) -> int {
        fx_mul(self.x.internal as int, rhs.x.internal as int, N as int)
            + fx_mul(self.y.internal as int, rhs.y.internal as int, N as int)
    }

    /// The products and partial sums of the dot product fit in 64 bits.
    pub open spec fn dot_ok(self, rhs: Self) -> bool {
        &&& fits_i64(self.x.internal * rhs.x.internal)
        &&& fits_i64(self.y.internal * rhs.y.internal)
        &&& fits_i64(fx_mul(self.x.internal as int, rhs.x.internal as int, N as int) + fx_mul(self.y.internal as int, rhs.y.internal as int, N as int))
    }

    /// Raw value of the length: the square root of the dot product with itself.
    pub open spec fn length_spec(self) -> int {
        fx_sqrt(self.dot_spec(self), N as int)
    }

    pub open spec fn length_ok(self) -> bool {
        self.dot_ok(self) && fits_i64(self.dot_spec(self) * N)
    }

    /// Raw value of the reciprocal of the length; `None` when the length is zero.
    pub open spec fn length_recip_spec(self) -> Option<int> {
        if self.length_spec() == 0 {
            None
        } else {
            Some(fx_recip(self.length_spec(), N as int))
        }
    }

    /// Every component multiplied by the raw value `s`.
    pub open spec fn scaled(self, s: int) -> Self {
        FxVecVar2 {
            x: Fx32Var { internal: fx_mul(self.x.internal as int, s, N as int) as i64 },
            y: Fx32Var { internal: fx_mul(self.y.internal as int, s, N as int) as i64 },
        }
    }

    /// The result of `normalize_or`: `self` scaled by the reciprocal of its
    /// length where that reciprocal exists and is nonzero, else `fallback`.
    pub open spec fn normalize_spec(self, fallback: Self) -> Self {
        match self.length_recip_spec() {
            Some(r) => if r != 0 {
                self.scaled(r)
            } else {
                fallback
            },
            None => fallback,
        }
    }

    pub open spec fn normalize_ok(self) -> bool {
        &&& self.length_ok()
        &&& self.length_recip_spec() matches Some(r) ==> fits_i64(self.x.internal * r) && fits_i64(self.y.internal * r)
    }

    /// All components zero.
    pub fn zero() -> (r: Self)
        ensures
            r.is_splat(0int),
    {
        Self::splat(Fx32Var::zero())
    }

    /// All components one.
    pub fn one() -> (r: Self)
        requires
            resolution_ok(N),
        ensures
            r.is_splat(N as int),
    {
        Self::splat(Fx32Var::one())
    }

    /// All components at the smallest scalar value.
    pub fn min_value() -> (r: Self)
        ensures
            r.is_splat(i32::MIN as int),
    {
        Self::splat(Fx32Var::min_value())
    }

    /// All components at the largest scalar value.
    pub fn max_value() -> (r: Self)
        ensures
            r.is_splat(i32::MAX as int),
    {
        Self::splat(Fx32Var::max_value())
    }

    pub fn new(x: Fx32Var<N>, y: Fx32Var<N>) -> (r: Self)
        ensures
            r.x == x,
            r.y == y,
    {
        FxVecVar2 { x, y }
    }

    /// The same scalar in every component.
    pub fn splat(value: Fx32Var<N>) -> (r: Self)
        ensures
            r.x == value,
            r.y == value,
    {
        FxVecVar2 { x: value, y: value }
    }

    /// Components built from raw values, without scaling.
    pub fn from_raw(x: i64, y: i64) -> (r: Self)
        ensures
            r.x.internal == x,
            r.y.internal == y,
    {
        FxVecVar2 { x: Fx32Var::from_raw(x), y: Fx32Var::from_raw(y) }
    }

    /// The component at `index`, in the order x, y.
    pub fn index(&self, index: usize) -> (r: Fx32Var<N>)
        requires
            index < 2,
        ensures
            r.internal == self.raws()[index as int],
    {
        if index == 0 {
            self.x
        } else {
            self.y
        }
    }

    /// The dot product: the per-axis products, each divided by `N`, summed.
    pub fn dot(self, rhs: Self) -> (r: Fx32Var<N>)
        requires
            resolution_ok(N),
            self.dot_ok(rhs),
        ensures
            r.internal == self.dot_spec(rhs),
    {
        let px = self.x.mul(rhs.x);
        let py = self.y.mul(rhs.y);
        let sy = px.add(py);
        sy
    }

    /// The length: the square root of the dot product with itself.
    pub fn length(self) -> (r: Fx32Var<N>)
        requires
            resolution_ok(N),
            self.length_ok(),
        ensures
            r.internal == self.length_spec(),
    {
        let d = self.dot(self);
        proof {
            lemma_square_nonneg(self.x.internal as int, N as int);
            lemma_square_nonneg(self.y.internal as int, N as int);
        }
        d.sqrt()
    }

    /// The reciprocal of the length; `None` when the length is zero.
    pub fn length_recip(self) -> (r: Option<Fx32Var<N>>)
        requires
            resolution_ok(N),
            self.length_ok(),
        ensures
            r is None <==> self.length_recip_spec() is None,
            r matches Some(v) ==> self.length_recip_spec() == Some(v.internal as int),
    {
        self.length().recip()
    }

    /// `self` scaled to length one, or `fallback` where the reciprocal of the
    /// length is absent or zero.
    pub fn normalize_or(self, fallback: Self) -> (r: Self)
        requires
            resolution_ok(N),
            self.normalize_ok(),
        ensures
            r == self.normalize_spec(fallback),
    {
        let rcp = self.length_recip();
        if let Some(rcp) = rcp {
            if rcp != Fx32Var::<N>::zero() {
                return self.mul_scalar(rcp);
            }
        }
        fallback
    }

    /// `normalize_or` with the zero vector as fallback.
    pub fn normalize_or_zero(self) -> (r: Self)
        requires
            resolution_ok(N),
            self.normalize_ok(),
        ensures
            r == self.normalize_spec(FxVecVar2 { x: Fx32Var { internal: 0 }, y: Fx32Var { internal: 0 } }),
    {
        self.normalize_or(Self::zero())
    }

    /// Component-wise `add`.
    pub fn add(self, rhs: Self) -> (r: Self)
        requires
            fits_i64(self.x.internal + rhs.x.internal),
            fits_i64(self.y.internal + rhs.y.internal),
        ensures
            r.x.internal == self.x.internal + rhs.x.internal,
            r.y.internal == self.y.internal + rhs.y.internal,
    {
        FxVecVar2 { x: self.x.add(rhs.x), y: self.y.add(rhs.y) }
    }

    /// Component-wise `sub`.
    pub fn sub(self, rhs: Self) -> (r: Self)
        requires
            fits_i64(self.x.internal - rhs.x.internal),
            fits_i64(self.y.internal - rhs.y.internal),
        ensures
            r.x.internal == self.x.internal - rhs.x.internal,
            r.y.internal == self.y.internal - rhs.y.internal,
    {
        FxVecVar2 { x: self.x.sub(rhs.x), y: self.y.sub(rhs.y) }
    }

    /// Component-wise `mul`.
    pub fn mul(self, rhs: Self) -> (r: Self)
        requires
            resolution_ok(N),
            fits_i64(self.x.internal * rhs.x.internal),
            fits_i64(self.y.internal * rhs.y.internal),
        ensures
            r.x.internal == fx_mul(self.x.internal as int, rhs.x.internal as int, N as int),
            r.y.internal == fx_mul(self.y.internal as int, rhs.y.internal as int, N as int),
    {
        FxVecVar2 { x: self.x.mul(rhs.x), y: self.y.mul(rhs.y) }
    }

    /// Component-wise `div`.
    pub fn div(self, rhs: Self) -> (r: Self)
        requires
            resolution_ok(N),
            rhs.x.internal != 0,
            fits_i64(self.x.internal * N),
            fits_i64(fx_div(self.x.internal as int, rhs.x.internal as int, N as int)),
            rhs.y.internal != 0,
            fits_i64(self.y.internal * N),
            fits_i64(fx_div(self.y.internal as int, rhs.y.internal as int, N as int)),
        ensures
            r.x.internal == fx_div(self.x.internal as int, rhs.x.internal as int, N as int),
            r.y.internal == fx_div(self.y.internal as int, rhs.y.internal as int, N as int),
    {
        FxVecVar2 { x: self.x.div(rhs.x), y: self.y.div(rhs.y) }
    }

    /// Each component add the scalar `s` (`v + s`).
    pub fn add_scalar(self, s: Fx32Var<N>) -> (r: Self)
        requires
            fits_i64(self.x.internal + s.internal),
            fits_i64(self.y.internal + s.internal),
        ensures
            r.x.internal == self.x.internal + s.internal,
            r.y.internal == self.y.internal + s.internal,
    {
        FxVecVar2 { x: self.x.add(s), y: self.y.add(s) }
    }

    /// The scalar `s` add each component (`s + v`).
    pub fn scalar_add(s: Fx32Var<N>, v: Self) -> (r: Self)
        requires
            fits_i64(s.internal + v.x.internal),
            fits_i64(s.internal + v.y.internal),
        ensures
            r.x.internal == s.internal + v.x.internal,
            r.y.internal == s.internal + v.y.internal,
    {
        FxVecVar2 { x: s.add(v.x), y: s.add(v.y) }
    }

    /// Each component sub the scalar `s` (`v - s`).
    pub fn sub_scalar(self, s: Fx32Var<N>) -> (r: Self)
        requires
            fits_i64(self.x.internal - s.internal),
            fits_i64(self.y.internal - s.internal),
        ensures
            r.x.internal == self.x.internal - s.internal,
            r.y.internal == self.y.internal - s.internal,
    {
        FxVecVar2 { x: self.x.sub(s), y: self.y.sub(s) }
    }

    /// The scalar `s` sub each component (`s - v`).
    pub fn scalar_sub(s: Fx32Var<N>, v: Self) -> (r: Self)
        requires
            fits_i64(s.internal - v.x.internal),
            fits_i64(s.internal - v.y.internal),
        ensures
            r.x.internal == s.internal - v.x.internal,
            r.y.internal == s.internal - v.y.internal,
    {
        FxVecVar2 { x: s.sub(v.x), y: s.sub(v.y) }
    }

    /// Each component mul the scalar `s` (`v * s`).
    pub fn mul_scalar(self, s: Fx32Var<N>) -> (r: Self)
        requires
            resolution_ok(N),
            fits_i64(self.x.internal * s.internal),
            fits_i64(self.y.internal * s.internal),
        ensures
            r.x.internal == fx_mul(self.x.internal as int, s.internal as int, N as int),
            r.y.internal == fx_mul(self.y.internal as int, s.internal as int, N as int),
    {
        FxVecVar2 { x: self.x.mul(s), y: self.y.mul(s) }
    }

    /// The scalar `s` mul each component (`s * v`).
    pub fn scalar_mul(s: Fx32Var<N>, v: Self) -> (r: Self)
        requires
            resolution_ok(N),
            fits_i64(s.internal * v.x.internal),
            fits_i64(s.internal * v.y.internal),
        ensures
            r.x.internal == fx_mul(s.internal as int, v.x.internal as int, N as int),
            r.y.internal == fx_mul(s.internal as int, v.y.internal as int, N as int),
    {
        FxVecVar2 { x: s.mul(v.x), y: s.mul(v.y) }
    }

    /// Each component div the scalar `s` (`v / s`).
    pub fn div_scalar(self, s: Fx32Var<N>) -> (r: Self)
        requires
            resolution_ok(N),
            s.internal != 0,
            fits_i64(self.x.internal * N),
            fits_i64(fx_div(self.x.internal as int, s.internal as int, N as int)),
            fits_i64(self.y.internal * N),
            fits_i64(fx_div(self.y.internal as int, s.internal as int, N as int)),
        ensures
            r.x.internal == fx_div(self.x.internal as int, s.internal as int, N as int),
            r.y.internal == fx_div(self.y.internal as int, s.internal as int, N as int),
    {
        FxVecVar2 { x: self.x.div(s), y: self.y.div(s) }
    }

    /// The scalar `s` div each component (`s / v`).
    pub fn scalar_div(s: Fx32Var<N>, v: Self) -> (r: Self)
        requires
            resolution_ok(N),
            v.x.internal != 0,
            v.y.internal != 0,
            fits_i64(s.internal * N),
            fits_i64(fx_div(s.internal as int, v.x.internal as int, N as int)),
            fits_i64(fx_div(s.internal as int, v.y.internal as int, N as int)),
        ensures
            r.x.internal == fx_div(s.internal as int, v.x.internal as int, N as int),
            r.y.internal == fx_div(s.internal as int, v.y.internal as int, N as int),
    {
        FxVecVar2 { x: s.div(v.x), y: s.div(v.y) }
    }

    /// The components as an array, in axis order.
    pub fn to_array(self) -> (r: [Fx32Var<N>; 2])
        ensures
            r[0] == self.x,
            r[1] == self.y,
    {
        [self.x, self.y]
    }

    /// The vector whose components are the array's, in axis order.
    pub fn from_array(a: [Fx32Var<N>; 2]) -> (r: Self)
        ensures
            r.x == a[0],
            r.y == a[1],
    {
        FxVecVar2 { x: a[0], y: a[1] }
    }

    /// The components as a tuple, in axis order.
    pub fn to_tuple(self) -> (r: (Fx32Var<N>, Fx32Var<N>))
        ensures
            r.0 == self.x,
            r.1 == self.y,
    {
        (self.x, self.y)
    }

    /// The vector whose components are the tuple's, in axis order.
    pub fn from_tuple(t: (Fx32Var<N>, Fx32Var<N>)) -> (r: Self)
        ensures
            r.x == t.0,
            r.y == t.1,
    {
        FxVecVar2 { x: t.0, y: t.1 }
    }

}

/// A vector of 3 fixed-point components, all of resolution `N`.
#[derive(Clone, Copy, Debug)]
pub struct FxVecVar3<const N: u64> {
    pub x: Fx32Var<N>,
    pub y: Fx32Var<N>,
    pub z: Fx32Var<N>,
}

impl<const N: u64> PartialEq for FxVecVar3<N> {
    fn eq(&self, other: &Self) -> (r: bool) {
        self.x.internal == other.x.internal && self.y.internal == other.y.internal && self.z.internal == other.z.internal
    }
}

impl<const N: u64> vstd::std_specs::cmp::PartialEqSpecImpl for FxVecVar3<N> {
    open spec fn obeys_eq_spec() -> bool {
        true
    }

    open spec fn eq_spec(&self, other: &Self) -> bool {
        self.x == other.x && self.y == other.y && self.z == other.z
    }
}

impl<const N: u64> Eq for FxVecVar3<N> {}

impl<const N: u64> FxVecVar3<N> {
    /// Every component has raw value `raw`.
    pub open spec fn is_splat(self, raw: int) -> bool {
        self.x.internal == raw && self.y.internal == raw && self.z.internal == raw
    }

    /// The raw values of the components, in axis order.
    pub open spec fn raws(self) -> Seq<int> {
        seq![self.x.internal as int, self.y.internal as int, self.z.internal as int]
    }

    /// Raw value of the dot product: the sum of the per-axis fixed-point
    /// products, each already divided by `N`.
    pub open spec fn dot_spec(self, rhs: Self) -> int {
        fx_mul(self.x.internal as int, rhs.x.internal as int, N as int)
            + fx_mul(self.y.internal as int, rhs.y.internal as int, N as int)
            + fx_mul(self.z.internal as int, rhs.z.internal as int, N as int)
    }

    /// The products and partial sums of the dot product fit in 64 bits.
    pub open spec fn dot_ok(self, rhs: Self) -> bool {
        &&& fits_i64(self.x.internal * rhs.x.internal)
        &&& fits_i64(self.y.internal * rhs.y.internal)
        &&& fits_i64(self.z.internal * rhs.z.internal)
        &&& fits_i64(fx_mul(self.x.internal as int, rhs.x.internal as int, N as int) + fx_mul(self.y.internal as int, rhs.y.internal as int, N as int))
        &&& fits_i64(fx_mul(self.x.internal as int, rhs.x.internal as int, N as int) + fx_mul(self.y.internal as int, rhs.y.internal as int, N as int) + fx_mul(self.z.internal as int, rhs.z.internal as int, N as int))
    }

    /// Raw value of the length: the square root of the dot product with itself.
    pub open spec fn length_spec(self) -> int {
        fx_sqrt(self.dot_spec(self), N as int)
    }

    pub open spec fn length_ok(self) -> bool {
        self.dot_ok(self) && fits_i64(self.dot_spec(self) * N)
    }

    /// Raw value of the reciprocal of the length; `None` when the length is zero.
    pub open spec fn length_recip_spec(self) -> Option<int> {
        if self.length_spec() == 0 {
            None
        } else {
            Some(fx_recip(self.length_spec(), N as int))
        }
    }

    /// Every component multiplied by the raw value `s`.
    pub open spec fn scaled(self, s: int) -> Self {
        FxVecVar3 {
            x: Fx32Var { internal: fx_mul(self.x.internal as int, s, N as int) as i64 },
            y: Fx32Var { internal: fx_mul(self.y.internal as int, s, N as int) as i64 },
            z: Fx32Var { internal: fx_mul(self.z.internal as int, s, N as int) as i64 },
        }
    }

    /// The result of `normalize_or`: `self` scaled by the reciprocal of its
    /// length where that reciprocal exists and is nonzero, else `fallback`.
    pub open spec fn normalize_spec(self, fallback: Self) -> Self {
        match self.length_recip_spec() {
            Some(r) => if r != 0 {
                self.scaled(r)
            } else {
                fallback
            },
            None => fallback,
        }
    }

    pub open spec fn normalize_ok(self) -> bool {
        &&& self.length_ok()
        &&& self.length_recip_spec() matches Some(r) ==> fits_i64(self.x.internal * r) && fits_i64(self.y.internal * r) && fits_i64(self.z.internal * r)
    }

    /// All components zero.
    pub fn zero() -> (r: Self)
        ensures
            r.is_splat(0int),
    {
        Self::splat(Fx32Var::zero())
    }

    /// All components one.
    pub fn one() -> (r: Self)
        requires
            resolution_ok(N),
        ensures
            r.is_splat(N as int),
    {
        Self::splat(Fx32Var::one())
    }

    /// All components at the smallest scalar value.
    pub fn min_value() -> (r: Self)
        ensures
            r.is_splat(i32::MIN as int),
    {
        Self::splat(Fx32Var::min_value())
    }

    /// All components at the largest scalar value.
    pub fn max_value() -> (r: Self)
        ensures
            r.is_splat(i32::MAX as int),
    {
        Self::splat(Fx32Var::max_value())
    }

    pub fn new(x: Fx32Var<N>, y: Fx32Var<N>, z: Fx32Var<N>) -> (r: Self)
        ensures
            r.x == x,
            r.y == y,
            r.z == z,
    {
        FxVecVar3 { x, y, z }
    }

    /// The same scalar in every component.
    pub fn splat(value: Fx32Var<N>) -> (r: Self)
        ensures
            r.x == value,
            r.y == value,
            r.z == value,
    {
        FxVecVar3 { x: value, y: value, z: value }
    }

    /// Components built from raw values, without scaling.
    pub fn from_raw(x: i64, y: i64, z: i64) -> (r: Self)
        ensures
            r.x.internal == x,
            r.y.internal == y,
            r.z.internal == z,
    {
        FxVecVar3 { x: Fx32Var::from_raw(x), y: Fx32Var::from_raw(y), z: Fx32Var::from_raw(z) }
    }

    /// The component at `index`, in the order x, y, z.
    pub fn index(&self, index: usize) -> (r: Fx32Var<N>)
        requires
            index < 3,
        ensures
            r.internal == self.raws()[index as int],
    {
        if index == 0 {
            self.x
        } else if index == 1 {
            self.y
        } else {
            self.z
        }
    }

    /// The dot product: the per-axis products, each divided by `N`, summed.
    pub fn dot(self, rhs: Self) -> (r: Fx32Var<N>)
        requires
            resolution_ok(N),
            self.dot_ok(rhs),
        ensures
            r.internal == self.dot_spec(rhs),
    {
        let px = self.x.mul(rhs.x);
        let py = self.y.mul(rhs.y);
        let pz = self.z.mul(rhs.z);
        let sy = px.add(py);
        let sz = sy.add(pz);
        sz
    }

    /// The length: the square root of the dot product with itself.
    pub fn length(self) -> (r: Fx32Var<N>)
        requires
            resolution_ok(N),
            self.length_ok(),
        ensures
            r.internal == self.length_spec(),
    {
        let d = self.dot(self);
        proof {
            lemma_square_nonneg(self.x.internal as int, N as int);
            lemma_square_nonneg(self.y.internal as int, N as int);
            lemma_square_nonneg(self.z.internal as int, N as int);
        }
        d.sqrt()
    }

    /// The reciprocal of the length; `None` when the length is zero.
    pub fn length_recip(self) -> (r: Option<Fx32Var<N>>)
        requires
            resolution_ok(N),
            self.length_ok(),
        ensures
            r is None <==> self.length_recip_spec() is None,
            r matches Some(v) ==> self.length_recip_spec() == Some(v.internal as int),
    {
        self.length().recip()
    }

    /// `self` scaled to length one, or `fallback` where the reciprocal of the
    /// length is absent or zero.
    pub fn normalize_or(self, fallback: Self) -> (r: Self)
        requires
            resolution_ok(N),
            self.normalize_ok(),
        ensures
            r == self.normalize_spec(fallback),
    {
        let rcp = self.length_recip();
        if let Some(rcp) = rcp {
            if rcp != Fx32Var::<N>::zero() {
                return self.mul_scalar(rcp);
            }
        }
        fallback
    }

    /// `normalize_or` with the zero vector as fallback.
    pub fn normalize_or_zero(self) -> (r: Self)
        requires
            resolution_ok(N),
            self.normalize_ok(),
        ensures
            r == self.normalize_spec(FxVecVar3 { x: Fx32Var { internal: 0 }, y: Fx32Var { internal: 0 }, z: Fx32Var { internal: 0 } }),
    {
        self.normalize_or(Self::zero())
    }

    /// Component-wise `add`.
    pub fn add(self, rhs: Self) -> (r: Self)
        requires
            fits_i64(self.x.internal + rhs.x.internal),
            fits_i64(self.y.internal + rhs.y.internal),
            fits_i64(self.z.internal + rhs.z.internal),
        ensures
            r.x.internal == self.x.internal + rhs.x.internal,
            r.y.internal == self.y.internal + rhs.y.internal,
            r.z.internal == self.z.internal + rhs.z.internal,
    {
        FxVecVar3 { x: self.x.add(rhs.x), y: self.y.add(rhs.y), z: self.z.add(rhs.z) }
    }

    /// Component-wise `sub`.
    pub fn sub(self, rhs: Self) -> (r: Self)
        requires
            fits_i64(self.x.internal - rhs.x.internal),
            fits_i64(self.y.internal - rhs.y.internal),
            fits_i64(self.z.internal - rhs.z.internal),
        ensures
            r.x.internal == self.x.internal - rhs.x.internal,
            r.y.internal == self.y.internal - rhs.y.internal,
            r.z.internal == self.z.internal - rhs.z.internal,
    {
        FxVecVar3 { x: self.x.sub(rhs.x), y: self.y.sub(rhs.y), z: self.z.sub(rhs.z) }
    }

    /// Component-wise `mul`.
    pub fn mul(self, rhs: Self) -> (r: Self)
        requires
            resolution_ok(N),
            fits_i64(self.x.internal * rhs.x.internal),
            fits_i64(self.y.internal * rhs.y.internal),
            fits_i64(self.z.internal * rhs.z.internal),
        ensures
            r.x.internal == fx_mul(self.x.internal as int, rhs.x.internal as int, N as int),
            r.y.internal == fx_mul(self.y.internal as int, rhs.y.internal as int, N as int),
            r.z.internal == fx_mul(self.z.internal as int, rhs.z.internal as int, N as int),
    {
        FxVecVar3 { x: self.x.mul(rhs.x), y: self.y.mul(rhs.y), z: self.z.mul(rhs.z) }
    }

    /// Component-wise `div`.
    pub fn div(self, rhs: Self) -> (r: Self)
        requires
            resolution_ok(N),
            rhs.x.internal != 0,
            fits_i64(self.x.internal * N),
            fits_i64(fx_div(self.x.internal as int, rhs.x.internal as int, N as int)),
            rhs.y.internal != 0,
            fits_i64(self.y.internal * N),
            fits_i64(fx_div(self.y.internal as int, rhs.y.internal as int, N as int)),
            rhs.z.internal != 0,
            fits_i64(self.z.internal * N),
            fits_i64(fx_div(self.z.internal as int, rhs.z.internal as int, N as int)),
        ensures
            r.x.internal == fx_div(self.x.internal as int, rhs.x.internal as int, N as int),
            r.y.internal == fx_div(self.y.internal as int, rhs.y.internal as int, N as int),
            r.z.internal == fx_div(self.z.internal as int, rhs.z.internal as int, N as int),
    {
        FxVecVar3 { x: self.x.div(rhs.x), y: self.y.div(rhs.y), z: self.z.div(rhs.z) }
    }

    /// Each component add the scalar `s` (`v + s`).
    pub fn add_scalar(self, s: Fx32Var<N>) -> (r: Self)
        requires
            fits_i64(self.x.internal + s.internal),
            fits_i64(self.y.internal + s.internal),
            fits_i64(self.z.internal + s.internal),
        ensures
            r.x.internal == self.x.internal + s.internal,
            r.y.internal == self.y.internal + s.internal,
            r.z.internal == self.z.internal + s.internal,
    {
        FxVecVar3 { x: self.x.add(s), y: self.y.add(s), z: self.z.add(s) }
    }

    /// The scalar `s` add each component (`s + v`).
    pub fn scalar_add(s: Fx32Var<N>, v: Self) -> (r: Self)
        requires
            fits_i64(s.internal + v.x.internal),
            fits_i64(s.internal + v.y.internal),
            fits_i64(s.internal + v.z.internal),
        ensures
            r.x.internal == s.internal + v.x.internal,
            r.y.internal == s.internal + v.y.internal,
            r.z.internal == s.internal + v.z.internal,
    {
        FxVecVar3 { x: s.add(v.x), y: s.add(v.y), z: s.add(v.z) }
    }

    /// Each component sub the scalar `s` (`v - s`).
    pub fn sub_scalar(self, s: Fx32Var<N>) -> (r: Self)
        requires
            fits_i64(self.x.internal - s.internal),
            fits_i64(self.y.internal - s.internal),
            fits_i64(self.z.internal - s.internal),
        ensures
            r.x.internal == self.x.internal - s.internal,
            r.y.internal == self.y.internal - s.internal,
            r.z.internal == self.z.internal - s.internal,
    {
        FxVecVar3 { x: self.x.sub(s), y: self.y.sub(s), z: self.z.sub(s) }
    }

    /// The scalar `s` sub each component (`s - v`).
    pub fn scalar_sub(s: Fx32Var<N>, v: Self) -> (r: Self)
        requires
            fits_i64(s.internal - v.x.internal),
            fits_i64(s.internal - v.y.internal),
            fits_i64(s.internal - v.z.internal),
        ensures
            r.x.internal == s.internal - v.x.internal,
            r.y.internal == s.internal - v.y.internal,
            r.z.internal == s.internal - v.z.internal,
    {
        FxVecVar3 { x: s.sub(v.x), y: s.sub(v.y), z: s.sub(v.z) }
    }

    /// Each component mul the scalar `s` (`v * s`).
    pub fn mul_scalar(self, s: Fx32Var<N>) -> (r: Self)
        requires
            resolution_ok(N),
            fits_i64(self.x.internal * s.internal),
            fits_i64(self.y.internal * s.internal),
            fits_i64(self.z.internal * s.internal),
        ensures
            r.x.internal == fx_mul(self.x.internal as int, s.internal as int, N as int),
            r.y.internal == fx_mul(self.y.internal as int, s.internal as int, N as int),
            r.z.internal == fx_mul(self.z.internal as int, s.internal as int, N as int),
    {
        FxVecVar3 { x: self.x.mul(s), y: self.y.mul(s), z: self.z.mul(s) }
    }

    /// The scalar `s` mul each component (`s * v`).
    pub fn scalar_mul(s: Fx32Var<N>, v: Self) -> (r: Self)
        requires
            resolution_ok(N),
            fits_i64(s.internal * v.x.internal),
            fits_i64(s.internal * v.y.internal),
            fits_i64(s.internal * v.z.internal),
        ensures
            r.x.internal == fx_mul(s.internal as int, v.x.internal as int, N as int),
            r.y.internal == fx_mul(s.internal as int, v.y.internal as int, N as int),
            r.z.internal == fx_mul(s.internal as int, v.z.internal as int, N as int),
    {
        FxVecVar3 { x: s.mul(v.x), y: s.mul(v.y), z: s.mul(v.z) }
    }

    /// Each component div the scalar `s` (`v / s`).
    pub fn div_scalar(self, s: Fx32Var<N>) -> (r: Self)
        requires
            resolution_ok(N),
            s.internal != 0,
            fits_i64(self.x.internal * N),
            fits_i64(fx_div(self.x.internal as int, s.internal as int, N as int)),
            fits_i64(self.y.internal * N),
            fits_i64(fx_div(self.y.internal as int, s.internal as int, N as int)),
            fits_i64(self.z.internal * N),
            fits_i64(fx_div(self.z.internal as int, s.internal as int, N as int)),
        ensures
            r.x.internal == fx_div(self.x.internal as int, s.internal as int, N as int),
            r.y.internal == fx_div(self.y.internal as int, s.internal as int, N as int),
            r.z.internal == fx_div(self.z.internal as int, s.internal as int, N as int),
    {
        FxVecVar3 { x: self.x.div(s), y: self.y.div(s), z: self.z.div(s) }
    }

    /// The scalar `s` div each component (`s / v`).
    pub fn scalar_div(s: Fx32Var<N>, v: Self) -> (r: Self)
        requires
            resolution_ok(N),
            v.x.internal != 0,
            v.y.internal != 0,
            v.z.internal != 0,
            fits_i64(s.internal * N),
            fits_i64(fx_div(s.internal as int, v.x.internal as int, N as int)),
            fits_i64(fx_div(s.internal as int, v.y.internal as int, N as int)),
            fits_i64(fx_div(s.internal as int, v.z.internal as int, N as int)),
        ensures
            r.x.internal == fx_div(s.internal as int, v.x.internal as int, N as int),
            r.y.internal == fx_div(s.internal as int, v.y.internal as int, N as int),
            r.z.internal == fx_div(s.internal as int, v.z.internal as int, N as int),
    {
        FxVecVar3 { x: s.div(v.x), y: s.div(v.y), z: s.div(v.z) }
    }

    /// The components as an array, in axis order.
    pub fn to_array(self) -> (r: [Fx32Var<N>; 3])
        ensures
            r[0] == self.x,
            r[1] == self.y,
            r[2] == self.z,
    {
        [self.x, self.y, self.z]
    }

    /// The vector whose components are the array's, in axis order.
    pub fn from_array(a: [Fx32Var<N>; 3]) -> (r: Self)
        ensures
            r.x == a[0],
            r.y == a[1],
            r.z == a[2],
    {
        FxVecVar3 { x: a[0], y: a[1], z: a[2] }
    }

    /// The components as a tuple, in axis order.
    pub fn to_tuple(self) -> (r: (Fx32Var<N>, Fx32Var<N>, Fx32Var<N>))
        ensures
            r.0 == self.x,
            r.1 == self.y,
            r.2 == self.z,
    {
        (self.x, self.y, self.z)
    }

    /// The vector whose components are the tuple's, in axis order.
    pub fn from_tuple(t: (Fx32Var<N>, Fx32Var<N>, Fx32Var<N>)) -> (r: Self)
        ensures
            r.x == t.0,
            r.y == t.1,
            r.z == t.2,
    {
        FxVecVar3 { x: t.0, y: t.1, z: t.2 }
    }

}

/// A vector of 4 fixed-point components, all of resolution `N`.
#[derive(Clone, Copy, Debug)]
pub struct FxVecVar4<const N: u64> {
    pub x: Fx32Var<N>,
    pub y: Fx32Var<N>,
    pub z: Fx32Var<N>,
    pub w: Fx32Var<N>,
}

impl<const N: u64> PartialEq for FxVecVar4<N> {
    fn eq(&self, other: &Self) -> (r: bool) {
        self.x.internal == other.x.internal && self.y.internal == other.y.internal && self.z.internal == other.z.internal && self.w.internal == other.w.internal
    }
}

impl<const N: u64> vstd::std_specs::cmp::PartialEqSpecImpl for FxVecVar4<N> {
    open spec fn obeys_eq_spec() -> bool {
        true
    }

    open spec fn eq_spec(&self, other: &Self) -> bool {
        self.x == other.x && self.y == other.y && self.z == other.z && self.w == other.w
    }
}

impl<const N: u64> Eq for FxVecVar4<N> {}

impl<const N: u64> FxVecVar4<N> {
    /// Every component has raw value `raw`.
    pub open spec fn is_splat(self, raw: int) -> bool {
        self.x.internal == raw && self.y.internal == raw && self.z.internal == raw && self.w.internal == raw
    }

    /// The raw values of the components, in axis order.
    pub open spec fn raws(self) -> Seq<int> {
        seq![self.x.internal as int, self.y.internal as int, self.z.internal as int, self.w.internal as int]
    }

    /// Raw value of the dot product: the sum of the per-axis fixed-point
    /// products, each already divided by `N`.
    pub open spec fn dot_spec(self, rhs: Self) -> int {
        fx_mul(self.x.internal as int, rhs.x.internal as int, N as int)
            + fx_mul(self.y.internal as int, rhs.y.internal as int, N as int)
            + fx_mul(self.z.internal as int, rhs.z.internal as int, N as int)
            + fx_mul(self.w.internal as int, rhs.w.internal as int, N as int)
    }

    /// The products and partial sums of the dot product fit in 64 bits.
    pub open spec fn dot_ok(self, rhs: Self) -> bool {
        &&& fits_i64(self.x.internal * rhs.x.internal)
        &&& fits_i64(self.y.internal * rhs.y.internal)
        &&& fits_i64(self.z.internal * rhs.z.internal)
        &&& fits_i64(self.w.internal * rhs.w.internal)
        &&& fits_i64(fx_mul(self.x.internal as int, rhs.x.internal as int, N as int) + fx_mul(self.y.internal as int, rhs.y.internal as int, N as int))
        &&& fits_i64(fx_mul(self.x.internal as int, rhs.x.internal as int, N as int) + fx_mul(self.y.internal as int, rhs.y.internal as int, N as int) + fx_mul(self.z.internal as int, rhs.z.internal as int, N as int))
        &&& fits_i64(fx_mul(self.x.internal as int, rhs.x.internal as int, N as int) + fx_mul(self.y.internal as int, rhs.y.internal as int, N as int) + fx_mul(self.z.internal as int, rhs.z.internal as int, N as int) + fx_mul(self.w.internal as int, rhs.w.internal as int, N as int))
    }

    /// Raw value of the length: the square root of the dot product with itself.
    pub open spec fn length_spec(self) -> int {
        fx_sqrt(self.dot_spec(self), N as int)
    }

    pub open spec fn length_ok(self) -> bool {
        self.dot_ok(self) && fits_i64(self.dot_spec(self) * N)
    }

    /// Raw value of the reciprocal of the length; `None` when the length is zero.
    pub open spec fn length_recip_spec(self) -> Option<int> {
        if self.length_spec() == 0 {
            None
        } else {
            Some(fx_recip(self.length_spec(), N as int))
        }
    }

    /// Every component multiplied by the raw value `s`.
    pub open spec fn scaled(self, s: int) -> Self {
        FxVecVar4 {
            x: Fx32Var { internal: fx_mul(self.x.internal as int, s, N as int) as i64 },
            y: Fx32Var { internal: fx_mul(self.y.internal as int, s, N as int) as i64 },
            z: Fx32Var { internal: fx_mul(self.z.internal as int, s, N as int) as i64 },
            w: Fx32Var { internal: fx_mul(self.w.internal as int, s, N as int) as i64 },
        }
    }

    /// The result of `normalize_or`: `self` scaled by the reciprocal of its
    /// length where that reciprocal exists and is nonzero, else `fallback`.
    pub open spec fn normalize_spec(self, fallback: Self) -> Self {
        match self.length_recip_spec() {
            Some(r) => if r != 0 {
                self.scaled(r)
            } else {
                fallback
            },
            None => fallback,
        }
    }

    pub open spec fn normalize_ok(self) -> bool {
        &&& self.length_ok()
        &&& self.length_recip_spec() matches Some(r) ==> fits_i64(self.x.internal * r) && fits_i64(self.y.internal * r) && fits_i64(self.z.internal * r) && fits_i64(self.w.internal * r)
    }

    /// All components zero.
    pub fn zero() -> (r: Self)
        ensures
            r.is_splat(0int),
    {
        Self::splat(Fx32Var::zero())
    }

    /// All components one.
    pub fn one() -> (r: Self)
        requires
            resolution_ok(N),
        ensures
            r.is_splat(N as int),
    {
        Self::splat(Fx32Var::one())
    }

    /// All components at the smallest scalar value.
    pub fn min_value() -> (r: Self)
        ensures
            r.is_splat(i32::MIN as int),
    {
        Self::splat(Fx32Var::min_value())
    }

    /// All components at the largest scalar value.
    pub fn max_value() -> (r: Self)
        ensures
            r.is_splat(i32::MAX as int),
    {
        Self::splat(Fx32Var::max_value())
    }

    pub fn new(x: Fx32Var<N>, y: Fx32Var<N>, z: Fx32Var<N>, w: Fx32Var<N>) -> (r: Self)
        ensures
            r.x == x,
            r.y == y,
            r.z == z,
            r.w == w,
    {
        FxVecVar4 { x, y, z, w }
    }

    /// The same scalar in every component.
    pub fn splat(value: Fx32Var<N>) -> (r: Self)
        ensures
            r.x == value,
            r.y == value,
            r.z == value,
            r.w == value,
    {
        FxVecVar4 { x: value, y: value, z: value, w: value }
    }

    /// Components built from raw values, without scaling.
    pub fn from_raw(x: i64, y: i64, z: i64, w: i64) -> (r: Self)
        ensures
            r.x.internal == x,
            r.y.internal == y,
            r.z.internal == z,
            r.w.internal == w,
    {
        FxVecVar4 { x: Fx32Var::from_raw(x), y: Fx32Var::from_raw(y), z: Fx32Var::from_raw(z), w: Fx32Var::from_raw(w) }
    }

    /// The component at `index`, in the order x, y, z, w.
    pub fn index(&self, index: usize) -> (r: Fx32Var<N>)
        requires
            index < 4,
        ensures
            r.internal == self.raws()[index as int],
    {
        if index == 0 {
            self.x
        } else if index == 1 {
            self.y
        } else if index == 2 {
            self.z
        } else {
            self.w
        }
    }

    /// The dot product: the per-axis products, each divided by `N`, summed.
    pub fn dot(self, rhs: Self) -> (r: Fx32Var<N>)
        requires
            resolution_ok(N),
            self.dot_ok(rhs),
        ensures
            r.internal == self.dot_spec(rhs),
    {
        let px = self.x.mul(rhs.x);
        let py = self.y.mul(rhs.y);
        let pz = self.z.mul(rhs.z);
        let pw = self.w.mul(rhs.w);
        let sy = px.add(py);
        let sz = sy.add(pz);
        let sw = sz.add(pw);
        sw
    }

    /// The length: the square root of the dot product with itself.
    pub fn length(self) -> (r: Fx32Var<N>)
        requires
            resolution_ok(N),
            self.length_ok(),
        ensures
            r.internal == self.length_spec(),
    {
        let d = self.dot(self);
        proof {
            lemma_square_nonneg(self.x.internal as int, N as int);
            lemma_square_nonneg(self.y.internal as int, N as int);
            lemma_square_nonneg(self.z.internal as int, N as int);
            lemma_square_nonneg(self.w.internal as int, N as int);
        }
        d.sqrt()
    }

    /// The reciprocal of the length; `None` when the length is zero.
    pub fn length_recip(self) -> (r: Option<Fx32Var<N>>)
        requires
            resolution_ok(N),
            self.length_ok(),
        ensures
            r is None <==> self.length_recip_spec() is None,
            r matches Some(v) ==> self.length_recip_spec() == Some(v.internal as int),
    {
        self.length().recip()
    }

    /// `self` scaled to length one, or `fallback` where the reciprocal of the
    /// length is absent or zero.
    pub fn normalize_or(self, fallback: Self) -> (r: Self)
        requires
            resolution_ok(N),
            self.normalize_ok(),
        ensures
            r == self.normalize_spec(fallback),
    {
        let rcp = self.length_recip();
        if let Some(rcp) = rcp {
            if rcp != Fx32Var::<N>::zero() {
                return self.mul_scalar(rcp);
            }
        }
        fallback
    }

    /// `normalize_or` with the zero vector as fallback.
    pub fn normalize_or_zero(self) -> (r: Self)
        requires
            resolution_ok(N),
            self.normalize_ok(),
        ensures
            r == self.normalize_spec(FxVecVar4 { x: Fx32Var { internal: 0 }, y: Fx32Var { internal: 0 }, z: Fx32Var { internal: 0 }, w: Fx32Var { internal: 0 } }),
    {
        self.normalize_or(Self::zero())
    }

    /// Component-wise `add`.
    pub fn add(self, rhs: Self) -> (r: Self)
        requires
            fits_i64(self.x.internal + rhs.x.internal),
            fits_i64(self.y.internal + rhs.y.internal),
            fits_i64(self.z.internal + rhs.z.internal),
            fits_i64(self.w.internal + rhs.w.internal),
        ensures
            r.x.internal == self.x.internal + rhs.x.internal,
            r.y.internal == self.y.internal + rhs.y.internal,
            r.z.internal == self.z.internal + rhs.z.internal,
            r.w.internal == self.w.internal + rhs.w.internal,
    {
        FxVecVar4 { x: self.x.add(rhs.x), y: self.y.add(rhs.y), z: self.z.add(rhs.z), w: self.w.add(rhs.w) }
    }

    /// Component-wise `sub`.
    pub fn sub(self, rhs: Self) -> (r: Self)
        requires
            fits_i64(self.x.internal - rhs.x.internal),
            fits_i64(self.y.internal - rhs.y.internal),
            fits_i64(self.z.internal - rhs.z.internal),
            fits_i64(self.w.internal - rhs.w.internal),
        ensures
            r.x.internal == self.x.internal - rhs.x.internal,
            r.y.internal == self.y.internal - rhs.y.internal,
            r.z.internal == self.z.internal - rhs.z.internal,
            r.w.internal == self.w.internal - rhs.w.internal,
    {
        FxVecVar4 { x: self.x.sub(rhs.x), y: self.y.sub(rhs.y), z: self.z.sub(rhs.z), w: self.w.sub(rhs.w) }
    }

    /// Component-wise `mul`.
    pub fn mul(self, rhs: Self) -> (r: Self)
        requires
            resolution_ok(N),
            fits_i64(self.x.internal * rhs.x.internal),
            fits_i64(self.y.internal * rhs.y.internal),
            fits_i64(self.z.internal * rhs.z.internal),
            fits_i64(self.w.internal * rhs.w.internal),
        ensures
            r.x.internal == fx_mul(self.x.internal as int, rhs.x.internal as int, N as int),
            r.y.internal == fx_mul(self.y.internal as int, rhs.y.internal as int, N as int),
            r.z.internal == fx_mul(self.z.internal as int, rhs.z.internal as int, N as int),
            r.w.internal == fx_mul(self.w.internal as int, rhs.w.internal as int, N as int),
    {
        FxVecVar4 { x: self.x.mul(rhs.x), y: self.y.mul(rhs.y), z: self.z.mul(rhs.z), w: self.w.mul(rhs.w) }
    }

    /// Component-wise `div`.
    pub fn div(self, rhs: Self) -> (r: Self)
        requires
            resolution_ok(N),
            rhs.x.internal != 0,
            fits_i64(self.x.internal * N),
            fits_i64(fx_div(self.x.internal as int, rhs.x.internal as int, N as int)),
            rhs.y.internal != 0,
            fits_i64(self.y.internal * N),
            fits_i64(fx_div(self.y.internal as int, rhs.y.internal as int, N as int)),
            rhs.z.internal != 0,
            fits_i64(self.z.internal * N),
            fits_i64(fx_div(self.z.internal as int, rhs.z.internal as int, N as int)),
            rhs.w.internal != 0,
            fits_i64(self.w.internal * N),
            fits_i64(fx_div(self.w.internal as int, rhs.w.internal as int, N as int)),
        ensures
            r.x.internal == fx_div(self.x.internal as int, rhs.x.internal as int, N as int),
            r.y.internal == fx_div(self.y.internal as int, rhs.y.internal as int, N as int),
            r.z.internal == fx_div(self.z.internal as int, rhs.z.internal as int, N as int),
            r.w.internal == fx_div(self.w.internal as int, rhs.w.internal as int, N as int),
    {
        FxVecVar4 { x: self.x.div(rhs.x), y: self.y.div(rhs.y), z: self.z.div(rhs.z), w: self.w.div(rhs.w) }
    }

    /// Each component add the scalar `s` (`v + s`).
    pub fn add_scalar(self, s: Fx32Var<N>) -> (r: Self)
        requires
            fits_i64(self.x.internal + s.internal),
            fits_i64(self.y.internal + s.internal),
            fits_i64(self.z.internal + s.internal),
            fits_i64(self.w.internal + s.internal),
        ensures
            r.x.internal == self.x.internal + s.internal,
            r.y.internal == self.y.internal + s.internal,
            r.z.internal == self.z.internal + s.internal,
            r.w.internal == self.w.internal + s.internal,
    {
        FxVecVar4 { x: self.x.add(s), y: self.y.add(s), z: self.z.add(s), w: self.w.add(s) }
    }

    /// The scalar `s` add each component (`s + v`).
    pub fn scalar_add(s: Fx32Var<N>, v: Self) -> (r: Self)
        requires
            fits_i64(s.internal + v.x.internal),
            fits_i64(s.internal + v.y.internal),
            fits_i64(s.internal + v.z.internal),
            fits_i64(s.internal + v.w.internal),
        ensures
            r.x.internal == s.internal + v.x.internal,
            r.y.internal == s.internal + v.y.internal,
            r.z.internal == s.internal + v.z.internal,
            r.w.internal == s.internal + v.w.internal,
    {
        FxVecVar4 { x: s.add(v.x), y: s.add(v.y), z: s.add(v.z), w: s.add(v.w) }
    }

    /// Each component sub the scalar `s` (`v - s`).
    pub fn sub_scalar(self, s: Fx32Var<N>) -> (r: Self)
        requires
            fits_i64(self.x.internal - s.internal),
            fits_i64(self.y.internal - s.internal),
            fits_i64(self.z.internal - s.internal),
            fits_i64(self.w.internal - s.internal),
        ensures
            r.x.internal == self.x.internal - s.internal,
            r.y.internal == self.y.internal - s.internal,
            r.z.internal == self.z.internal - s.internal,
            r.w.internal == self.w.internal - s.internal,
    {
        FxVecVar4 { x: self.x.sub(s), y: self.y.sub(s), z: self.z.sub(s), w: self.w.sub(s) }
    }

    /// The scalar `s` sub each component (`s - v`).
    pub fn scalar_sub(s: Fx32Var<N>, v: Self) -> (r: Self)
        requires
            fits_i64(s.internal - v.x.internal),
            fits_i64(s.internal - v.y.internal),
            fits_i64(s.internal - v.z.internal),
            fits_i64(s.internal - v.w.internal),
        ensures
            r.x.internal == s.internal - v.x.internal,
            r.y.internal == s.internal - v.y.internal,
            r.z.internal == s.internal - v.z.internal,
            r.w.internal == s.internal - v.w.internal,
    {
        FxVecVar4 { x: s.sub(v.x), y: s.sub(v.y), z: s.sub(v.z), w: s.sub(v.w) }
    }

    /// Each component mul the scalar `s` (`v * s`).
    pub fn mul_scalar(self, s: Fx32Var<N>) -> (r: Self)
        requires
            resolution_ok(N),
            fits_i64(self.x.internal * s.internal),
            fits_i64(self.y.internal * s.internal),
            fits_i64(self.z.internal * s.internal),
            fits_i64(self.w.internal * s.internal),
        ensures
            r.x.internal == fx_mul(self.x.internal as int, s.internal as int, N as int),
            r.y.internal == fx_mul(self.y.internal as int, s.internal as int, N as int),
            r.z.internal == fx_mul(self.z.internal as int, s.internal as int, N as int),
            r.w.internal == fx_mul(self.w.internal as int, s.internal as int, N as int),
    {
        FxVecVar4 { x: self.x.mul(s), y: self.y.mul(s), z: self.z.mul(s), w: self.w.mul(s) }
    }

    /// The scalar `s` mul each component (`s * v`).
    pub fn scalar_mul(s: Fx32Var<N>, v: Self) -> (r: Self)
        requires
            resolution_ok(N),
            fits_i64(s.internal * v.x.internal),
            fits_i64(s.internal * v.y.internal),
            fits_i64(s.internal * v.z.internal),
            fits_i64(s.internal * v.w.internal),
        ensures
            r.x.internal == fx_mul(s.internal as int, v.x.internal as int, N as int),
            r.y.internal == fx_mul(s.internal as int, v.y.internal as int, N as int),
            r.z.internal == fx_mul(s.internal as int, v.z.internal as int, N as int),
            r.w.internal == fx_mul(s.internal as int, v.w.internal as int, N as int),
    {
        FxVecVar4 { x: s.mul(v.x), y: s.mul(v.y), z: s.mul(v.z), w: s.mul(v.w) }
    }

    /// Each component div the scalar `s` (`v / s`).
    pub fn div_scalar(self, s: Fx32Var<N>) -> (r: Self)
        requires
            resolution_ok(N),
            s.internal != 0,
            fits_i64(self.x.internal * N),
            fits_i64(fx_div(self.x.internal as int, s.internal as int, N as int)),
            fits_i64(self.y.internal * N),
            fits_i64(fx_div(self.y.internal as int, s.internal as int, N as int)),
            fits_i64(self.z.internal * N),
            fits_i64(fx_div(self.z.internal as int, s.internal as int, N as int)),
            fits_i64(self.w.internal * N),
            fits_i64(fx_div(self.w.internal as int, s.internal as int, N as int)),
        ensures
            r.x.internal == fx_div(self.x.internal as int, s.internal as int, N as int),
            r.y.internal == fx_div(self.y.internal as int, s.internal as int, N as int),
            r.z.internal == fx_div(self.z.internal as int, s.internal as int, N as int),
            r.w.internal == fx_div(self.w.internal as int, s.internal as int, N as int),
    {
        FxVecVar4 { x: self.x.div(s), y: self.y.div(s), z: self.z.div(s), w: self.w.div(s) }
    }

    /// The scalar `s` div each component (`s / v`).
    pub fn scalar_div(s: Fx32Var<N>, v: Self) -> (r: Self)
        requires
            resolution_ok(N),
            v.x.internal != 0,
            v.y.internal != 0,
            v.z.internal != 0,
            v.w.internal != 0,
            fits_i64(s.internal * N),
            fits_i64(fx_div(s.internal as int, v.x.internal as int, N as int)),
            fits_i64(fx_div(s.internal as int, v.y.internal as int, N as int)),
            fits_i64(fx_div(s.internal as int, v.z.internal as int, N as int)),
            fits_i64(fx_div(s.internal as int, v.w.internal as int, N as int)),
        ensures
            r.x.internal == fx_div(s.internal as int, v.x.internal as int, N as int),
            r.y.internal == fx_div(s.internal as int, v.y.internal as int, N as int),
            r.z.internal == fx_div(s.internal as int, v.z.internal as int, N as int),
            r.w.internal == fx_div(s.internal as int, v.w.internal as int, N as int),
    {
        FxVecVar4 { x: s.div(v.x), y: s.div(v.y), z: s.div(v.z), w: s.div(v.w) }
    }

    /// The components as an array, in axis order.
    pub fn to_array(self) -> (r: [Fx32Var<N>; 4])
        ensures
            r[0] == self.x,
            r[1] == self.y,
            r[2] == self.z,
            r[3] == self.w,
    {
        [self.x, self.y, self.z, self.w]
    }

    /// The vector whose components are the array's, in axis order.
    pub fn from_array(a: [Fx32Var<N>; 4]) -> (r: Self)
        ensures
            r.x == a[0],
            r.y == a[1],
            r.z == a[2],
            r.w == a[3],
    {
        FxVecVar4 { x: a[0], y: a[1], z: a[2], w: a[3] }
    }

    /// The components as a tuple, in axis order.
    pub fn to_tuple(self) -> (r: (Fx32Var<N>, Fx32Var<N>, Fx32Var<N>, Fx32Var<N>))
        ensures
            r.0 == self.x,
            r.1 == self.y,
            r.2 == self.z,
            r.3 == self.w,
    {
        (self.x, self.y, self.z, self.w)
    }

    /// The vector whose components are the tuple's, in axis order.
    pub fn from_tuple(t: (Fx32Var<N>, Fx32Var<N>, Fx32Var<N>, Fx32Var<N>)) -> (r: Self)
        ensures
            r.x == t.0,
            r.y == t.1,
            r.z == t.2,
            r.w == t.3,
    {
        FxVecVar4 { x: t.0, y: t.1, z: t.2, w: t.3 }
    }

}

} // verus!
