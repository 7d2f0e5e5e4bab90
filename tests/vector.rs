use fx32::{Fx32, FxVec2, FxVec3, FxVec4};

const N: i64 = 65536;

#[test]
fn vector_constants() {
    assert_eq!(FxVec2::zero(), FxVec2::splat(Fx32::zero()));
    assert_eq!(FxVec3::one(), FxVec3::new(Fx32::one(), Fx32::one(), Fx32::one()));
    assert_eq!(FxVec4::min_value().w, Fx32::min_value());
    assert_eq!(FxVec4::max_value().x, Fx32::max_value());
}

#[test]
fn from_raw_does_not_scale() {
    let v = FxVec3::from_raw(1, 2, 3);
    assert_eq!(v.x.raw(), 1);
    assert_eq!(v.y.raw(), 2);
    assert_eq!(v.z.raw(), 3);
}

#[test]
fn index_vec2() {
    let v = FxVec2::new(Fx32::new(1), Fx32::new(2));
    assert_eq!(v.index(0), v.x);
    assert_eq!(v.index(1), v.y);
}

#[test]
fn index_vec4() {
    let v = FxVec4::from_raw(10, 20, 30, 40);
    assert_eq!(v.index(0).raw(), 10);
    assert_eq!(v.index(1).raw(), 20);
    assert_eq!(v.index(2).raw(), 30);
    assert_eq!(v.index(3).raw(), 40);
}

#[test]
fn dot_of_unit_axes_is_zero() {
    let e1 = FxVec2::new(Fx32::one(), Fx32::zero());
    let e2 = FxVec2::new(Fx32::zero(), Fx32::one());
    assert_eq!(e1.dot(e2), Fx32::zero());
    assert_eq!(e1.dot(e1), Fx32::one());
}

#[test]
fn dot_sums_truncated_products() {
    // each product of three epsilons by one half truncates to one epsilon
    let a = FxVec2::from_raw(3, 3);
    let b = FxVec2::from_raw(32768, 32768);
    assert_eq!(a.dot(b).raw(), 2);
    let c = FxVec4::new(Fx32::new(1), Fx32::new(2), Fx32::new(3), Fx32::new(4));
    assert_eq!(c.dot(c), Fx32::new(30));
}

#[test]
fn length_of_three_four() {
    let v = FxVec2::new(Fx32::new(3), Fx32::new(4));
    let len = v.length();
    assert!((len.raw() - Fx32::new(5).raw()).abs() <= 1);
    assert_eq!(len, Fx32::new(5));
}

#[test]
fn length_vec3() {
    let v = FxVec3::new(Fx32::new(2), Fx32::new(3), Fx32::new(6));
    assert_eq!(v.length(), Fx32::new(7));
}

#[test]
fn length_recip_values() {
    assert_eq!(FxVec2::zero().length_recip(), None);
    let v = FxVec2::new(Fx32::new(3), Fx32::new(4));
    // 1/5 = 0.2, floor(0.2 * 65536) = 13107
    assert_eq!(v.length_recip(), Some(Fx32::from_raw(13107)));
}

#[test]
fn normalize_zero_vector() {
    assert_eq!(FxVec2::zero().normalize_or_zero(), FxVec2::zero());
    assert_eq!(FxVec3::zero().normalize_or_zero(), FxVec3::zero());
    assert_eq!(FxVec4::zero().normalize_or_zero(), FxVec4::zero());
}

#[test]
fn normalize_or_fallback_on_zero() {
    let fallback = FxVec2::new(Fx32::one(), Fx32::zero());
    assert_eq!(FxVec2::zero().normalize_or(fallback), fallback);
}

#[test]
fn normalize_three_four() {
    let v = FxVec2::new(Fx32::new(3), Fx32::new(4));
    let u = v.normalize_or_zero();
    // 3 * 13107 = 39321, 4 * 13107 = 52428
    assert_eq!(u, FxVec2::from_raw(39321, 52428));
    assert!((u.length().raw() - N).abs() <= 16);
}

#[test]
fn normalize_axis_truncates() {
    // 1/10 truncates to 6553 raw, and 10 * 6553 = 65530
    let v = FxVec3::new(Fx32::zero(), Fx32::new(10), Fx32::zero());
    assert_eq!(v.normalize_or_zero(), FxVec3::from_raw(0, 65530, 0));
    // a length whose reciprocal is exact normalizes exactly
    let w = FxVec3::new(Fx32::zero(), Fx32::new(4), Fx32::zero());
    assert_eq!(w.normalize_or_zero(), FxVec3::new(Fx32::zero(), Fx32::one(), Fx32::zero()));
}

#[test]
fn normalize_tiny_vector_falls_back() {
    // the dot product of a one-epsilon vector truncates to zero
    let v = FxVec2::from_raw(1, 0);
    assert_eq!(v.normalize_or_zero(), FxVec2::zero());
}

#[test]
fn componentwise_ops() {
    let a = FxVec2::new(Fx32::new(6), Fx32::new(-8));
    let b = FxVec2::new(Fx32::new(2), Fx32::new(4));
    assert_eq!(a.add(b), FxVec2::new(Fx32::new(8), Fx32::new(-4)));
    assert_eq!(a.sub(b), FxVec2::new(Fx32::new(4), Fx32::new(-12)));
    assert_eq!(a.mul(b), FxVec2::new(Fx32::new(12), Fx32::new(-32)));
    assert_eq!(a.div(b), FxVec2::new(Fx32::new(3), Fx32::new(-2)));
}

#[test]
fn scalar_broadcast_ops() {
    let v = FxVec3::new(Fx32::new(2), Fx32::new(4), Fx32::new(-6));
    let s = Fx32::new(2);
    assert_eq!(v.add_scalar(s), FxVec3::new(Fx32::new(4), Fx32::new(6), Fx32::new(-4)));
    assert_eq!(v.sub_scalar(s), FxVec3::new(Fx32::new(0), Fx32::new(2), Fx32::new(-8)));
    assert_eq!(v.mul_scalar(s), FxVec3::new(Fx32::new(4), Fx32::new(8), Fx32::new(-12)));
    assert_eq!(v.div_scalar(s), FxVec3::new(Fx32::new(1), Fx32::new(2), Fx32::new(-3)));
    assert_eq!(FxVec3::scalar_sub(s, v), FxVec3::new(Fx32::new(0), Fx32::new(-2), Fx32::new(8)));
    assert_eq!(FxVec3::scalar_div(Fx32::new(12), v), FxVec3::new(Fx32::new(6), Fx32::new(3), Fx32::new(-2)));
    assert_eq!(FxVec3::scalar_add(s, v), v.add_scalar(s));
    assert_eq!(FxVec3::scalar_mul(s, v), v.mul_scalar(s));
}

#[test]
fn array_and_tuple_conversions() {
    let v = FxVec4::from_raw(1, 2, 3, 4);
    let a = v.to_array();
    assert_eq!(a[0].raw(), 1);
    assert_eq!(a[3].raw(), 4);
    assert_eq!(FxVec4::from_array(a), v);
    let t = v.to_tuple();
    assert_eq!(t.2.raw(), 3);
    assert_eq!(FxVec4::from_tuple(t), v);
    let w = FxVec2::from_tuple((Fx32::new(1), Fx32::new(2)));
    assert_eq!(FxVec2::from_array(w.to_array()), w);
}

#[test]
fn normalized_length_is_bounded_above() {
    let n = N as i128;
    for (x, y) in [(3 * N, 4 * N), (300, 0), (1000, -1000), (-7 * N, 2), (N, N), (123456, 654321)] {
        let v = FxVec2::from_raw(x, y);
        let l = v.length().raw() as i128;
        let m = v.normalize_or_zero().length().raw() as i128;
        assert!(m * m * l * l < n * n * ((l + 1) * (l + 1) + 2 * n));
    }
    // a short vector overshoots: its dot product with itself truncates coarsely
    let short = FxVec2::from_raw(300, 0);
    assert_eq!(short.length().raw(), 256);
    assert_eq!(short.normalize_or_zero().length().raw(), 76800);
}

#[test]
fn normalized_length_is_bounded_above_in_3d_and_4d() {
    let n = N as i128;
    for (x, y, z) in [(2 * N, 3 * N, 6 * N), (300, 5, -9), (N, -N, N)] {
        let v = FxVec3::from_raw(x, y, z);
        let l = v.length().raw() as i128;
        let m = v.normalize_or_zero().length().raw() as i128;
        assert!(m * m * l * l < n * n * ((l + 1) * (l + 1) + 3 * n));
    }
    for (x, y, z, w) in [(N, 2 * N, 3 * N, 4 * N), (77777, -1, 2, 400)] {
        let v = FxVec4::from_raw(x, y, z, w);
        let l = v.length().raw() as i128;
        let m = v.normalize_or_zero().length().raw() as i128;
        assert!(m * m * l * l < n * n * ((l + 1) * (l + 1) + 4 * n));
    }
}
