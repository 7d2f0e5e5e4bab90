use fx32::{AsFx32, Fx32, Fx32Var, DEFAULT_RESOLUTION};

const N: i64 = 65536;

#[test]
fn resolution_is_default() {
    assert_eq!(Fx32::resolution(), N);
    assert_eq!(DEFAULT_RESOLUTION, 65536);
}

#[test]
fn constants_have_their_raw_values() {
    assert_eq!(Fx32::zero().raw(), 0);
    assert_eq!(Fx32::one().raw(), N);
    assert_eq!(Fx32::min_value().raw(), i32::MIN as i64);
    assert_eq!(Fx32::max_value().raw(), i32::MAX as i64);
    assert_eq!(Fx32::epsilon().raw(), 1);
}

#[test]
fn new_scales_by_resolution() {
    assert_eq!(Fx32::new(3).raw(), 3 * N);
    assert_eq!(Fx32::new(-7).raw(), -7 * N);
    assert_eq!(Fx32::new(i32::MAX).raw(), i32::MAX as i64 * N);
    assert_eq!(Fx32::new(i32::MIN).raw(), i32::MIN as i64 * N);
}

#[test]
fn other_resolution() {
    assert_eq!(Fx32Var::<1000>::new(2).raw(), 2000);
    assert_eq!(Fx32Var::<1000>::one().mul(Fx32Var::<1000>::from_raw(1500)).raw(), 1500);
}

#[test]
fn from_parts_adds_fraction() {
    assert_eq!(Fx32::from_parts(1, 32768).raw(), 98304);
    assert_eq!(Fx32::from_parts(-1, 32768).raw(), -32768);
}

#[test]
fn raw_round_trip() {
    for raw in [0i64, 1, -1, 98304, i64::MAX, i64::MIN] {
        assert_eq!(Fx32::from_raw(Fx32::from_raw(raw).raw()).raw(), raw);
    }
}

#[test]
fn integer_round_trip() {
    for k in [0i32, 1, -1, 12345, -98765, i32::MAX, i32::MIN] {
        assert_eq!(Fx32::new(k).as_i32(), k);
    }
}

#[test]
fn as_i32_truncates_toward_zero() {
    assert_eq!(Fx32::from_raw(98304).as_i32(), 1);
    assert_eq!(Fx32::from_raw(-98304).as_i32(), -1);
    assert_eq!(Fx32::from_raw(-1).as_i32(), 0);
    assert_eq!(Fx32::from_raw(N - 1).as_i32(), 0);
}

#[test]
fn add_then_sub() {
    let a = Fx32::from_raw(123456);
    let b = Fx32::from_raw(-98765);
    assert_eq!(a.add(b).raw(), 123456 - 98765);
    assert_eq!(a.add(b).sub(b), a);
}

#[test]
fn mul_by_one_and_zero() {
    for raw in [0i64, 1, -1, 98304, -123457, 1 << 31] {
        let a = Fx32::from_raw(raw);
        assert_eq!(a.mul(Fx32::one()), a);
        assert_eq!(a.mul(Fx32::zero()), Fx32::zero());
    }
}

#[test]
fn mul_truncates_toward_zero() {
    // 1.5 * 1.5 = 2.25
    assert_eq!(Fx32::from_raw(98304).mul(Fx32::from_raw(98304)).raw(), 147456);
    // three epsilons times one half is one and a half epsilons
    assert_eq!(Fx32::from_raw(3).mul(Fx32::from_raw(32768)).raw(), 1);
    assert_eq!(Fx32::from_raw(-3).mul(Fx32::from_raw(32768)).raw(), -1);
}

#[test]
fn div_truncates_toward_zero() {
    assert_eq!(Fx32::new(3).div(Fx32::new(2)).raw(), 98304);
    assert_eq!(Fx32::new(1).div(Fx32::new(3)).raw(), 21845);
    assert_eq!(Fx32::new(-1).div(Fx32::new(3)).raw(), -21845);
    assert_eq!(Fx32::new(1).div(Fx32::new(-3)).raw(), -21845);
}

#[test]
fn div_self_is_one() {
    for raw in [1i64, -1, 7, 98304, -123457, 1 << 40] {
        let a = Fx32::from_raw(raw);
        assert_eq!(a.div(a), Fx32::one());
    }
}

#[test]
fn neg_flips_sign() {
    assert_eq!(Fx32::new(5).neg().raw(), -5 * N);
    assert_eq!(Fx32::zero().neg(), Fx32::zero());
}

#[test]
fn sqrt_values() {
    assert_eq!(Fx32::new(4).sqrt(), Fx32::new(2));
    assert_eq!(Fx32::new(25).sqrt(), Fx32::new(5));
    assert_eq!(Fx32::zero().sqrt(), Fx32::zero());
    // sqrt(2) = 1.41421356..., floor(1.41421356 * 65536) = 92681
    assert_eq!(Fx32::new(2).sqrt().raw(), 92681);
    // sqrt(one epsilon) = sqrt(65536) raw = 256
    assert_eq!(Fx32::epsilon().sqrt().raw(), 256);
}

#[test]
fn sqrt_of_square() {
    for raw in [0i64, 1, 255, 256, 1000, 65536, 98304, 1 << 24, 123456789] {
        let a = Fx32::from_raw(raw);
        let r = a.mul(a).sqrt().raw();
        assert!(r <= raw);
        assert!(raw * raw < (r + 1) * (r + 1) + N);
    }
}

#[test]
fn recip_of_zero_is_none() {
    assert_eq!(Fx32::zero().recip(), None);
}

#[test]
fn recip_values() {
    assert_eq!(Fx32::new(2).recip(), Some(Fx32::from_raw(32768)));
    assert_eq!(Fx32::new(-4).recip(), Some(Fx32::from_raw(-16384)));
    assert_eq!(Fx32::one().recip(), Some(Fx32::one()));
    assert_eq!(Fx32::new(3).recip(), Some(Fx32::from_raw(21845)));
    // a magnitude beyond N * N has a reciprocal that truncates to zero
    assert_eq!(Fx32::from_raw((N * N) + 1).recip(), Some(Fx32::zero()));
}

#[test]
fn recip_twice() {
    for raw in [1i64, -1, 3, 98304, -123457, 1 << 20, N * N] {
        let a = Fx32::from_raw(raw);
        let r1 = a.recip().unwrap();
        let r2 = r1.recip().unwrap().raw();
        assert_eq!(r2 > 0, raw > 0);
        assert!(raw.abs() <= r2.abs());
        assert!((r2.abs() - raw.abs()) * r1.raw().abs() < raw.abs());
    }
    let a = Fx32::new(3);
    let back = a.recip().unwrap().recip().unwrap();
    assert!((back.raw() - a.raw()).abs() <= 1 << 4);
}

#[test]
fn as_fx32_on_integers() {
    let a: Fx32 = 5i32.as_fx32();
    assert_eq!(a, Fx32::new(5));
    let b: Fx32Var<10> = (-3i32).as_fx32();
    assert_eq!(b.raw(), -30);
}

#[test]
fn persisted_raw_scalar() {
    // 1.5 at resolution 65536 is raw 98304, however it is built
    let from_raw = Fx32::from_raw(98304);
    let from_parts = Fx32::from_parts(1, 32768);
    let from_ratio = Fx32::new(3).div(Fx32::new(2));
    assert_eq!(from_raw, from_parts);
    assert_eq!(from_raw, from_ratio);
    assert_eq!(from_raw.raw(), 98304);
}

#[test]
fn equality_is_by_raw_value() {
    assert_eq!(Fx32::from_raw(5), Fx32::from_raw(5));
    assert_ne!(Fx32::from_raw(5), Fx32::from_raw(6));
}
