use std::cmp::Ordering;
use stupid_float::{StupidFloat32, StupidFloat64};

fn w64(x: f64) -> StupidFloat64 {
    StupidFloat64::from_bits(x.to_bits())
}

fn w32(x: f32) -> StupidFloat32 {
    StupidFloat32::from_bits(x.to_bits())
}

fn text64(v: StupidFloat64) -> String {
    v.render(format!("{}", f64::from_bits(v.to_bits())))
}

fn text32(v: StupidFloat32) -> String {
    v.render(format!("{}", f32::from_bits(v.to_bits())))
}

fn patterns64() -> Vec<u64> {
    vec![
        0x0000_0000_0000_0000,
        0x8000_0000_0000_0000,
        0x0000_0000_0000_0001,
        0x8000_0000_0000_0001,
        1.0f64.to_bits(),
        (-1.0f64).to_bits(),
        1.5f64.to_bits(),
        (-3.25f64).to_bits(),
        f64::MAX.to_bits(),
        f64::MIN.to_bits(),
        f64::INFINITY.to_bits(),
        f64::NEG_INFINITY.to_bits(),
        0x7ff0_0000_0000_0001,
        0x7ff8_0000_0000_0000,
        0x7fff_ffff_ffff_ffff,
        0xfff0_0000_0000_0001,
        0xfff8_0000_0000_0000,
        0xffff_ffff_ffff_ffff,
    ]
}

fn patterns32() -> Vec<u32> {
    vec![
        0x0000_0000,
        0x8000_0000,
        0x0000_0001,
        0x8000_0001,
        1.0f32.to_bits(),
        (-1.0f32).to_bits(),
        1.5f32.to_bits(),
        (-3.25f32).to_bits(),
        f32::MAX.to_bits(),
        f32::MIN.to_bits(),
        f32::INFINITY.to_bits(),
        f32::NEG_INFINITY.to_bits(),
        0x7f80_0001,
        0x7fc0_0000,
        0x7fff_ffff,
        0xff80_0001,
        0xffc0_0000,
        0xffff_ffff,
    ]
}

#[test]
fn default_displays_zero() {
    assert_eq!(text64(StupidFloat64::default()), "0");
    assert_eq!(text32(StupidFloat32::default()), "0");
}

#[test]
fn default_above_negative_nan() {
    let n64 = StupidFloat64::from_bits(0xfff8_0000_0000_0000);
    assert_eq!(StupidFloat64::default().partial_cmp(&n64), Some(Ordering::Greater));
    assert!(StupidFloat64::default() > n64);
    let n32 = StupidFloat32::from_bits(0xffc0_0000);
    assert_eq!(StupidFloat32::default().partial_cmp(&n32), Some(Ordering::Greater));
    assert!(StupidFloat32::default() > n32);
}

#[test]
fn nan_against_numbers_by_sign() {
    let pos = w64(f64::NAN);
    let neg = w64(-f64::NAN);
    for x in [f64::NEG_INFINITY, -1.0, -0.0, 0.0, 2.5, f64::INFINITY] {
        assert!(neg < w64(x));
        assert!(w64(x) < pos);
        assert!(neg != w64(x));
        assert!(pos != w64(x));
    }
    let pos32 = w32(f32::NAN);
    let neg32 = w32(-f32::NAN);
    for x in [f32::NEG_INFINITY, -1.0, -0.0, 0.0, 2.5, f32::INFINITY] {
        assert!(neg32 < w32(x));
        assert!(w32(x) < pos32);
    }
}

#[test]
fn order_is_total_and_antisymmetric() {
    for &a in &patterns64() {
        for &b in &patterns64() {
            let (x, y) = (StupidFloat64::from_bits(a), StupidFloat64::from_bits(b));
            let o = x.partial_cmp(&y).unwrap();
            assert_eq!(y.partial_cmp(&x), Some(o.reverse()));
            assert_eq!(x == y, o == Ordering::Equal);
            assert_eq!(x == y, y == x);
            if x < y {
                assert!(!(y < x));
            }
        }
    }
    for &a in &patterns32() {
        for &b in &patterns32() {
            let (x, y) = (StupidFloat32::from_bits(a), StupidFloat32::from_bits(b));
            let o = x.partial_cmp(&y).unwrap();
            assert_eq!(y.partial_cmp(&x), Some(o.reverse()));
            assert_eq!(x == y, o == Ordering::Equal);
        }
    }
}

#[test]
fn order_is_transitive() {
    let ps = patterns64();
    for &a in &ps {
        for &b in &ps {
            for &c in &ps {
                let (x, y, z) = (
                    StupidFloat64::from_bits(a),
                    StupidFloat64::from_bits(b),
                    StupidFloat64::from_bits(c),
                );
                if x < y && y < z {
                    assert!(x < z);
                }
                if x == y && y == z {
                    assert!(x == z);
                }
            }
        }
    }
}

#[test]
fn sorting_places_every_pattern() {
    let mut vs: Vec<StupidFloat64> = patterns64().into_iter().map(StupidFloat64::from_bits).collect();
    vs.sort_by(|a, b| a.partial_cmp(b).unwrap());
    let bits: Vec<u64> = vs.iter().map(|v| v.to_bits()).collect();
    assert_eq!(bits[0], 0xffff_ffff_ffff_ffff);
    assert_eq!(bits[1], 0xfff8_0000_0000_0000);
    assert_eq!(bits[2], 0xfff0_0000_0000_0001);
    assert_eq!(bits[3], f64::NEG_INFINITY.to_bits());
    assert_eq!(bits[bits.len() - 1], 0x7fff_ffff_ffff_ffff);
    assert_eq!(bits[bits.len() - 4], f64::INFINITY.to_bits());
}

#[test]
fn every_pattern_equals_itself() {
    for &a in &patterns64() {
        let x = StupidFloat64::from_bits(a);
        assert!(x == x);
        assert_eq!(x.partial_cmp(&x), Some(Ordering::Equal));
    }
    for &a in &patterns32() {
        let x = StupidFloat32::from_bits(a);
        assert!(x == x);
    }
    assert!(f64::NAN != f64::NAN);
}

#[test]
fn distinct_nans_are_unequal() {
    let a = StupidFloat64::from_bits(0x7ff8_0000_0000_0000);
    let b = StupidFloat64::from_bits(0x7ff8_0000_0000_0001);
    let c = StupidFloat64::from_bits(0xfff8_0000_0000_0000);
    assert!(a != b);
    assert!(a != c);
    let d = StupidFloat32::from_bits(0x7fc0_0000);
    let e = StupidFloat32::from_bits(0x7fc0_0001);
    assert!(d != e);
}

#[test]
fn negative_nan_below_positive_nan() {
    let n = StupidFloat64::from_bits(0xffff_ffff_ffff_ffff);
    let p = StupidFloat64::from_bits(0x7ff0_0000_0000_0001);
    assert_eq!(n.partial_cmp(&p), Some(Ordering::Less));
    assert_eq!(p.partial_cmp(&n), Some(Ordering::Greater));
    let n32 = StupidFloat32::from_bits(0xffff_ffff);
    let p32 = StupidFloat32::from_bits(0x7f80_0001);
    assert_eq!(n32.partial_cmp(&p32), Some(Ordering::Less));
}

#[test]
fn positive_nans_ascend_with_mantissa() {
    let a = StupidFloat64::from_bits(0x7ff0_0000_0000_0001);
    let b = StupidFloat64::from_bits(0x7ff8_0000_0000_0000);
    assert_eq!(a.partial_cmp(&b), Some(Ordering::Less));
    let c = StupidFloat32::from_bits(0x7f80_0001);
    let d = StupidFloat32::from_bits(0x7fc0_0000);
    assert_eq!(c.partial_cmp(&d), Some(Ordering::Less));
}

#[test]
fn negative_nans_descend_with_mantissa() {
    let a = StupidFloat64::from_bits(0xfff0_0000_0000_0001);
    let b = StupidFloat64::from_bits(0xfff8_0000_0000_0000);
    assert_eq!(a.partial_cmp(&b), Some(Ordering::Greater));
    let c = StupidFloat32::from_bits(0xff80_0001);
    let d = StupidFloat32::from_bits(0xffc0_0000);
    assert_eq!(c.partial_cmp(&d), Some(Ordering::Greater));
}

#[test]
fn numbers_compare_natively() {
    let xs = [f64::NEG_INFINITY, f64::MIN, -3.25, -1.0, -f64::MIN_POSITIVE, -0.0, 0.0, 5e-324, 1.0, 1.5, f64::MAX, f64::INFINITY];
    for &x in &xs {
        for &y in &xs {
            assert_eq!(w64(x).partial_cmp(&w64(y)), x.partial_cmp(&y));
            assert_eq!(w64(x) == w64(y), x == y);
        }
    }
    assert!(w64(0.0) == w64(-0.0));
    let ys = [f32::NEG_INFINITY, f32::MIN, -3.25, -1.0, -0.0, 0.0, 1e-45, 1.0, 1.5, f32::MAX, f32::INFINITY];
    for &x in &ys {
        for &y in &ys {
            assert_eq!(w32(x).partial_cmp(&w32(y)), x.partial_cmp(&y));
            assert_eq!(w32(x) == w32(y), x == y);
        }
    }
}

#[test]
fn numbers_display_and_read_back() {
    for &x in &[0.0f64, -0.0, 1.5, -3.25, 0.1, 1e300, f64::MAX, f64::INFINITY, f64::NEG_INFINITY] {
        let t = text64(w64(x));
        let back: f64 = t.parse().unwrap();
        assert_eq!(back.to_bits(), x.to_bits());
    }
    for &x in &[0.0f32, 1.5, -3.25, 0.1, f32::MAX] {
        let t = text32(w32(x));
        let back: f32 = t.parse().unwrap();
        assert_eq!(back.to_bits(), x.to_bits());
    }
    assert_eq!(text64(w64(1.5)), "1.5");
    assert_eq!(text64(w64(-3.25)), "-3.25");
}

#[test]
fn nans_display_their_sign() {
    assert_eq!(text64(StupidFloat64::from_bits(0x7ff8_0000_0000_0000)), "+NaN");
    assert_eq!(text64(StupidFloat64::from_bits(0xfff8_0000_0000_0001)), "-NaN");
    assert_eq!(text32(StupidFloat32::from_bits(0x7fc0_0000)), "+NaN");
    assert_eq!(text32(StupidFloat32::from_bits(0xff80_0001)), "-NaN");
    assert!(StupidFloat64::from_bits(0xfff8_0000_0000_0000).is_nan());
    assert!(!StupidFloat64::from_bits(0xfff0_0000_0000_0000).is_nan());
    assert!(StupidFloat32::from_bits(0xff80_0001).is_sign_negative());
}
