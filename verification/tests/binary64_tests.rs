use vigilance::binary64::{bits_at_least, bits_less_than, push_whole_number};

fn whole(x: f64) -> String {
    let mut s = String::new();
    push_whole_number(&mut s, x.to_bits());
    s
}

#[test]
fn whole_number_special_values() {
    assert_eq!(whole(f64::NAN), "NaN");
    assert_eq!(whole(f64::INFINITY), "inf");
    assert_eq!(whole(f64::NEG_INFINITY), "-inf");
    assert_eq!(whole(0.0), "0");
    assert_eq!(whole(0.5), "0");
    assert_eq!(whole(1.5), "2");
    assert_eq!(whole(2.5), "2");
    assert_eq!(whole(89.6), "90");
}

#[test]
fn whole_number_agrees_with_float_formatting() {
    let mut x: u64 = 0x2545F4914F6CDD1D;
    let mut values: Vec<f64> = vec![0.0, -0.0, 0.49999999999999994, 0.5, 99.5, 100.0, 1e15, 4503599627370495.5];
    for i in 0..20000u64 {
        values.push(i as f64 / 8.0);
        values.push(i as f64 / 3.0);
    }
    for _ in 0..200000 {
        x ^= x << 13;
        x ^= x >> 7;
        x ^= x << 17;
        let used = x % 1_000_000_007;
        let total = (x >> 20) % 1_000_000_009 + 1;
        values.push(used as f64 / total as f64 * 100.0);
        if x % 64 == 0 {
            values.push(f64::from_bits(x));
        }
    }
    for v in values {
        assert_eq!(whole(v), format!("{:.0}", v), "value = {:e}", v);
    }
}

#[test]
fn comparisons_agree_with_float_comparisons() {
    let mut x: u64 = 0x1234_5678_9ABC_DEF1;
    let mut values: Vec<f64> = vec![f64::NAN, f64::INFINITY, f64::NEG_INFINITY, 0.0, -0.0, 89.99999999999999, 90.0, 95.0, 255.0, 1e-320];
    for i in 0..3000u64 {
        values.push(i as f64 / 10.0);
    }
    for _ in 0..100000 {
        x ^= x << 13;
        x ^= x >> 7;
        x ^= x << 17;
        values.push(f64::from_bits(x));
        values.push((x % 30000) as f64 / 100.0);
    }
    for v in values {
        for t in [0u8, 1, 5, 20, 90, 95, 100, 255] {
            assert_eq!(bits_less_than(v.to_bits(), t), v < t as f64, "{} < {}", v, t);
            assert_eq!(bits_at_least(v.to_bits(), t), v >= t as f64, "{} >= {}", v, t);
        }
    }
}

#[test]
fn whole_number_of_huge_values() {
    for v in [1e300, f64::MAX, -f64::MAX, 2f64.powi(117), 2f64.powi(53) + 2.0, 1e22, 123456789012345680000.0] {
        assert_eq!(whole(v), format!("{:.0}", v));
    }
    assert_eq!(whole(f64::MAX).len(), 309);
}
