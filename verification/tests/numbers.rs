use spaceapi::text::{parse_bool, parse_u64, str_before, str_eq};
use spaceapi::Double;

fn double(x: f64) -> Double {
    Double::from_bits(x.to_bits())
}

#[test]
fn whole_numbers_become_the_nearest_double() {
    let mut samples: Vec<u64> = vec![
        0,
        1,
        2,
        3,
        42,
        1 << 52,
        (1 << 53) - 1,
        1 << 53,
        (1 << 53) + 1,
        (1 << 53) + 2,
        (1 << 53) + 3,
        (1 << 54) + 2,
        (1 << 54) + 6,
        (1 << 63) - 1,
        1 << 63,
        (1 << 63) + 1024,
        (1 << 63) + 1025,
        (1 << 63) + 3072,
        u64::MAX - 2048,
        u64::MAX - 1024,
        u64::MAX - 1023,
        u64::MAX - 1,
        u64::MAX,
        9007199254740993,
        123456789012345678,
        18014398509481985,
    ];
    let mut x: u64 = 0x9E3779B97F4A7C15;
    for shift in 0..64 {
        x ^= x << 13;
        x ^= x >> 7;
        x ^= x << 17;
        samples.push(x);
        samples.push(x >> shift);
        samples.push((1u64 << shift) + (x >> 55));
        samples.push((1u64 << shift).wrapping_sub(1));
    }
    for n in samples {
        assert_eq!(Double::from_u64(n), double(n as f64), "{}", n);
    }
}

#[test]
fn negative_whole_numbers_become_the_nearest_double() {
    let samples: Vec<i64> = vec![
        0,
        1,
        -1,
        -2,
        -42,
        i64::MIN,
        i64::MIN + 1,
        i64::MIN + 512,
        i64::MIN + 513,
        i64::MAX,
        i64::MAX - 511,
        i64::MAX - 512,
        -9007199254740993,
        -9007199254740992,
        -9007199254740995,
        -(1 << 53) - 1,
        -(1 << 60) - 129,
    ];
    for i in samples {
        assert_eq!(Double::from_i64(i), double(i as f64), "{}", i);
    }
}

#[test]
fn finite_doubles() {
    for x in [0.0, -0.0, 1.5, -47.22936, f64::MAX, f64::MIN, f64::MIN_POSITIVE, 5e-324] {
        assert!(double(x).is_finite(), "{}", x);
    }
    for x in [f64::NAN, f64::INFINITY, f64::NEG_INFINITY, -f64::NAN] {
        assert!(!double(x).is_finite(), "{}", x);
    }
    assert_eq!(Double::default(), double(0.0));
    assert_eq!(Double::from_bits(0x4045000000000000).to_bits(), 42.0f64.to_bits());
}

#[test]
fn whole_numbers_are_read_as_std_reads_them() {
    let texts = [
        "0",
        "8",
        "+8",
        "007",
        "18446744073709551615",
        "18446744073709551616",
        "+18446744073709551615",
        "99999999999999999999999",
        "",
        "+",
        "-",
        "-0",
        "-1",
        "++1",
        "1+",
        " 1",
        "1 ",
        "1.0",
        "1e3",
        "0x10",
        "two",
        "１２",
        "1２",
        "é",
        "+é",
        "12é",
    ];
    for text in texts {
        assert_eq!(parse_u64(text), text.parse::<u64>().ok(), "{:?}", text);
    }
    assert_eq!(parse_u64("8"), Some(8));
    assert_eq!(parse_u64("18446744073709551615"), Some(u64::MAX));
    assert_eq!(parse_u64("18446744073709551616"), None);
}

#[test]
fn truth_values_are_read_as_std_reads_them() {
    for text in ["true", "false", "True", "FALSE", "", "1", "0", "yes", " true", "truee"] {
        assert_eq!(parse_bool(text), text.parse::<bool>().ok(), "{:?}", text);
    }
    assert_eq!(parse_bool("true"), Some(true));
    assert_eq!(parse_bool("false"), Some(false));
}

#[test]
fn strings_are_compared_by_their_characters() {
    assert!(str_eq("", ""));
    assert!(str_eq("µSv/h", "µSv/h"));
    assert!(!str_eq("µSv/h", "mSv/h"));
    assert!(!str_eq("ab", "abc"));
    assert!(!str_eq("abc", "abd"));
}

#[test]
fn strings_stand_in_the_order_of_std() {
    let samples = ["", "a", "A", "aa", "ab", "b", "ext_", "foo", "fo", "µ", "é", "zz", "z\u{10000}", "\u{ffff}", "€"];
    for a in samples {
        for b in samples {
            assert_eq!(str_before(a, b), a < b, "{:?} {:?}", a, b);
        }
    }
}
