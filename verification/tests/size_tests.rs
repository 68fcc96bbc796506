use pc_doctor::size::{parse_reading, Reading};

fn v(s: &str) -> Vec<char> {
    s.chars().collect()
}

fn fmt(text: &str) -> Option<String> {
    parse_reading(&v(text)).map(|d| d.format().into_iter().collect())
}

fn above(text: &str, limit: u32) -> bool {
    parse_reading(&v(text)).unwrap().above(limit)
}

fn below(text: &str, limit: u32) -> bool {
    parse_reading(&v(text)).unwrap().below(limit)
}

#[test]
fn size_writes_what_floats_write() {
    for text in ["12.5", "0", ".5", "5.", "-3.2", "+3.2", "-0", "100.05", "1.25", "007.30",
        "123456789.75", "0.125", "99.96", "-0.04", "123456789012.5", "1e3", "2.5E+2",
        "125e-3", "0.0001e4", "12E0", "-7.25e1", "3e-5", "1e-400", "9e15",
        "inf", "-inf", "+Infinity", "INF", "-iNfInItY", "NaN", "nan", "-NaN", "1e400",
        "-1e400"]
    {
        let f: f64 = text.parse().unwrap();
        assert_eq!(fmt(text), Some(format!("{:.1}", f)), "{text}");
    }
}

#[test]
fn size_rejects_what_floats_reject() {
    for text in ["", ".", "-", "+", "1,5", " 1.5", "1.5 ", "1.2.3", "--1", "abc", "1_0", "e3",
        "1e", "1e+", "1e-", "1e3.5", "1ee3", ".e1", "in", "infinit", "nana", "+-1", "1e++3",
        "0x10", "∞"]
    {
        assert!(text.parse::<f64>().is_err(), "{text}");
        assert!(parse_reading(&v(text)).is_none(), "{text}");
    }
}

#[test]
fn size_reads_exponents() {
    assert!(above("1e3", 100));
    assert!(above("2.5E+2", 200));
    assert!(!above("1e2", 100));
    assert!(above("1.00001e2", 100));
    assert!(below("9.99e0", 10));
    assert!(!below("1E1", 10));
    assert!(below("5e-1", 10));
    assert_eq!(fmt("1e3"), Some("1000.0".to_string()));
    assert_eq!(fmt("2.5E+2"), Some("250.0".to_string()));
    assert_eq!(fmt("4.56e-2"), Some("0.0".to_string()));
    assert_eq!(fmt("5.6e-2"), Some("0.1".to_string()));
}

#[test]
fn size_infinity_and_nan() {
    assert!(above("inf", 100));
    assert!(above("Infinity", 500));
    assert!(!below("inf", 10));
    assert!(!above("-inf", 100));
    assert!(below("-INF", 10));
    assert!(above("1e400", 100));
    assert!(below("-1e400", 10));
    for text in ["NaN", "nan", "-NaN", "+nAn"] {
        assert!(!above(text, 100), "{text}");
        assert!(!below(text, 10), "{text}");
        assert!(!above(text, 0), "{text}");
        assert!(!below(text, 0), "{text}");
        assert_eq!(fmt(text), Some("NaN".to_string()));
    }
    assert_eq!(fmt("inf"), Some("inf".to_string()));
    assert_eq!(fmt("-infinity"), Some("-inf".to_string()));
    assert_eq!(fmt("1e400"), Some("inf".to_string()));
}

#[test]
fn size_compares_exactly_with_limits() {
    assert!(above("100.05", 100));
    assert!(above("100.0001", 100));
    assert!(!above("100.000", 100));
    assert!(!above("100", 100));
    assert!(above("101", 100));
    assert!(above("123456789012345678901234567890", 100));
    assert!(!above("-500", 100));
    assert!(!above("-0", 100));
    assert!(below("9.99", 10));
    assert!(!below("10", 10));
    assert!(!below("10.01", 10));
    assert!(below("-0", 10));
    assert!(below("-50", 10));
    for (t, l) in [("100.05", 100u32), ("99.5", 100), ("200.01", 200), ("9.5", 10), ("10", 10),
        ("0", 0), ("-0", 0), ("-0.5", 0), ("0.5", 0), ("-0e5", 0), ("1e-3", 0), ("1e1", 10),
        ("4294967295", 4294967295), ("1e20", 4294967295), ("4294967294.9999999", 4294967295)]
    {
        let f: f64 = t.parse().unwrap();
        assert_eq!(above(t, l), f > l as f64, "{t} {l}");
        assert_eq!(below(t, l), f < l as f64, "{t} {l}");
    }
}

#[test]
fn size_negative_zero_is_not_below_zero() {
    assert!(!below("-0", 0));
    assert!(!below("-0.000", 0));
    assert!(!below("-0e-7", 0));
    assert!(below("-0.001", 0));
    assert!(below("-1e-9", 0));
    assert!(below("-0", 1));
}

#[test]
fn size_rounds_ties_to_even() {
    assert_eq!(fmt("12.25"), Some("12.2".to_string()));
    assert_eq!(fmt("12.75"), Some("12.8".to_string()));
    assert_eq!(fmt("12.251"), Some("12.3".to_string()));
    assert_eq!(fmt("9.96"), Some("10.0".to_string()));
    assert_eq!(fmt("999.95"), Some("1000.0".to_string()));
    assert_eq!(fmt("0.04"), Some("0.0".to_string()));
    assert_eq!(fmt("1225e-2"), Some("12.2".to_string()));
}

#[test]
fn size_whole_numbers() {
    let d: Reading = Reading::from_whole(100);
    assert_eq!(d.format().into_iter().collect::<String>(), "100.0");
    assert!(!d.above(100));
    assert!(!d.below(100));
    assert!(d.above(99));
    assert!(d.below(101));
    assert_eq!(Reading::from_whole(0).format().into_iter().collect::<String>(), "0.0");
    let big = Reading::from_whole(u64::MAX);
    assert_eq!(big.format().into_iter().collect::<String>(), format!("{:.1}", u64::MAX as f64));
    assert_eq!(big.format().into_iter().collect::<String>(), "18446744073709551616.0");
    assert!(big.above(u32::MAX));
    assert!(!big.below(u32::MAX));
}

#[test]
fn size_format_reads_back() {
    for text in ["12.25", "0.06", "-3.14159", "99.95", "42", "1e3", "-2.5e-1", "7E2"] {
        let once = fmt(text).unwrap();
        assert_eq!(fmt(&once), Some(once.clone()), "{text}");
    }
}

#[test]
fn size_half_way_tenths_follow_the_nearest_float() {
    assert_eq!(fmt("0.15"), Some("0.1".to_string()));
    assert_eq!(fmt("0.45"), Some("0.5".to_string()));
    assert_eq!(fmt("0.35"), Some("0.3".to_string()));
    assert_eq!(fmt("0.25"), Some("0.2".to_string()));
    assert_eq!(fmt("1.5e-1"), Some("0.1".to_string()));
    for whole in (0..300u64).chain([1023, 4096, 65535, 99999, 1234567, 987654321, 123456789012]) {
        for tenth in 0..10u64 {
            for tail in ["5", "50", "500000"] {
                for sign in ["", "-"] {
                    let text = format!("{sign}{whole}.{tenth}{tail}");
                    let f: f64 = text.parse().unwrap();
                    assert_eq!(fmt(&text), Some(format!("{:.1}", f)), "{text}");
                }
            }
        }
    }
    for text in ["281474976710655.65", "140737488355327.85", "70368744177663.95",
        "35184372088831.45", "281474976710655.95", "0.05", "0.95", "-0.05"]
    {
        let f: f64 = text.parse().unwrap();
        assert_eq!(fmt(text), Some(format!("{:.1}", f)), "{text}");
    }
}

#[test]
fn size_overflows_where_floats_do() {
    let threshold = "179769313486231580793728971405303415079934132710037826936173778980444968292764750946649017977587207096330286416692887910946555547851940402630657488671505820681908902000708383676273854845817711531764475730270069855571366959622842914819860834936475292719074168444365510704342711559699508093042880177904174497792";
    let below_threshold = "179769313486231580793728971405303415079934132710037826936173778980444968292764750946649017977587207096330286416692887910946555547851940402630657488671505820681908902000708383676273854845817711531764475730270069855571366959622842914819860834936475292719074168444365510704342711559699508093042880177904174497791";
    for text in [threshold, "1.7976931348623159e308", "1e309", "-1e309", "2e308", "0.18e310"] {
        let f: f64 = text.parse().unwrap();
        assert!(f.is_infinite(), "{text}");
        assert_eq!(fmt(text), Some(format!("{:.1}", f)), "{text}");
    }
    for text in [below_threshold, "1.7976931348623158e308", "1.7976931348623157e308", "1e308"] {
        let f: f64 = text.parse().unwrap();
        assert!(f.is_finite(), "{text}");
        assert_eq!(fmt(text), Some(format!("{:.1}", f)), "{text}");
        assert!(above(text, u32::MAX));
        assert!(!below(text, u32::MAX));
    }
    assert_eq!(fmt(&format!("-{threshold}")), Some("-inf".to_string()));
    assert_eq!(fmt(&format!("{threshold}.0001")), Some("inf".to_string()));
    assert_eq!(fmt(&format!("0000{threshold}e0")), Some("inf".to_string()));
    assert_eq!(fmt(&format!("{}.93e2", &threshold[..307])), Some("inf".to_string()));
    assert!(!fmt(&format!("{}.91e2", &threshold[..307])).unwrap().contains("inf"));
    assert!(!fmt(&format!("{}9e1", &below_threshold[..307])).unwrap().contains("inf"));
}

/// The decimal digits of `5^n`.
fn pow5_digits(n: usize) -> String {
    let mut d: Vec<u32> = vec![1];
    for _ in 0..n {
        let mut carry = 0;
        for x in d.iter_mut() {
            let y = *x * 5 + carry;
            *x = y % 10;
            carry = y / 10;
        }
        while carry > 0 {
            d.push(carry % 10);
            carry /= 10;
        }
    }
    d.iter().rev().map(|x| char::from_digit(*x, 10).unwrap()).collect()
}

/// `2^-n` written out in full, as `5^n / 10^n`.
fn half_pow(n: usize) -> String {
    let five = pow5_digits(n);
    format!("0.{}{}", "0".repeat(n - five.len()), five)
}

#[test]
fn size_compares_as_the_nearest_float() {
    let limits = [0u32, 1, 2, 7, 8, 10, 50, 64, 100, 200, 500, 1000, 65536, 4294967295];
    let mut texts: Vec<String> = Vec::new();
    for l in limits {
        for frac in ["0000000000000071054", "0000000000000071055", "00000000000000710542735760100185871124267578125",
            "000000000000007105427357601001858711242675781251", "00000000000000710542735760100185871124267578124",
            "0000000000000001", "000000000000001", "00000000000001", "5", "9999999999999999", "99999999999999999",
            "999999999999999911182158029987476766109466552734375", "99999999999999991118215802998747676610946655273437",
            "9999999999999999111821580299874767661094665527343751", "999999999999999955591079014993738383054733276367187",
            "9999999999999999555910790149937383830547332763671875", "99999999999999995559107901499373838305473327636718751",
            "999999999999999944488848768742172978818416595458984375", "99999999999999994448884876874217297881841659545898437",
            "9999999999999999444888487687421729788184165954589843751"]
        {
            for whole in [l as u64, (l as u64).saturating_sub(1), l as u64 + 1] {
                texts.push(format!("{whole}.{frac}"));
                texts.push(format!("-{whole}.{frac}"));
            }
        }
    }
    let mut seed: u64 = 12345;
    for _ in 0..400 {
        seed = seed.wrapping_mul(6364136223846793005).wrapping_add(1442695040888963407);
        let l = limits[(seed >> 33) as usize % limits.len()] as u64;
        let whole = if (seed >> 20) % 2 == 0 { l } else { l.saturating_sub(1) };
        let mut frac = String::new();
        let mut x = seed;
        for k in 0..(12 + (seed >> 40) % 14) {
            x = x.wrapping_mul(6364136223846793005).wrapping_add(k);
            frac.push(if (x >> 61) < 6 { if whole == l { '0' } else { '9' } } else { char::from_digit(((x >> 33) % 10) as u32, 10).unwrap() });
        }
        texts.push(format!("{whole}.{frac}"));
    }
    for (i, t) in texts.iter().enumerate() {
        let f: f64 = t.parse().unwrap();
        for l in limits {
            if l == 0 && i % 16 != 0 {
                continue;
            }
            assert_eq!(above(t, l), f > l as f64, "{t} above {l}");
            assert_eq!(below(t, l), f < l as f64, "{t} below {l}");
            assert!(!(above(t, l) && below(t, l)), "{t} {l}");
        }
    }
}

#[test]
fn size_rounds_the_least_numbers_to_zero_as_floats_do() {
    let half = half_pow(1075);
    let just_above = format!("{half}1");
    let just_below = format!("{}", &half[..half.len() - 1]);
    for t in [half.clone(), just_above.clone(), just_below.clone(), "1e-400".to_string(),
        "4.9e-324".to_string(), "2.5e-324".to_string(), "2.4e-324".to_string()]
    {
        for sign in ["", "-"] {
            let text = format!("{sign}{t}");
            let f: f64 = text.parse().unwrap();
            assert_eq!(above(&text, 0), f > 0.0, "{text}");
            assert_eq!(below(&text, 0), f < 0.0, "{text}");
            assert_eq!(below(&text, 1), f < 1.0, "{text}");
        }
    }
    assert!(!above(&half, 0));
    assert!(above(&just_above, 0));
    assert!(below(&format!("-{just_above}"), 0));
    assert!(!below(&format!("-{half}"), 0));
}

#[test]
fn size_writes_long_numbers_as_the_nearest_float() {
    let mut seed: u64 = 987654321;
    let mut next = move || {
        seed = seed.wrapping_mul(6364136223846793005).wrapping_add(1442695040888963407);
        seed >> 11
    };
    for _ in 0..1500 {
        let whole = match next() % 4 {
            0 => next() % 10,
            1 => next() % 100000,
            2 => next() % 100000000000,
            _ => next() % 281474976710655,
        };
        let tenth = next() % 10;
        let fill = if next() % 2 == 0 { '4' } else { '9' };
        let run = (next() % 22) as usize;
        let tail = next() % 1000;
        let near_half = if fill == '4' {
            format!("{whole}.{tenth}4{}{tail}", "9".repeat(run))
        } else {
            format!("{whole}.{tenth}5{}{tail}", "0".repeat(run))
        };
        let f: f64 = near_half.parse().unwrap();
        assert_eq!(fmt(&near_half), Some(format!("{:.1}", f)), "{near_half}");
        let neg = format!("-{near_half}");
        assert_eq!(fmt(&neg), Some(format!("{:.1}", -f)), "{neg}");
    }
    for text in ["0.0499999999999999999", "0.04999999999999999", "0.049999999999999996",
        "0.14999999999999999", "0.150000000000000001", "2.6749999999999998", "99.95000000000000284",
        "99.949999999999999", "1e-1", "5e-2", "4.9999999999999999e-2", "0.25000000000000001"]
    {
        let f: f64 = text.parse().unwrap();
        assert_eq!(fmt(text), Some(format!("{:.1}", f)), "{text}");
    }
}

#[test]
fn size_writes_large_numbers_as_the_nearest_float() {
    let mut seed: u64 = 555;
    let mut next = move || {
        seed = seed.wrapping_mul(6364136223846793005).wrapping_add(1442695040888963407);
        seed >> 11
    };
    for _ in 0..1500 {
        let whole = 281474976710656 + next() % (9007199254740992 - 281474976710656);
        let digits = (next() % 12) as usize;
        let mut frac = String::new();
        for _ in 0..digits {
            frac.push(char::from_digit((next() % 10) as u32, 10).unwrap());
        }
        let text = if digits == 0 { format!("{whole}") } else { format!("{whole}.{frac}") };
        let f: f64 = text.parse().unwrap();
        assert_eq!(fmt(&text), Some(format!("{:.1}", f)), "{text}");
    }
    for text in ["281474976710656.05", "281474976710656.03125", "281474976710656.09375",
        "562949953421311.15", "1125899906842623.25", "2251799813685247.75", "4503599627370495.95",
        "4503599627370495.1", "9007199254740991.5", "9007199254740991.9", "-4503599627370495.75",
        "2.81474976710656e14", "9.007199254740991e15"]
    {
        let f: f64 = text.parse().unwrap();
        assert_eq!(fmt(text), Some(format!("{:.1}", f)), "{text}");
    }
}

#[test]
fn size_writes_huge_numbers_as_the_nearest_float() {
    let mut seed: u64 = 4242;
    let mut next = move || {
        seed = seed.wrapping_mul(6364136223846793005).wrapping_add(1442695040888963407);
        seed >> 11
    };
    for _ in 0..300 {
        let lead = 1 + next() % 9;
        let len = 16 + (next() % 60) as usize;
        let mut text = lead.to_string();
        for _ in 1..len {
            text.push(char::from_digit((next() % 10) as u32, 10).unwrap());
        }
        if next() % 2 == 0 {
            text.push('.');
            for _ in 0..(next() % 8) {
                text.push(char::from_digit((next() % 10) as u32, 10).unwrap());
            }
        }
        let f: f64 = text.parse().unwrap();
        assert_eq!(fmt(&text), Some(format!("{:.1}", f)), "{text}");
    }
    for text in ["9007199254740992", "9007199254740993", "9007199254740993.5", "9007199254740995",
        "18014398509481985", "123456789012345678901", "1e20", "1.7976931348623157e308",
        "1.7976931348623158e308", "1e300", "-123456789012345678901.5", "2e22", "9.999999999999999e22"]
    {
        let f: f64 = text.parse().unwrap();
        assert_eq!(fmt(text), Some(format!("{:.1}", f)), "{text}");
    }
}
