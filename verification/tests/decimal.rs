use assistant_core::decimal::parse_i32;

#[test]
fn reads_plain_and_signed_numbers() {
    assert_eq!(parse_i32("0"), Some(0));
    assert_eq!(parse_i32("7"), Some(7));
    assert_eq!(parse_i32("+7"), Some(7));
    assert_eq!(parse_i32("-7"), Some(-7));
    assert_eq!(parse_i32("-0"), Some(0));
    assert_eq!(parse_i32("0042"), Some(42));
    assert_eq!(parse_i32("123456789"), Some(123456789));
}

#[test]
fn reads_the_bounds_and_refuses_what_lies_beyond() {
    assert_eq!(parse_i32("2147483647"), Some(i32::MAX));
    assert_eq!(parse_i32("-2147483648"), Some(i32::MIN));
    assert_eq!(parse_i32("2147483648"), None);
    assert_eq!(parse_i32("-2147483649"), None);
    assert_eq!(parse_i32("00000000000000000002147483647"), Some(i32::MAX));
    assert_eq!(parse_i32("99999999999999999999999999999999999999"), None);
    assert_eq!(parse_i32("-99999999999999999999999999999999999999"), None);
}

#[test]
fn refuses_what_is_no_number() {
    for text in ["", "+", "-", "+-1", "--1", "1-", " 1", "1 ", "1_000", "0x10", "1.0", "1e3", "\u{0661}", "١٢"] {
        assert_eq!(parse_i32(text), None);
    }
}

#[test]
fn agrees_with_the_standard_parser() {
    let samples = [
        "", "0", "-0", "+0", "1", "-1", "+1", "10", "007", "+", "-", "++1", "+-1", "-+1", "1+",
        "12a", "a12", " 12", "12 ", "\t5", "5\n", "2147483646", "2147483647", "2147483648",
        "2147483649", "-2147483647", "-2147483648", "-2147483649", "21474836470", "4294967296",
        "-4294967296", "9223372036854775807", "9223372036854775808", "18446744073709551616",
        "000000000000", "-000000000001", "+2147483647", "+2147483648", "٣", "1٣", "½", "1,5",
    ];
    for text in samples {
        assert_eq!(parse_i32(text), text.parse::<i32>().ok());
    }
    let mut n: i64 = -70000;
    while n <= 70000 {
        let text = n.to_string();
        assert_eq!(parse_i32(&text), Some(n as i32));
        n += 7;
    }
    let mut m: i64 = i32::MIN as i64 - 50;
    while m <= i32::MIN as i64 + 50 {
        assert_eq!(parse_i32(&m.to_string()), m.to_string().parse::<i32>().ok());
        m += 1;
    }
    let mut k: i64 = i32::MAX as i64 - 50;
    while k <= i32::MAX as i64 + 50 {
        assert_eq!(parse_i32(&k.to_string()), k.to_string().parse::<i32>().ok());
        k += 1;
    }
}
