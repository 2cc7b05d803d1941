use minimal_api::decimal::parse_bounded;

const U16_MAX: u64 = 65535;

#[test]
fn plain_digits_are_read() {
    assert_eq!(parse_bounded("0", U16_MAX), Some(0));
    assert_eq!(parse_bounded("7", U16_MAX), Some(7));
    assert_eq!(parse_bounded("8080", U16_MAX), Some(8080));
    assert_eq!(parse_bounded("65535", U16_MAX), Some(65535));
}

#[test]
fn a_leading_plus_is_accepted_once() {
    assert_eq!(parse_bounded("+3000", U16_MAX), Some(3000));
    assert_eq!(parse_bounded("+0", U16_MAX), Some(0));
    assert_eq!(parse_bounded("++3000", U16_MAX), None);
    assert_eq!(parse_bounded("3000+", U16_MAX), None);
    assert_eq!(parse_bounded("30+00", U16_MAX), None);
}

#[test]
fn leading_zeros_do_not_change_the_value() {
    assert_eq!(parse_bounded("0080", U16_MAX), Some(80));
    assert_eq!(parse_bounded("+000", U16_MAX), Some(0));
    assert_eq!(
        parse_bounded("0000000000000000000000000000000000000000065535", U16_MAX),
        Some(65535)
    );
}

#[test]
fn text_without_digits_is_refused() {
    assert_eq!(parse_bounded("", U16_MAX), None);
    assert_eq!(parse_bounded("+", U16_MAX), None);
    assert_eq!(parse_bounded("-", U16_MAX), None);
}

#[test]
fn a_minus_sign_is_refused() {
    assert_eq!(parse_bounded("-1", U16_MAX), None);
    assert_eq!(parse_bounded("-0", U16_MAX), None);
    assert_eq!(parse_bounded("+-1", U16_MAX), None);
}

#[test]
fn anything_but_digits_is_refused() {
    for text in [
        " 80", "80 ", "8 0", "80\n", "\t80", "8_0", "80.0", "8e3", "0x50", "abc", "80a", "a80",
        "８０", "٨٠", "8\u{0}0", "eighty",
    ] {
        assert_eq!(parse_bounded(text, U16_MAX), None, "{:?}", text);
    }
}

#[test]
fn a_value_above_the_bound_is_refused() {
    assert_eq!(parse_bounded("65536", U16_MAX), None);
    assert_eq!(parse_bounded("70000", U16_MAX), None);
    assert_eq!(parse_bounded("655350", U16_MAX), None);
    assert_eq!(parse_bounded("99999999999999999999999999999999999999999", U16_MAX), None);
    assert_eq!(parse_bounded("11", 10), None);
    assert_eq!(parse_bounded("10", 10), Some(10));
    assert_eq!(parse_bounded("1", 0), None);
    assert_eq!(parse_bounded("000", 0), Some(0));
}

#[test]
fn an_overflow_hides_no_later_fault_and_no_later_fault_hides_an_overflow() {
    assert_eq!(parse_bounded("65536x", U16_MAX), None);
    assert_eq!(parse_bounded("x65536", U16_MAX), None);
    assert_eq!(parse_bounded("18446744073709551616x", u64::MAX), None);
}

#[test]
fn the_whole_range_of_64_bits_is_read() {
    assert_eq!(parse_bounded("18446744073709551615", u64::MAX), Some(u64::MAX));
    assert_eq!(parse_bounded("+18446744073709551615", u64::MAX), Some(u64::MAX));
    assert_eq!(parse_bounded("18446744073709551616", u64::MAX), None);
    assert_eq!(parse_bounded("18446744073709551620", u64::MAX), None);
    assert_eq!(parse_bounded("184467440737095516150", u64::MAX), None);
    assert_eq!(parse_bounded("9223372036854775808", u64::MAX), Some(1 << 63));
}

#[test]
fn every_port_number_reads_back() {
    for port in 0..=u16::MAX {
        let text = format!("{}", port);
        assert_eq!(parse_bounded(&text, U16_MAX), Some(port as u64));
    }
}

fn short_texts(alphabet: &[char], longest: usize) -> Vec<String> {
    let mut all = vec![String::new()];
    let mut last = vec![String::new()];
    for _ in 0..longest {
        let mut next = Vec::new();
        for text in &last {
            for c in alphabet {
                let mut longer = text.clone();
                longer.push(*c);
                next.push(longer);
            }
        }
        all.extend(next.iter().cloned());
        last = next;
    }
    all
}

#[test]
fn short_texts_read_as_the_standard_library_reads_them() {
    let alphabet = ['+', '-', '0', '1', '6', '9', ' ', '_', 'a', 'é'];
    for text in short_texts(&alphabet, 4) {
        assert_eq!(
            parse_bounded(&text, U16_MAX),
            text.parse::<u16>().ok().map(u64::from),
            "{:?}",
            text
        );
        assert_eq!(parse_bounded(&text, u64::MAX), text.parse::<u64>().ok(), "{:?}", text);
    }
}

#[test]
fn texts_near_the_bounds_read_as_the_standard_library_reads_them() {
    for n in (65_000u64..66_000).chain(u64::MAX - 500..=u64::MAX) {
        for text in [format!("{}", n), format!("+{}", n), format!("0{}", n), format!("{}0", n)] {
            assert_eq!(
                parse_bounded(&text, U16_MAX),
                text.parse::<u16>().ok().map(u64::from),
                "{:?}",
                text
            );
            assert_eq!(parse_bounded(&text, u64::MAX), text.parse::<u64>().ok(), "{:?}", text);
        }
    }
}
