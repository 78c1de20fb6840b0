use langkit::digit::{
    check, check_custom, check_custom_offset, check_offset, is_alphanumerical, is_binary,
    is_binary_digit, is_binary_digit_out_of_range, is_binary_letter_out_of_range,
    is_binary_lowercase_out_of_range, is_binary_out_of_range, is_binary_uppercase_out_of_range,
    is_decimal, is_decimal_digit, is_decimal_letter_out_of_range,
    is_decimal_lowercase_out_of_range, is_decimal_out_of_range, is_decimal_uppercase_out_of_range,
    is_digit, is_hexadecimal, is_hexadecimal_digit, is_hexadecimal_letter,
    is_hexadecimal_letter_out_of_range, is_hexadecimal_lowercase,
    is_hexadecimal_lowercase_out_of_range, is_hexadecimal_out_of_range, is_hexadecimal_uppercase,
    is_hexadecimal_uppercase_out_of_range, is_letter, is_lowercase, is_octal, is_octal_digit,
    is_octal_digit_out_of_range, is_octal_letter_out_of_range, is_octal_lowercase_out_of_range,
    is_octal_out_of_range, is_octal_uppercase_out_of_range, is_uppercase, parse, parse_custom,
    parse_custom_offset, parse_offset, range, range_ascii, range_ascii_ops, range_ops, AsciiDigit,
    AsciiDigitCustomBase, AsciiRange, Base, Digit, DigitCustomBase, BASE_MAX, BASE_MIN, INVALID,
    OUT_OF_RANGE,
};

const BASES: [Base; 4] = [Base::Binary, Base::Octal, Base::Decimal, Base::Hexadecimal];

#[test]
fn octal_scenarios() {
    assert_eq!(parse_offset(b'7', Base::Octal), 7);
    assert_eq!(parse_offset(b'8', Base::Octal), OUT_OF_RANGE);
}

#[test]
fn hexadecimal_scenarios() {
    assert_eq!(parse_offset(b'f', Base::Hexadecimal), 15);
    assert_eq!(parse_offset(b'F', Base::Hexadecimal), 15);
    assert_eq!(parse_offset(b'g', Base::Hexadecimal), OUT_OF_RANGE);
}

#[test]
fn binary_scenarios() {
    assert_eq!(parse_offset(b'2', Base::Binary), OUT_OF_RANGE);
    assert_eq!(parse_offset(b'@', Base::Binary), INVALID);
}

#[test]
fn custom_base_scenarios() {
    assert_eq!(parse_custom_offset(b'g', 17), 16);
    assert_eq!(parse_custom_offset(b'g', 16), OUT_OF_RANGE);
}

#[test]
fn decode_agrees_with_classify_for_every_byte() {
    for base in BASES {
        let radix = base.radix();
        for byte in 0..=u8::MAX {
            let offset = check_offset(byte, base);
            let value = parse_offset(byte, base);
            let valid = offset < INVALID && byte - offset < radix;
            assert_eq!(value < radix, valid, "byte {byte} in base {radix}");
            if offset < INVALID {
                assert_eq!(value, byte - offset);
            } else {
                assert_eq!(value, offset);
            }
        }
    }
}

#[test]
fn every_digit_value_is_decoded_from_some_byte() {
    for base in BASES {
        let radix = base.radix();
        for v in 0..radix {
            assert!((0..=u8::MAX).any(|b| parse_offset(b, base) == v));
        }
    }
    for v in 10..16u8 {
        assert_eq!(parse_offset(b'A' + v - 10, Base::Hexadecimal), v);
        assert_eq!(parse_offset(b'a' + v - 10, Base::Hexadecimal), v);
    }
    assert_eq!(parse_offset(b'A', Base::Hexadecimal), 10);
    assert_eq!(parse_offset(b'a', Base::Hexadecimal), 10);
}

#[test]
fn letters_are_case_insensitive() {
    assert_eq!(parse_custom_offset(b'g', 17), 16);
    assert_eq!(parse_custom_offset(b'G', 17), 16);
    for base in 0..=u8::MAX {
        for upper in b'A'..=b'Z' {
            let lower = upper + 0x20;
            assert_eq!(parse_custom_offset(upper, base), parse_custom_offset(lower, base));
        }
    }
}

#[test]
fn custom_base_bounds() {
    for byte in [b'g', b'0', b'@', b'_'] {
        assert_eq!(check_custom_offset(byte, 0), BASE_MIN);
        assert_eq!(check_custom_offset(byte, 1), BASE_MIN);
        assert_eq!(check_custom_offset(byte, 37), BASE_MAX);
        assert_eq!(check_custom_offset(byte, 255), BASE_MAX);
        assert_ne!(check_custom_offset(byte, 36), BASE_MAX);
        assert_ne!(check_custom_offset(byte, 2), BASE_MIN);
        assert_eq!(parse_custom_offset(byte, 1), BASE_MIN);
        assert_eq!(parse_custom_offset(byte, 37), BASE_MAX);
    }
}

#[test]
fn custom_base_boundary_is_monotonic() {
    assert_eq!(parse_custom_offset(b'z', 36), 35);
    assert_eq!(parse_custom_offset(b'z', 21), OUT_OF_RANGE);
    for byte in (b'0'..=b'9').chain(b'A'..=b'Z').chain(b'a'..=b'z') {
        for base in Base::MIN..=Base::MAX {
            let value = parse_custom_offset(byte, base);
            if value < INVALID {
                assert!(value < base);
                for larger in base..=Base::MAX {
                    assert_eq!(parse_custom_offset(byte, larger), value);
                }
            } else {
                assert_eq!(value, OUT_OF_RANGE);
            }
        }
    }
}

#[test]
fn separators_are_named_in_every_base() {
    for base in BASES {
        assert_eq!(check(b'_', base), AsciiDigit::Underscore);
        assert_eq!(check(b'.', base), AsciiDigit::Dot);
        assert_eq!(parse(b'_', base), Digit::Underscore);
        assert_eq!(parse(b'.', base), Digit::Dot);
        assert_eq!(check_offset(b'_', base), INVALID);
        assert_eq!(check_offset(b'.', base), INVALID);
    }
    for base in Base::MIN..=Base::MAX {
        assert_eq!(check_custom(b'_', base), AsciiDigitCustomBase::Underscore);
        assert_eq!(check_custom(b'.', base), AsciiDigitCustomBase::Dot);
        assert_eq!(parse_custom(b'_', base), DigitCustomBase::Underscore);
        assert_eq!(parse_custom(b'.', base), DigitCustomBase::Dot);
    }
}

#[test]
fn invalid_base_wins_over_separator() {
    assert_eq!(check_custom(b'_', 1), AsciiDigitCustomBase::BaseMin);
    assert_eq!(parse_custom(b'.', 40), DigitCustomBase::BaseMax);
}

#[test]
fn fixed_bases_classify_as_custom_bases() {
    for base in BASES {
        for byte in 0..=u8::MAX {
            assert_eq!(check_offset(byte, base), check_custom_offset(byte, base.radix()));
            assert_eq!(parse_offset(byte, base), parse_custom_offset(byte, base.radix()));
        }
    }
}

#[test]
fn sentinels_are_distinct_and_above_every_digit() {
    let sentinels = [INVALID, OUT_OF_RANGE, BASE_MIN, BASE_MAX];
    assert_eq!(sentinels, [0b1000_0000, 0b1000_0001, 0b1000_0010, 0b1000_0011]);
    for base in 0..=u8::MAX {
        for byte in 0..=u8::MAX {
            let value = parse_custom_offset(byte, base);
            assert!(value < Base::MAX || sentinels.contains(&value));
        }
    }
}

#[test]
fn offsets_of_the_three_symbol_ranges() {
    assert_eq!(check_custom_offset(b'5', 36), b'0');
    assert_eq!(check_custom_offset(b'Q', 36), b'A' - 10);
    assert_eq!(check_custom_offset(b'q', 36), b'a' - 10);
    assert_eq!(Base::DIGIT_ASCII_OFFSET, 48);
    assert_eq!(Base::UPPERCASE_ASCII_OFFSET, 55);
    assert_eq!(Base::LOWERCASE_ASCII_OFFSET, 87);
    assert_eq!(check_offset(b'c', Base::Hexadecimal), 87);
    assert_eq!(check_offset(b'C', Base::Hexadecimal), 55);
}

#[test]
fn base_radix_bounds_and_default() {
    assert_eq!(Base::Binary.radix(), 2);
    assert_eq!(Base::Octal.radix(), 8);
    assert_eq!(Base::Decimal.radix(), 10);
    assert_eq!(Base::Hexadecimal.radix(), 16);
    assert_eq!(Base::default(), Base::Decimal);
    assert_eq!(Base::MIN, 2);
    assert_eq!(Base::MAX, 36);
}

#[test]
fn digit_range_tables() {
    assert_eq!(range_ascii(Base::Binary), vec![AsciiRange::new(b'0', b'1')]);
    assert_eq!(range_ascii(Base::Octal), vec![AsciiRange::new(b'0', b'7')]);
    assert_eq!(Base::Decimal.range_ascii(), vec![AsciiRange::new(b'0', b'9')]);
    assert_eq!(
        range_ascii(Base::Hexadecimal),
        vec![AsciiRange::new(b'0', b'9'), AsciiRange::new(b'A', b'F'), AsciiRange::new(b'a', b'f')]
    );
    assert_eq!(range(Base::Binary), vec![AsciiRange::new('0', '1')]);
    assert_eq!(
        Base::Hexadecimal.range(),
        vec![AsciiRange::new('0', '9'), AsciiRange::new('A', 'F'), AsciiRange::new('a', 'f')]
    );
    assert_eq!(range_ops(Base::Octal), vec!['0'..='7']);
    assert_eq!(range_ascii_ops(Base::Hexadecimal), vec![b'0'..=b'9', b'A'..=b'F', b'a'..=b'f']);
    assert_eq!(Base::Binary.range_ascii_ops(), vec![b'0'..=b'1']);
    assert_eq!(Base::Decimal.range_ops(), vec!['0'..='9']);
}

#[test]
fn digit_ranges_cover_exactly_the_digits() {
    for base in BASES {
        let ranges = range_ascii(base);
        for byte in 0..=u8::MAX {
            let inside = ranges.iter().any(|r| r.start <= byte && byte <= r.end);
            assert_eq!(inside, check_offset(byte, base) < INVALID);
        }
    }
}

#[test]
fn range_predicates() {
    assert!(is_binary_digit(b'1') && !is_binary_digit(b'2'));
    assert!(is_binary_digit_out_of_range(b'2') && is_binary_digit_out_of_range(b'9'));
    assert!(!is_binary_digit_out_of_range(b'1'));
    assert!(is_binary_uppercase_out_of_range(b'A') && !is_binary_uppercase_out_of_range(b'a'));
    assert!(is_binary_lowercase_out_of_range(b'z') && !is_binary_lowercase_out_of_range(b'Z'));
    assert!(is_binary_letter_out_of_range(b'q') && !is_binary_letter_out_of_range(b'0'));
    assert!(is_binary(b'0') && !is_binary(b'2'));
    assert!(is_binary_out_of_range(b'2') && !is_binary_out_of_range(b'_'));

    assert!(is_octal_digit(b'7') && !is_octal_digit(b'8'));
    assert!(is_octal_digit_out_of_range(b'8') && !is_octal_digit_out_of_range(b'7'));
    assert!(is_octal_uppercase_out_of_range(b'B') && is_octal_lowercase_out_of_range(b'b'));
    assert!(is_octal_letter_out_of_range(b'Z') && !is_octal_letter_out_of_range(b'@'));
    assert!(is_octal(b'3') && !is_octal(b'9'));
    assert!(is_octal_out_of_range(b'9') && !is_octal_out_of_range(b'.'));

    assert!(is_decimal_digit(b'9') && !is_decimal_digit(b'a'));
    assert!(is_decimal_uppercase_out_of_range(b'A') && is_decimal_lowercase_out_of_range(b'a'));
    assert!(is_decimal_letter_out_of_range(b'x') && !is_decimal_letter_out_of_range(b'9'));
    assert!(is_decimal(b'0') && !is_decimal(b'a'));
    assert!(is_decimal_out_of_range(b'a') && !is_decimal_out_of_range(b'5'));

    assert!(is_hexadecimal_digit(b'9') && !is_hexadecimal_digit(b'a'));
    assert!(is_hexadecimal_uppercase(b'F') && !is_hexadecimal_uppercase(b'G'));
    assert!(is_hexadecimal_lowercase(b'a') && !is_hexadecimal_lowercase(b'g'));
    assert!(is_hexadecimal_letter(b'c') && !is_hexadecimal_letter(b'h'));
    assert!(is_hexadecimal_uppercase_out_of_range(b'G') && !is_hexadecimal_uppercase_out_of_range(b'F'));
    assert!(is_hexadecimal_lowercase_out_of_range(b'z') && !is_hexadecimal_lowercase_out_of_range(b'f'));
    assert!(is_hexadecimal_letter_out_of_range(b'g') && !is_hexadecimal_letter_out_of_range(b'e'));
    assert!(is_hexadecimal(b'E') && !is_hexadecimal(b'G'));
    assert!(is_hexadecimal_out_of_range(b'x') && !is_hexadecimal_out_of_range(b'@'));

    assert!(is_digit(b'5') && !is_digit(b'/') && !is_digit(b':'));
    assert!(is_uppercase(b'A') && is_uppercase(b'Z') && !is_uppercase(b'@') && !is_uppercase(b'['));
    assert!(is_lowercase(b'a') && is_lowercase(b'z') && !is_lowercase(b'`') && !is_lowercase(b'{'));
    assert!(is_letter(b'm') && is_letter(b'M') && !is_letter(b'5'));
    assert!(is_alphanumerical(b'5') && is_alphanumerical(b'k') && !is_alphanumerical(b'-'));
}
