use cypher::text::{bool_to_text, isize_to_decimal, same_text, usize_to_decimal};

#[test]
fn decimal_of_zero_is_one_digit() {
    assert_eq!(usize_to_decimal(0), "0");
    assert_eq!(isize_to_decimal(0), "0");
}

#[test]
fn decimal_of_small_numbers() {
    assert_eq!(usize_to_decimal(7), "7");
    assert_eq!(usize_to_decimal(10), "10");
    assert_eq!(usize_to_decimal(65), "65");
    assert_eq!(usize_to_decimal(1000), "1000");
    assert_eq!(usize_to_decimal(90210), "90210");
}

#[test]
fn decimal_of_the_largest_number() {
    assert_eq!(usize_to_decimal(usize::MAX), usize::MAX.to_string());
}

#[test]
fn decimal_of_negative_numbers() {
    assert_eq!(isize_to_decimal(-1), "-1");
    assert_eq!(isize_to_decimal(-120), "-120");
    assert_eq!(isize_to_decimal(42), "42");
}

#[test]
fn decimal_of_the_extremes() {
    assert_eq!(isize_to_decimal(isize::MIN), isize::MIN.to_string());
    assert_eq!(isize_to_decimal(isize::MAX), isize::MAX.to_string());
}

#[test]
fn decimal_agrees_with_the_standard_library() {
    let mut value: usize = 1;
    for _ in 0..19 {
        assert_eq!(usize_to_decimal(value), value.to_string());
        assert_eq!(usize_to_decimal(value - 1), (value - 1).to_string());
        assert_eq!(isize_to_decimal(-(value as isize)), (-(value as isize)).to_string());
        value *= 10;
    }
}

#[test]
fn booleans_are_written_in_lower_case() {
    assert_eq!(bool_to_text(true), "true");
    assert_eq!(bool_to_text(false), "false");
}

#[test]
fn same_text_compares_characters() {
    assert!(same_text("bool", "bool"));
    assert!(!same_text("bool", "Bool"));
    assert!(!same_text("bool", "boo"));
    assert!(same_text("", ""));
}
