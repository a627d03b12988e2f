use lazy_learn::decimal_text;

#[test]
fn decimal_text_of_zero() {
    assert_eq!(decimal_text(0), "0");
}

#[test]
fn decimal_text_of_single_digits() {
    let expected = ["0", "1", "2", "3", "4", "5", "6", "7", "8", "9"];
    for (n, text) in expected.iter().enumerate() {
        assert_eq!(decimal_text(n as u32), *text);
    }
}

#[test]
fn decimal_text_at_powers_of_ten() {
    assert_eq!(decimal_text(9), "9");
    assert_eq!(decimal_text(10), "10");
    assert_eq!(decimal_text(99), "99");
    assert_eq!(decimal_text(100), "100");
    assert_eq!(decimal_text(1_000_000), "1000000");
}

#[test]
fn decimal_text_of_the_largest_value() {
    assert_eq!(decimal_text(u32::MAX), "4294967295");
}

#[test]
fn decimal_text_agrees_with_the_standard_formatting() {
    let mut n: u32 = 1;
    for _ in 0..2000 {
        assert_eq!(decimal_text(n), format!("{}", n));
        n = n.wrapping_mul(1_664_525).wrapping_add(1_013_904_223);
    }
}
