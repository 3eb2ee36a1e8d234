use ankamantatra_bot::render::{decimal, digits};

#[test]
fn digits_of_natural_numbers() {
    assert_eq!(digits(0), "0");
    assert_eq!(digits(7), "7");
    assert_eq!(digits(10), "10");
    assert_eq!(digits(1234567890), "1234567890");
    assert_eq!(digits(u32::MAX), "4294967295");
}

#[test]
fn decimal_of_integers() {
    assert_eq!(decimal(0), "0");
    assert_eq!(decimal(3), "3");
    assert_eq!(decimal(-3), "-3");
    assert_eq!(decimal(105), "105");
    assert_eq!(decimal(i32::MAX), "2147483647");
    assert_eq!(decimal(i32::MIN), "-2147483648");
}

#[test]
fn decimal_agrees_with_the_standard_library() {
    for n in [-1000, -99, -10, -1, 0, 1, 9, 10, 11, 99, 100, 101, 4096, 65535] {
        assert_eq!(decimal(n), n.to_string());
    }
}
