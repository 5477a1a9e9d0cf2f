use falling::digits::get_digits;

#[test]
fn zero_has_no_digits() {
    assert_eq!(get_digits(0), Vec::<u32>::new());
}

#[test]
fn single_digit() {
    assert_eq!(get_digits(7), vec![7]);
}

#[test]
fn digits_come_most_significant_first() {
    assert_eq!(get_digits(120), vec![1, 2, 0]);
    assert_eq!(get_digits(9_876_543_210), vec![9, 8, 7, 6, 5, 4, 3, 2, 1, 0]);
}

#[test]
fn largest_number_is_exact() {
    assert_eq!(
        get_digits(u64::MAX),
        vec![1, 8, 4, 4, 6, 7, 4, 4, 0, 7, 3, 7, 0, 9, 5, 5, 1, 6, 1, 5]
    );
}

#[test]
fn digits_rebuild_the_number() {
    for number in [1_u64, 10, 99, 100, 101, 65_535, 1_000_000_007] {
        let mut value = 0_u64;
        for digit in get_digits(number) {
            assert!(digit < 10);
            value = value * 10 + digit as u64;
        }
        assert_eq!(value, number);
    }
}
