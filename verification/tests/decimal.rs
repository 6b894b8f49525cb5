use agent::decimal::decimal;

#[test]
fn decimal_of_zero_is_one_digit() {
    assert_eq!(decimal(0), "0");
}

#[test]
fn decimal_of_one_digit_numbers() {
    assert_eq!(decimal(1), "1");
    assert_eq!(decimal(7), "7");
    assert_eq!(decimal(9), "9");
}

#[test]
fn decimal_of_ten_has_two_digits() {
    assert_eq!(decimal(10), "10");
}

#[test]
fn decimal_of_status_codes() {
    assert_eq!(decimal(200), "200");
    assert_eq!(decimal(204), "204");
    assert_eq!(decimal(404), "404");
    assert_eq!(decimal(500), "500");
    assert_eq!(decimal(503), "503");
}

#[test]
fn decimal_of_the_largest_number() {
    assert_eq!(decimal(65535), "65535");
}

#[test]
fn decimal_keeps_inner_and_trailing_zeros() {
    assert_eq!(decimal(100), "100");
    assert_eq!(decimal(1001), "1001");
    assert_eq!(decimal(60000), "60000");
}

#[test]
fn decimal_is_what_std_writes() {
    let mut n: u16 = 0;
    loop {
        assert_eq!(decimal(n), n.to_string());
        if n == u16::MAX {
            break;
        }
        n += 1;
    }
}
