use typing_practice::text::push_decimal;

fn written(n: u64) -> String {
    let mut text = String::new();
    push_decimal(&mut text, n);
    text
}

#[test]
fn zero_is_one_digit() {
    assert_eq!(written(0), "0");
}

#[test]
fn numbers_are_written_in_decimal() {
    assert_eq!(written(7), "7");
    assert_eq!(written(10), "10");
    assert_eq!(written(99), "99");
    assert_eq!(written(100), "100");
    assert_eq!(written(1_234_567_890), "1234567890");
    assert_eq!(written(u64::MAX), "18446744073709551615");
}

#[test]
fn decimal_agrees_with_std_formatting() {
    let mut n: u64 = 1;
    for _ in 0..200 {
        assert_eq!(written(n), format!("{}", n));
        assert_eq!(written(n - 1), format!("{}", n - 1));
        n = n.wrapping_mul(6364136223846793005).wrapping_add(1442695040888963407) | 1;
    }
}

#[test]
fn decimal_is_appended_to_what_is_there() {
    let mut text = String::from("n=");
    push_decimal(&mut text, 42);
    push_decimal(&mut text, 0);
    assert_eq!(text, "n=420");
}
