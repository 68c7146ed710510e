use ft_balance_query::{balance_report, decimal_string};

#[test]
fn single_digits() {
    for (n, text) in
        [(0u128, "0"), (1, "1"), (2, "2"), (3, "3"), (4, "4"), (5, "5"), (6, "6"), (7, "7"), (8, "8"), (9, "9")]
    {
        assert_eq!(decimal_string(n), text);
    }
}

#[test]
fn several_digits() {
    assert_eq!(decimal_string(10), "10");
    assert_eq!(decimal_string(42), "42");
    assert_eq!(decimal_string(1000), "1000");
    assert_eq!(decimal_string(1_234_567_890), "1234567890");
    assert_eq!(decimal_string(10_000_000_000_000_000_000_000), "10000000000000000000000");
}

#[test]
fn largest_balance() {
    assert_eq!(decimal_string(u128::MAX), "340282366920938463463374607431768211455");
}

#[test]
fn decimal_agrees_with_the_standard_rendering() {
    let mut n: u128 = 1;
    for _ in 0..120 {
        assert_eq!(decimal_string(n), n.to_string());
        assert_eq!(decimal_string(n - 1), (n - 1).to_string());
        n = n.wrapping_mul(3).wrapping_add(7);
    }
}

#[test]
fn report_names_the_balance() {
    assert_eq!(balance_report(0), "The received balance is 0");
    assert_eq!(balance_report(42), "The received balance is 42");
    assert_eq!(balance_report(1000), "The received balance is 1000");
    assert_eq!(
        balance_report(u128::MAX),
        "The received balance is 340282366920938463463374607431768211455"
    );
}
