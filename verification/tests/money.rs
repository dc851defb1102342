use scjail_crawler_service::utils::{cents_to_dollars, cents_to_dollars_wide, dollars_to_cents};

#[test]
fn test_dollars_to_cents_positive() {
    let dollars = "$2,200.75";
    assert_eq!(dollars_to_cents(&dollars), 220075);
}

#[test]
fn test_dollars_to_cents_zero() {
    let dollars = "$0.00";
    assert_eq!(dollars_to_cents(&dollars), 0);
}

#[test]
fn test_cents_to_dollars_positive() {
    let cents = 220075;
    assert_eq!(cents_to_dollars(cents), "$2200.75");
}

#[test]
fn test_cents_to_dollars_zero() {
    let cents = 0;
    assert_eq!(cents_to_dollars(cents), "$0.00");
}

#[test]
fn test_cents_to_dollars_large_value() {
    let cents = 1234567890;
    assert_eq!(cents_to_dollars(cents), "$12345678.90");
}

#[test]
fn dollars_to_cents_of_text_without_digits_is_zero() {
    assert_eq!(dollars_to_cents("garbage"), 0);
    assert_eq!(dollars_to_cents(""), 0);
    assert_eq!(dollars_to_cents("$,."), 0);
}

#[test]
fn dollars_to_cents_reads_text_without_cents_as_cents() {
    assert_eq!(dollars_to_cents("$5,000"), 5000);
    assert_eq!(dollars_to_cents("12 dollars and 3 cents"), 123);
}

#[test]
fn dollars_to_cents_keeps_leading_zeros_out() {
    assert_eq!(dollars_to_cents("$000.07"), 7);
}

#[test]
fn dollars_to_cents_of_the_largest_amount() {
    assert_eq!(dollars_to_cents("18446744073709551615"), u64::MAX);
    assert_eq!(dollars_to_cents("$184,467,440,737,095,516.15"), u64::MAX);
}

#[test]
fn dollars_to_cents_of_too_large_an_amount_is_zero() {
    assert_eq!(dollars_to_cents("18446744073709551616"), 0);
    assert_eq!(dollars_to_cents("99999999999999999999999999"), 0);
}

#[test]
fn dollars_to_cents_ignores_digits_of_other_scripts() {
    assert_eq!(dollars_to_cents("\u{0663}4\u{ff12}"), 4);
}

#[test]
fn cents_to_dollars_pads_the_cents() {
    assert_eq!(cents_to_dollars(5), "$0.05");
    assert_eq!(cents_to_dollars(50), "$0.50");
    assert_eq!(cents_to_dollars(105), "$1.05");
    assert_eq!(cents_to_dollars(100), "$1.00");
}

#[test]
fn cents_to_dollars_of_the_largest_amounts() {
    assert_eq!(cents_to_dollars(u64::MAX), "$184467440737095516.15");
    assert_eq!(
        cents_to_dollars_wide(u128::MAX),
        "$3402823669209384634633746074317682114.55"
    );
}

#[test]
fn written_amounts_read_back() {
    for cents in [0u64, 1, 9, 10, 99, 100, 101, 220075, 1234567890, u64::MAX] {
        assert_eq!(dollars_to_cents(&cents_to_dollars(cents)), cents);
    }
}
