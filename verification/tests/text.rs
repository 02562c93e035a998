use worker::text::{push_decimal, push_digits, signed_text, unsigned_text};

#[test]
fn unsigned_numbers_render_in_decimal() {
    assert_eq!(unsigned_text(0), "0");
    assert_eq!(unsigned_text(7), "7");
    assert_eq!(unsigned_text(10), "10");
    assert_eq!(unsigned_text(9000), "9000");
    assert_eq!(unsigned_text(1_234_567_890), "1234567890");
    assert_eq!(unsigned_text(u64::MAX), "18446744073709551615");
}

#[test]
fn signed_numbers_render_with_a_minus_sign() {
    assert_eq!(signed_text(0), "0");
    assert_eq!(signed_text(-1), "-1");
    assert_eq!(signed_text(42), "42");
    assert_eq!(signed_text(-100), "-100");
    assert_eq!(signed_text(i64::MAX), "9223372036854775807");
    assert_eq!(signed_text(i64::MIN), "-9223372036854775808");
}

#[test]
fn rendering_agrees_with_the_standard_library() {
    let mut n: u64 = 1;
    for _ in 0..64 {
        assert_eq!(unsigned_text(n), n.to_string());
        assert_eq!(unsigned_text(n - 1), (n - 1).to_string());
        assert_eq!(signed_text(n as i64), (n as i64).to_string());
        assert_eq!(signed_text((n as i64).wrapping_neg()), (n as i64).wrapping_neg().to_string());
        n = n.wrapping_mul(2);
    }
}

#[test]
fn digits_are_appended_to_what_is_there() {
    let mut text = String::from("port=");
    push_digits(&mut text, 8081);
    assert_eq!(text, "port=8081");
    push_decimal(&mut text, -5);
    assert_eq!(text, "port=8081-5");
    push_decimal(&mut text, 0);
    assert_eq!(text, "port=8081-50");
}
