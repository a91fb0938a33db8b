use quiz_srs::text::{decimal_string, push_decimal, push_signed_decimal};

#[test]
fn decimal_text_of_unsigned_numbers() {
    assert_eq!(decimal_string(0), "0");
    assert_eq!(decimal_string(7), "7");
    assert_eq!(decimal_string(10), "10");
    assert_eq!(decimal_string(1234567890), "1234567890");
    assert_eq!(decimal_string(u64::MAX), u64::MAX.to_string());
}

#[test]
fn decimal_text_appends() {
    let mut s = String::from("n=");
    push_decimal(&mut s, 305);
    assert_eq!(s, "n=305");
}

#[test]
fn decimal_text_of_signed_numbers() {
    for n in [0i64, 5, -5, 42, -42, 1000, -1000, i64::MAX, i64::MIN] {
        let mut s = String::new();
        push_signed_decimal(&mut s, n);
        assert_eq!(s, n.to_string());
    }
}
