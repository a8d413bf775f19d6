use agsi_core::text::{decimal_string, push_decimal, str_eq};

#[test]
fn decimal_of_small_and_large_numbers() {
    assert_eq!(decimal_string(0), "0");
    assert_eq!(decimal_string(7), "7");
    assert_eq!(decimal_string(9), "9");
    assert_eq!(decimal_string(10), "10");
    assert_eq!(decimal_string(11), "11");
    assert_eq!(decimal_string(99), "99");
    assert_eq!(decimal_string(100), "100");
    assert_eq!(decimal_string(101), "101");
    assert_eq!(decimal_string(1234567890), "1234567890");
    assert_eq!(decimal_string(usize::MAX), usize::MAX.to_string());
}

#[test]
fn decimal_agrees_with_the_standard_rendering() {
    let mut n: usize = 1;
    for _ in 0..19 {
        assert_eq!(decimal_string(n), n.to_string());
        assert_eq!(decimal_string(n - 1), (n - 1).to_string());
        assert_eq!(decimal_string(n + 1), (n + 1).to_string());
        n *= 10;
    }
    for k in 0..2000usize {
        assert_eq!(decimal_string(k), k.to_string());
    }
}

#[test]
fn push_decimal_appends_to_what_is_there() {
    let mut s = String::from("agsiModel[");
    push_decimal(&mut s, 42);
    s.push(']');
    assert_eq!(s, "agsiModel[42]");
}

#[test]
fn str_eq_compares_contents() {
    assert!(str_eq("", ""));
    assert!(str_eq("MAT001", "MAT001"));
    assert!(!str_eq("MAT001", "MAT002"));
    assert!(!str_eq("MAT001", "MAT00"));
    assert!(!str_eq("MAT00", "MAT001"));
    assert!(!str_eq("mat001", "MAT001"));
    assert!(str_eq("Tonschiefer \u{2713} \u{00e9}", "Tonschiefer \u{2713} \u{00e9}"));
    assert!(!str_eq("e\u{0301}", "\u{00e9}"));
    assert!(!str_eq("a", ""));
}
