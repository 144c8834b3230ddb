use passgen::charset::build_pool;

#[test]
fn pool_concatenates_in_fixed_order() {
    let all: String = build_pool(true, true, true, true).into_iter().collect();
    assert_eq!(
        all,
        "ABCDEFGHIJKLMNOPQRSTUVWXYZabcdefghijklmnopqrstuvwxyz0123456789!@#$%&*+-[](){}"
    );
    assert_eq!(all.len(), 77);
}

#[test]
fn pool_of_single_charsets() {
    let digits: String = build_pool(false, false, true, false).into_iter().collect();
    assert_eq!(digits, "0123456789");
    let upper_sym: String = build_pool(true, false, false, true).into_iter().collect();
    assert_eq!(upper_sym, "ABCDEFGHIJKLMNOPQRSTUVWXYZ!@#$%&*+-[](){}");
    let lower: String = build_pool(false, true, false, false).into_iter().collect();
    assert_eq!(lower, "abcdefghijklmnopqrstuvwxyz");
}

#[test]
fn pool_of_no_charset_is_empty() {
    assert!(build_pool(false, false, false, false).is_empty());
}
