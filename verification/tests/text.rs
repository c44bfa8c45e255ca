use cargo_travis::text::{glue, decimal_text, repeat};

#[test]
fn glue_puts_the_second_behind_the_first() {
    assert_eq!(glue("--features=", "serde"), "--features=serde");
    assert_eq!(glue("", ""), "");
    assert_eq!(glue("é", "ü"), "éü");
}

#[test]
fn repeat_writes_the_unit_count_times() {
    assert_eq!(repeat("v", 3), "vvv");
    assert_eq!(repeat("ab", 2), "abab");
    assert_eq!(repeat("v", 0), "");
}

#[test]
fn decimal_text_of_small_numbers() {
    assert_eq!(decimal_text(0), "0");
    assert_eq!(decimal_text(7), "7");
    assert_eq!(decimal_text(10), "10");
    assert_eq!(decimal_text(101), "101");
}

#[test]
fn decimal_text_of_the_largest_numbers() {
    assert_eq!(decimal_text(4294967295), "4294967295");
    assert_eq!(decimal_text(u64::MAX), "18446744073709551615");
}

#[test]
fn decimal_text_agrees_with_display() {
    for n in [1u64, 9, 99, 100, 12345, 1048576, 9007199254740993] {
        assert_eq!(decimal_text(n), format!("{}", n));
    }
}
