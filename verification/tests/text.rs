use haole::text::{concat_all, decimal_text, join2, join3, same_text};

#[test]
fn decimal_text_of_zero() {
    assert_eq!(decimal_text(0), "0");
}

#[test]
fn decimal_text_of_small_and_large_numbers() {
    assert_eq!(decimal_text(7), "7");
    assert_eq!(decimal_text(10), "10");
    assert_eq!(decimal_text(20), "20");
    assert_eq!(decimal_text(65535), "65535");
    assert_eq!(decimal_text(4294967295), "4294967295");
    assert_eq!(decimal_text(u64::MAX), "18446744073709551615");
}

#[test]
fn same_text_compares_characters() {
    assert!(same_text("cli", "cli"));
    assert!(same_text("", ""));
    assert!(!same_text("cli", "tui"));
    assert!(!same_text("cli", "cli "));
    assert!(!same_text("q", "Q"));
    assert!(same_text("モード", "モード"));
}

#[test]
fn joins_concatenate_in_order() {
    assert_eq!(join2("ab", "cd"), "abcd");
    assert_eq!(join2("", "x"), "x");
    assert_eq!(join3("(", "1.2", ")"), "(1.2)");
    assert_eq!(join3("", "", ""), "");
}

#[test]
fn concat_all_keeps_order_and_adds_nothing() {
    assert_eq!(concat_all(&vec![]), "");
    assert_eq!(concat_all(&vec!["a".to_string()]), "a");
    assert_eq!(
        concat_all(&vec![" - ".to_string(), "".to_string(), "Alice".to_string(), "!".to_string()]),
        " - Alice!"
    );
}

#[test]
fn decimal_text_agrees_with_the_standard_form() {
    let mut n: u64 = 1;
    for _ in 0..19 {
        for m in [n - 1, n, n + 1, n * 9, n * 9 + 1] {
            assert_eq!(decimal_text(m), m.to_string());
        }
        n *= 10;
    }
    for m in [255u64, 256, 65535, 65536, 4294967295, 4294967296, u64::MAX - 1] {
        assert_eq!(decimal_text(m), m.to_string());
    }
}
