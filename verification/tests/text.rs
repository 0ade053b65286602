use rinha_interpreter::text::{count_to_text, int_to_text, tagged, text_equals, text_precedes};

#[test]
fn numerals_of_integers() {
    assert_eq!(int_to_text(0), "0");
    assert_eq!(int_to_text(7), "7");
    assert_eq!(int_to_text(10), "10");
    assert_eq!(int_to_text(-1), "-1");
    assert_eq!(int_to_text(1234567890), "1234567890");
    assert_eq!(int_to_text(i32::MAX), "2147483647");
    assert_eq!(int_to_text(i32::MIN), "-2147483648");
}

#[test]
fn numerals_agree_with_the_standard_ones() {
    let mut n: i32 = -100_000;
    while n <= 100_000 {
        assert_eq!(int_to_text(n), format!("{}", n));
        n += 37;
    }
}

#[test]
fn numerals_of_counts() {
    assert_eq!(count_to_text(0), "0");
    assert_eq!(count_to_text(9), "9");
    assert_eq!(count_to_text(100), "100");
    assert_eq!(count_to_text(usize::MAX), format!("{}", usize::MAX));
}

#[test]
fn tagged_puts_the_body_in_brackets() {
    assert_eq!(tagged("Int", "1"), "Int(1)");
    assert_eq!(tagged("", ""), "()");
}

#[test]
fn equality_of_texts() {
    assert!(text_equals("", ""));
    assert!(text_equals("abc", "abc"));
    assert!(!text_equals("abc", "abd"));
    assert!(!text_equals("abc", "ab"));
    assert!(!text_equals("ab", "abc"));
    assert!(text_equals("é😀", "é😀"));
}

#[test]
fn order_of_texts() {
    assert!(text_precedes("", "a"));
    assert!(!text_precedes("a", ""));
    assert!(!text_precedes("", ""));
    assert!(text_precedes("a", "b"));
    assert!(text_precedes("a", "ab"));
    assert!(!text_precedes("ab", "a"));
    assert!(!text_precedes("same", "same"));
    assert!(text_precedes("Zebra", "apple"));
}
