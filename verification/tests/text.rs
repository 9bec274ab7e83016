use repository_kit::text::{compare_text, join, push_int, push_nat, TextOrder};

#[test]
fn join_puts_separator_between_items_only() {
    assert_eq!(join(&vec![], ", "), "");
    assert_eq!(join(&vec!["a".to_string()], ", "), "a");
    assert_eq!(join(&vec!["a".to_string(), "b".to_string(), "c".to_string()], " AND "), "a AND b AND c");
}

#[test]
fn numerals() {
    let mut s = "n=".to_string();
    push_nat(&mut s, 0);
    assert_eq!(s, "n=0");
    let mut s = String::new();
    push_nat(&mut s, u64::MAX);
    assert_eq!(s, "18446744073709551615");
    let mut s = String::new();
    push_int(&mut s, -42);
    assert_eq!(s, "-42");
    let mut s = String::new();
    push_int(&mut s, 1070);
    assert_eq!(s, "1070");
}

#[test]
fn text_order_matches_str_order() {
    let pairs = [("a", "b"), ("ab", "a"), ("", "x"), ("same", "same"), ("Z", "a"), ("é", "z")];
    for (a, b) in pairs {
        let expected = a.cmp(b);
        let got = match compare_text(a, b) {
            TextOrder::Before => std::cmp::Ordering::Less,
            TextOrder::Same => std::cmp::Ordering::Equal,
            TextOrder::After => std::cmp::Ordering::Greater,
        };
        assert_eq!(got, expected, "{a} vs {b}");
    }
}
