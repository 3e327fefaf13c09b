use i3bar_core::text::{contains_chars, push_decimal, split_lines, to_chars};

#[test]
fn lines_split_like_str_lines() {
    let text = "a\r\nb\n\nc\r";
    let got: Vec<String> = split_lines(text).into_iter().map(|l| l.into_iter().collect()).collect();
    let want: Vec<String> = text.lines().map(|l| l.to_string()).collect();
    assert_eq!(got, want);
    assert!(split_lines("").is_empty());
    assert_eq!(split_lines("x\n").len(), 1);
}

#[test]
fn substring_search() {
    assert!(contains_chars(&to_chars("abc[upgradable"), &to_chars("[upgradable")));
    assert!(!contains_chars(&to_chars("[upgradabl"), &to_chars("[upgradable")));
    assert!(contains_chars(&to_chars("x"), &to_chars("")));
}

#[test]
fn decimal_digits() {
    let mut v = Vec::new();
    push_decimal(&mut v, 0);
    push_decimal(&mut v, 9051);
    assert_eq!(v.into_iter().collect::<String>(), "09051");
}
