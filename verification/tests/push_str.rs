use dotfiles::push_str::PushString;

#[test]
fn new_is_empty() {
    let s = PushString::new();
    assert_eq!(s.as_str(), "");
    assert_eq!(s.to_string(), "");
}

#[test]
fn push_str_appends_before_terminator() {
    let mut s = PushString::new();
    s.push_str("foo");
    s.push_str("bär");
    assert_eq!(s.as_str(), "foobär");
}

#[test]
fn pop_removes_last_char() {
    let mut s = PushString::new();
    s.push_str("ab");
    s.pop();
    assert_eq!(s.as_str(), "a");
    s.pop();
    assert_eq!(s.as_str(), "");
    s.pop();
    assert_eq!(s.as_str(), "");
}

#[test]
fn clear_empties() {
    let mut s = PushString::default();
    s.push_str("hello");
    s.clear();
    assert_eq!(s.as_str(), "");
    s.push_str("x");
    assert_eq!(s.as_str(), "x");
}
