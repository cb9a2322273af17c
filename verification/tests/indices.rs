use xterm_js_sys::idx_to_opt;

#[test]
fn minus_one_is_no_element() {
    assert_eq!(idx_to_opt(-1), None);
}

#[test]
fn zero_is_the_first_position() {
    assert_eq!(idx_to_opt(0), Some(0));
}

#[test]
fn positive_indices_are_kept() {
    assert_eq!(idx_to_opt(17), Some(17));
    assert_eq!(idx_to_opt(i32::MAX), Some(2147483647));
}
