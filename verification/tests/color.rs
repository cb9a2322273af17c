use xterm_js_sys::color::hex_color;

#[test]
fn six_digits_are_written_in_upper_case() {
    assert_eq!(hex_color(0xbf616a), "#BF616A");
    assert_eq!(hex_color(0x343434), "#343434");
    assert_eq!(hex_color(0xffffff), "#FFFFFF");
    assert_eq!(hex_color(0x100000), "#100000");
}

#[test]
fn short_values_are_padded_with_blanks() {
    assert_eq!(hex_color(0xabc), "#   ABC");
    assert_eq!(hex_color(0x0fffff), "# FFFFF");
    assert_eq!(hex_color(0xf), "#     F");
}

#[test]
fn zero_is_a_single_digit() {
    assert_eq!(hex_color(0), "#     0");
}

#[test]
fn long_values_keep_all_their_digits() {
    assert_eq!(hex_color(0x1234567), "#1234567");
    assert_eq!(hex_color(u32::MAX), "#FFFFFFFF");
}

#[test]
fn hex_color_agrees_with_the_standard_formatter() {
    for value in [0u32, 9, 10, 15, 16, 255, 4096, 0xfffff, 0x100000, 0x2e3440, 0xd8dee9, u32::MAX] {
        assert_eq!(hex_color(value), format!("#{:6X}", value));
    }
}
