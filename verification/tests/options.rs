use xterm_js_sys::options::{TerminalOptions, TerminalOptionsExt, WindowOptions};
use xterm_js_sys::theme::Theme;
use xterm_js_sys::types::{BellStyle, CursorStyle, LogLevel};

#[test]
fn default_options_set_nothing() {
    let options = TerminalOptions::default();
    assert_eq!(options.cols, None);
    assert_eq!(options.rows, None);
    assert_eq!(options.log_level, None);
    assert_eq!(options.cursor_style, None);
    assert_eq!(options.cursor_blink, None);
    assert_eq!(options.bell_style, None);
    assert_eq!(options.convert_eol, None);
    assert_eq!(options.scrollback, None);
    assert_eq!(options.tab_stop_width, None);
    assert_eq!(options.bell_sound(), None);
    assert_eq!(options.font_family(), None);
    assert_eq!(options.word_separator(), None);
    assert_eq!(options.theme(), None);
    assert_eq!(options.window_options(), None);
    assert_eq!(options.windows_pty, None);
    assert_eq!(options.allow_proposed_api, None);
}

#[test]
fn default_window_options_set_nothing() {
    let window = WindowOptions::default();
    assert_eq!(window.fullscreen_win, None);
    assert_eq!(window.get_win_size_chars, None);
    assert_eq!(window.set_win_size_pixels, None);
    assert_eq!(window.push_title, None);
    assert_eq!(window.pop_title, None);
}

#[test]
fn builders_chain() {
    let options = TerminalOptions::default()
        .with_log_level(LogLevel::Info)
        .with_cols(120)
        .with_rows(30)
        .with_cursor_style(CursorStyle::Block)
        .with_cursor_blink(true)
        .with_bell_style(BellStyle::Sound)
        .with_scrollback(10000)
        .with_tab_stop_width(4);
    assert_eq!(options.log_level, Some(LogLevel::Info));
    assert_eq!(options.cols, Some(120));
    assert_eq!(options.rows, Some(30));
    assert_eq!(options.cursor_style, Some(CursorStyle::Block));
    assert_eq!(options.cursor_blink, Some(true));
    assert_eq!(options.bell_style, Some(BellStyle::Sound));
    assert_eq!(options.scrollback, Some(10000));
    assert_eq!(options.tab_stop_width, Some(4));
    assert_eq!(options.convert_eol, None);
}

#[test]
fn builder_changes_one_option_only() {
    let before = TerminalOptions::default().with_cols(80).with_rows(24);
    let after = before.clone().with_convert_eol(true);
    assert_eq!(after.convert_eol, Some(true));
    let mut expected = before;
    expected.convert_eol = Some(true);
    assert_eq!(after, expected);
}

#[test]
fn later_builder_call_wins() {
    let options = TerminalOptions::default().with_cols(80).with_cols(132);
    assert_eq!(options.cols, Some(132));
}

#[test]
fn text_options_are_set_and_cleared() {
    let mut options = TerminalOptions::default();
    options.set_bell_sound(Some("data:audio/wav;base64,AAAA".to_string()));
    options.set_font_family(Some("'Fira Mono', monospace".to_string()));
    options.set_word_separator(Some(" ()[]{}',\"`".to_string()));
    assert_eq!(options.bell_sound(), Some("data:audio/wav;base64,AAAA".to_string()));
    assert_eq!(options.font_family(), Some("'Fira Mono', monospace".to_string()));
    assert_eq!(options.word_separator(), Some(" ()[]{}',\"`".to_string()));
    options.set_font_family(None);
    assert_eq!(options.font_family(), None);
    assert_eq!(options.bell_sound(), Some("data:audio/wav;base64,AAAA".to_string()));
}

#[test]
fn theme_is_kept_with_its_colors() {
    let mut options = TerminalOptions::default().with_cols(80);
    options.set_theme(Some(Theme::nord()));
    assert_eq!(options.theme(), Some(Theme::nord()));
    assert_eq!(options.theme().unwrap().red(), Some("#BF616A".to_string()));
    assert_eq!(options.cols, Some(80));
    options.set_theme(None);
    assert_eq!(options.theme(), None);
}

#[test]
fn window_options_are_kept() {
    let mut window = WindowOptions::default();
    window.get_win_size_chars = Some(true);
    window.set_win_lines = Some(false);
    let mut options = TerminalOptions::default();
    options.set_window_options(Some(window));
    assert_eq!(options.window_options(), Some(window));
    assert_eq!(options.window_options().unwrap().get_win_size_chars, Some(true));
    assert_eq!(options.window_options().unwrap().set_win_lines, Some(false));
    assert_eq!(options.window_options().unwrap().raise_win, None);
}
