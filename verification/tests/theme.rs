use xterm_js_sys::theme::{Theme, ThemeExt};

#[test]
fn default_theme_sets_no_color() {
    let theme = Theme::default();
    assert_eq!(theme.foreground(), None);
    assert_eq!(theme.background(), None);
    assert_eq!(theme.cursor(), None);
    assert_eq!(theme.cursor_accent(), None);
    assert_eq!(theme.selection_background(), None);
    assert_eq!(theme.selection_foreground(), None);
    assert_eq!(theme.selection_inactive_background(), None);
    assert_eq!(theme.black(), None);
    assert_eq!(theme.bright_white(), None);
    assert_eq!(theme.extended_ansi(), None);
}

#[test]
fn nord_sets_the_sixteen_ansi_colors() {
    let theme = Theme::nord();
    assert_eq!(theme.black(), Some("#343434".to_string()));
    assert_eq!(theme.bright_black(), Some("#434C5E".to_string()));
    assert_eq!(theme.red(), Some("#BF616A".to_string()));
    assert_eq!(theme.bright_red(), Some("#BF616A".to_string()));
    assert_eq!(theme.green(), Some("#A3BE8C".to_string()));
    assert_eq!(theme.bright_green(), Some("#A3BE8C".to_string()));
    assert_eq!(theme.yellow(), Some("#EBCB8B".to_string()));
    assert_eq!(theme.bright_yellow(), Some("#EBCB8B".to_string()));
    assert_eq!(theme.blue(), Some("#81A1C1".to_string()));
    assert_eq!(theme.bright_blue(), Some("#81A1C1".to_string()));
    assert_eq!(theme.magenta(), Some("#B48EAD".to_string()));
    assert_eq!(theme.bright_magenta(), Some("#B48EAD".to_string()));
    assert_eq!(theme.cyan(), Some("#88C0D0".to_string()));
    assert_eq!(theme.bright_cyan(), Some("#8FBCBB".to_string()));
    assert_eq!(theme.white(), Some("#E5E9F0".to_string()));
    assert_eq!(theme.bright_white(), Some("#ECEFF4".to_string()));
}

#[test]
fn nord_sets_background_and_foreground_and_nothing_else() {
    let theme = Theme::nord();
    assert_eq!(theme.background(), Some("#2E3440".to_string()));
    assert_eq!(theme.foreground(), Some("#D8DEE9".to_string()));
    assert_eq!(theme.cursor(), None);
    assert_eq!(theme.cursor_accent(), None);
    assert_eq!(theme.selection_background(), None);
    assert_eq!(theme.selection_foreground(), None);
    assert_eq!(theme.selection_inactive_background(), None);
    assert_eq!(theme.extended_ansi(), None);
}

#[test]
fn setter_changes_one_color_only() {
    let mut theme = Theme::nord();
    theme.set_cursor(Some("#ffffff".to_string()));
    assert_eq!(theme.cursor(), Some("#ffffff".to_string()));
    assert_eq!(theme.red(), Some("#BF616A".to_string()));
    theme.set_red(None);
    assert_eq!(theme.red(), None);
    assert_eq!(theme.cursor(), Some("#ffffff".to_string()));
    assert_eq!(theme.bright_red(), Some("#BF616A".to_string()));
}

#[test]
fn every_setter_reaches_its_own_color() {
    let mut theme = Theme::default();
    theme.set_foreground(Some("a".to_string()));
    theme.set_background(Some("b".to_string()));
    theme.set_cursor(Some("c".to_string()));
    theme.set_cursor_accent(Some("d".to_string()));
    theme.set_selection_background(Some("e".to_string()));
    theme.set_selection_foreground(Some("f".to_string()));
    theme.set_selection_inactive_background(Some("g".to_string()));
    theme.set_black(Some("h".to_string()));
    theme.set_red(Some("i".to_string()));
    theme.set_green(Some("j".to_string()));
    theme.set_yellow(Some("k".to_string()));
    theme.set_blue(Some("l".to_string()));
    theme.set_magenta(Some("m".to_string()));
    theme.set_cyan(Some("n".to_string()));
    theme.set_white(Some("o".to_string()));
    theme.set_bright_black(Some("p".to_string()));
    theme.set_bright_red(Some("q".to_string()));
    theme.set_bright_green(Some("r".to_string()));
    theme.set_bright_yellow(Some("s".to_string()));
    theme.set_bright_blue(Some("t".to_string()));
    theme.set_bright_magenta(Some("u".to_string()));
    theme.set_bright_cyan(Some("v".to_string()));
    theme.set_bright_white(Some("w".to_string()));
    let got = vec![
        theme.foreground(),
        theme.background(),
        theme.cursor(),
        theme.cursor_accent(),
        theme.selection_background(),
        theme.selection_foreground(),
        theme.selection_inactive_background(),
        theme.black(),
        theme.red(),
        theme.green(),
        theme.yellow(),
        theme.blue(),
        theme.magenta(),
        theme.cyan(),
        theme.white(),
        theme.bright_black(),
        theme.bright_red(),
        theme.bright_green(),
        theme.bright_yellow(),
        theme.bright_blue(),
        theme.bright_magenta(),
        theme.bright_cyan(),
        theme.bright_white(),
    ];
    let letters = "abcdefghijklmnopqrstuvw";
    assert_eq!(got.len(), letters.len());
    for (color, letter) in got.iter().zip(letters.chars()) {
        assert_eq!(*color, Some(letter.to_string()));
    }
}

#[test]
fn extended_colors_are_kept_in_order() {
    let mut theme = Theme::default();
    theme.set_extended_ansi(Some(vec!["#000000".to_string(), "#00005f".to_string()]));
    assert_eq!(
        theme.extended_ansi(),
        Some(vec!["#000000".to_string(), "#00005f".to_string()])
    );
    assert_eq!(theme.black(), None);
    theme.set_extended_ansi(None);
    assert_eq!(theme.extended_ansi(), None);
}

#[test]
fn builders_chain_and_set_their_colors() {
    let theme = Theme::default()
        .with_foreground("#f8f8f2")
        .with_background("#282a36")
        .with_cursor("#f8f8f0")
        .with_black("#21222c")
        .with_red("#ff5555")
        .with_green("#50fa7b")
        .with_yellow("#f1fa8c")
        .with_blue("#bd93f9")
        .with_magenta("#ff79c6")
        .with_cyan("#8be9fd")
        .with_white("#f8f8f2");
    assert_eq!(theme.foreground(), Some("#f8f8f2".to_string()));
    assert_eq!(theme.background(), Some("#282a36".to_string()));
    assert_eq!(theme.cursor(), Some("#f8f8f0".to_string()));
    assert_eq!(theme.black(), Some("#21222c".to_string()));
    assert_eq!(theme.red(), Some("#ff5555".to_string()));
    assert_eq!(theme.green(), Some("#50fa7b".to_string()));
    assert_eq!(theme.yellow(), Some("#f1fa8c".to_string()));
    assert_eq!(theme.blue(), Some("#bd93f9".to_string()));
    assert_eq!(theme.magenta(), Some("#ff79c6".to_string()));
    assert_eq!(theme.cyan(), Some("#8be9fd".to_string()));
    assert_eq!(theme.white(), Some("#f8f8f2".to_string()));
    assert_eq!(theme.bright_red(), None);
    assert_eq!(theme.cursor_accent(), None);
}

#[test]
fn builder_takes_owned_strings_too() {
    let theme = Theme::nord().with_red(String::from("#ff0000"));
    assert_eq!(theme.red(), Some("#ff0000".to_string()));
    assert_eq!(theme.green(), Some("#A3BE8C".to_string()));
}

#[test]
fn themes_compare_by_their_colors() {
    assert_eq!(Theme::nord(), Theme::nord());
    assert_ne!(Theme::nord(), Theme::default());
    assert_eq!(Theme::nord().clone(), Theme::nord());
}
