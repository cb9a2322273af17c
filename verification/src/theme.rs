//! Color themes for the terminal.

use vstd::prelude::*;

use crate::color::{color_text, hex_color, hex_digits};

verus! {

/// The text of an optional color.
pub open spec fn text_of(color: Option<String>) -> Option<Seq<char>> {
    match color {
        Some(text) => Some(text@),
        None => None,
    }
}

/// The texts of an optional list of colors.
pub open spec fn texts_of(colors: Option<Vec<String>>) -> Option<Seq<Seq<char>>> {
    match colors {
        Some(list) => Some(Seq::new(list@.len(), |i: int| list@[i]@)),
        None => None,
    }
}

/// What a theme holds: for each color of the terminal its text, where one is
/// set.
pub struct ThemeView {
    pub foreground: Option<Seq<char>>,
    pub background: Option<Seq<char>>,
    pub cursor: Option<Seq<char>>,
    pub cursor_accent: Option<Seq<char>>,
    pub selection_background: Option<Seq<char>>,
    pub selection_foreground: Option<Seq<char>>,
    pub selection_inactive_background: Option<Seq<char>>,
    pub black: Option<Seq<char>>,
    pub red: Option<Seq<char>>,
    pub green: Option<Seq<char>>,
    pub yellow: Option<Seq<char>>,
    pub blue: Option<Seq<char>>,
    pub magenta: Option<Seq<char>>,
    pub cyan: Option<Seq<char>>,
    pub white: Option<Seq<char>>,
    pub bright_black: Option<Seq<char>>,
    pub bright_red: Option<Seq<char>>,
    pub bright_green: Option<Seq<char>>,
    pub bright_yellow: Option<Seq<char>>,
    pub bright_blue: Option<Seq<char>>,
    pub bright_magenta: Option<Seq<char>>,
    pub bright_cyan: Option<Seq<char>>,
    pub bright_white: Option<Seq<char>>,
    pub extended_ansi: Option<Seq<Seq<char>>>,
}

impl ThemeView {
    /// The theme that sets no color.
    pub open spec fn unset() -> ThemeView {
        ThemeView {
            foreground: None,
            background: None,
            cursor: None,
            cursor_accent: None,
            selection_background: None,
            selection_foreground: None,
            selection_inactive_background: None,
            black: None,
            red: None,
            green: None,
            yellow: None,
            blue: None,
            magenta: None,
            cyan: None,
            white: None,
            bright_black: None,
            bright_red: None,
            bright_green: None,
            bright_yellow: None,
            bright_blue: None,
            bright_magenta: None,
            bright_cyan: None,
            bright_white: None,
            extended_ansi: None,
        }
    }

    /// The Nord palette.
    pub open spec fn nord() -> ThemeView {
        ThemeView {
            black: Some(color_text(0x343434)),
            bright_black: Some(color_text(0x434c5e)),
            red: Some(color_text(0xbf616a)),
            bright_red: Some(color_text(0xbf616a)),
            green: Some(color_text(0xa3be8c)),
            bright_green: Some(color_text(0xa3be8c)),
            yellow: Some(color_text(0xebcb8b)),
            bright_yellow: Some(color_text(0xebcb8b)),
            blue: Some(color_text(0x81a1c1)),
            bright_blue: Some(color_text(0x81a1c1)),
            magenta: Some(color_text(0xb48ead)),
            bright_magenta: Some(color_text(0xb48ead)),
            cyan: Some(color_text(0x88c0d0)),
            bright_cyan: Some(color_text(0x8fbcbb)),
            white: Some(color_text(0xe5e9f0)),
            bright_white: Some(color_text(0xeceff4)),
            background: Some(color_text(0x2e3440)),
            foreground: Some(color_text(0xd8dee9)),
            ..ThemeView::unset()
        }
    }
}

/// The colors that a terminal is themed with. A color that is not set is left
/// to the terminal's default.
#[derive(Debug, PartialEq)]
pub struct Theme {
    foreground: Option<String>,
    background: Option<String>,
    cursor: Option<String>,
    cursor_accent: Option<String>,
    selection_background: Option<String>,
    selection_foreground: Option<String>,
    selection_inactive_background: Option<String>,
    black: Option<String>,
    red: Option<String>,
    green: Option<String>,
    yellow: Option<String>,
    blue: Option<String>,
    magenta: Option<String>,
    cyan: Option<String>,
    white: Option<String>,
    bright_black: Option<String>,
    bright_red: Option<String>,
    bright_green: Option<String>,
    bright_yellow: Option<String>,
    bright_blue: Option<String>,
    bright_magenta: Option<String>,
    bright_cyan: Option<String>,
    bright_white: Option<String>,
    extended_ansi: Option<Vec<String>>,
}

impl View for Theme {
    type V = ThemeView;

    closed spec fn view(&self) -> ThemeView {
        ThemeView {
            foreground: text_of(self.foreground),
            background: text_of(self.background),
            cursor: text_of(self.cursor),
            cursor_accent: text_of(self.cursor_accent),
            selection_background: text_of(self.selection_background),
            selection_foreground: text_of(self.selection_foreground),
            selection_inactive_background: text_of(self.selection_inactive_background),
            black: text_of(self.black),
            red: text_of(self.red),
            green: text_of(self.green),
            yellow: text_of(self.yellow),
            blue: text_of(self.blue),
            magenta: text_of(self.magenta),
            cyan: text_of(self.cyan),
            white: text_of(self.white),
            bright_black: text_of(self.bright_black),
            bright_red: text_of(self.bright_red),
            bright_green: text_of(self.bright_green),
            bright_yellow: text_of(self.bright_yellow),
            bright_blue: text_of(self.bright_blue),
            bright_magenta: text_of(self.bright_magenta),
            bright_cyan: text_of(self.bright_cyan),
            bright_white: text_of(self.bright_white),
            extended_ansi: texts_of(self.extended_ansi),
        }
    }
}

impl Default for Theme {
    /// The theme that sets no color.
    fn default() -> (theme: Theme)
        ensures
            theme@ == ThemeView::unset(),
    {
        Theme {
            foreground: None,
            background: None,
            cursor: None,
            cursor_accent: None,
            selection_background: None,
            selection_foreground: None,
            selection_inactive_background: None,
            black: None,
            red: None,
            green: None,
            yellow: None,
            blue: None,
            magenta: None,
            cyan: None,
            white: None,
            bright_black: None,
            bright_red: None,
            bright_green: None,
            bright_yellow: None,
            bright_blue: None,
            bright_magenta: None,
            bright_cyan: None,
            bright_white: None,
            extended_ansi: None,
        }
    }
}

fn copy_color(color: &Option<String>) -> (copy: Option<String>)
    ensures
        copy == *color,
{
    match color {
        Some(text) => Some(text.clone()),
        None => None,
    }
}

fn copy_colors(colors: &Option<Vec<String>>) -> (copy: Option<Vec<String>>)
    ensures
        texts_of(copy) == texts_of(*colors),
{
    match colors {
        Some(list) => {
            let mut copy: Vec<String> = Vec::new();
            let mut i: usize = 0;
            while i < list.len()
                invariant
                    i <= list.len(),
                    copy.len() == i,
                    forall|k: int| 0 <= k < i ==> copy@[k]@ == list@[k]@,
                decreases list.len() - i,
            {
                copy.push(list[i].clone());
                i = i + 1;
            }
            assert(texts_of(Some(copy)).unwrap() =~= texts_of(*colors).unwrap());
            Some(copy)
        },
        None => None,
    }
}

impl Clone for Theme {
    /// A theme with the same colors.
    fn clone(&self) -> (copy: Theme)
        ensures
            copy@ == self@,
    {
        Theme {
            foreground: copy_color(&self.foreground),
            background: copy_color(&self.background),
            cursor: copy_color(&self.cursor),
            cursor_accent: copy_color(&self.cursor_accent),
            selection_background: copy_color(&self.selection_background),
            selection_foreground: copy_color(&self.selection_foreground),
            selection_inactive_background: copy_color(&self.selection_inactive_background),
            black: copy_color(&self.black),
            red: copy_color(&self.red),
            green: copy_color(&self.green),
            yellow: copy_color(&self.yellow),
            blue: copy_color(&self.blue),
            magenta: copy_color(&self.magenta),
            cyan: copy_color(&self.cyan),
            white: copy_color(&self.white),
            bright_black: copy_color(&self.bright_black),
            bright_red: copy_color(&self.bright_red),
            bright_green: copy_color(&self.bright_green),
            bright_yellow: copy_color(&self.bright_yellow),
            bright_blue: copy_color(&self.bright_blue),
            bright_magenta: copy_color(&self.bright_magenta),
            bright_cyan: copy_color(&self.bright_cyan),
            bright_white: copy_color(&self.bright_white),
            extended_ansi: copy_colors(&self.extended_ansi),
        }
    }
}

impl Theme {
    /// The default foreground color.
    pub fn foreground(&self) -> (color: Option<String>)
        ensures
            text_of(color) == self@.foreground,
    {
        copy_color(&self.foreground)
    }

    /// Sets or clears the default foreground color.
    pub fn set_foreground(&mut self, foreground: Option<String>)
        ensures
            final(self)@ == (ThemeView { foreground: text_of(foreground), ..old(self)@ }),
    {
        self.foreground = foreground;
    }

    /// The default background color.
    pub fn background(&self) -> (color: Option<String>)
        ensures
            text_of(color) == self@.background,
    {
        copy_color(&self.background)
    }

    /// Sets or clears the default background color.
    pub fn set_background(&mut self, background: Option<String>)
        ensures
            final(self)@ == (ThemeView { background: text_of(background), ..old(self)@ }),
    {
        self.background = background;
    }

    /// The cursor color.
    pub fn cursor(&self) -> (color: Option<String>)
        ensures
            text_of(color) == self@.cursor,
    {
        copy_color(&self.cursor)
    }

    /// Sets or clears the cursor color.
    pub fn set_cursor(&mut self, cursor: Option<String>)
        ensures
            final(self)@ == (ThemeView { cursor: text_of(cursor), ..old(self)@ }),
    {
        self.cursor = cursor;
    }

    /// The accent color of the cursor: the text color under a block cursor.
    pub fn cursor_accent(&self) -> (color: Option<String>)
        ensures
            text_of(color) == self@.cursor_accent,
    {
        copy_color(&self.cursor_accent)
    }

    /// Sets or clears the accent color of the cursor: the text color under a block cursor.
    pub fn set_cursor_accent(&mut self, cursor_accent: Option<String>)
        ensures
            final(self)@ == (ThemeView { cursor_accent: text_of(cursor_accent), ..old(self)@ }),
    {
        self.cursor_accent = cursor_accent;
    }

    /// The background color of a selection; may be transparent.
    pub fn selection_background(&self) -> (color: Option<String>)
        ensures
            text_of(color) == self@.selection_background,
    {
        copy_color(&self.selection_background)
    }

    /// Sets or clears the background color of a selection; may be transparent.
    pub fn set_selection_background(&mut self, selection_background: Option<String>)
        ensures
            final(self)@ == (ThemeView { selection_background: text_of(selection_background), ..old(self)@ }),
    {
        self.selection_background = selection_background;
    }

    /// The text color of a selection.
    pub fn selection_foreground(&self) -> (color: Option<String>)
        ensures
            text_of(color) == self@.selection_foreground,
    {
        copy_color(&self.selection_foreground)
    }

    /// Sets or clears the text color of a selection.
    pub fn set_selection_foreground(&mut self, selection_foreground: Option<String>)
        ensures
            final(self)@ == (ThemeView { selection_foreground: text_of(selection_foreground), ..old(self)@ }),
    {
        self.selection_foreground = selection_foreground;
    }

    /// The background color of a selection while the terminal has no focus.
    pub fn selection_inactive_background(&self) -> (color: Option<String>)
        ensures
            text_of(color) == self@.selection_inactive_background,
    {
        copy_color(&self.selection_inactive_background)
    }

    /// Sets or clears the background color of a selection while the terminal has no focus.
    pub fn set_selection_inactive_background(&mut self, selection_inactive_background: Option<String>)
        ensures
            final(self)@ == (ThemeView { selection_inactive_background: text_of(selection_inactive_background), ..old(self)@ }),
    {
        self.selection_inactive_background = selection_inactive_background;
    }

    /// ANSI black.
    pub fn black(&self) -> (color: Option<String>)
        ensures
            text_of(color) == self@.black,
    {
        copy_color(&self.black)
    }

    /// Sets or clears ANSI black.
    pub fn set_black(&mut self, black: Option<String>)
        ensures
            final(self)@ == (ThemeView { black: text_of(black), ..old(self)@ }),
    {
        self.black = black;
    }

    /// ANSI red.
    pub fn red(&self) -> (color: Option<String>)
        ensures
            text_of(color) == self@.red,
    {
        copy_color(&self.red)
    }

    /// Sets or clears ANSI red.
    pub fn set_red(&mut self, red: Option<String>)
        ensures
            final(self)@ == (ThemeView { red: text_of(red), ..old(self)@ }),
    {
        self.red = red;
    }

    /// ANSI green.
    pub fn green(&self) -> (color: Option<String>)
        ensures
            text_of(color) == self@.green,
    {
        copy_color(&self.green)
    }

    /// Sets or clears ANSI green.
    pub fn set_green(&mut self, green: Option<String>)
        ensures
            final(self)@ == (ThemeView { green: text_of(green), ..old(self)@ }),
    {
        self.green = green;
    }

    /// ANSI yellow.
    pub fn yellow(&self) -> (color: Option<String>)
        ensures
            text_of(color) == self@.yellow,
    {
        copy_color(&self.yellow)
    }

    /// Sets or clears ANSI yellow.
    pub fn set_yellow(&mut self, yellow: Option<String>)
        ensures
            final(self)@ == (ThemeView { yellow: text_of(yellow), ..old(self)@ }),
    {
        self.yellow = yellow;
    }

    /// ANSI blue.
    pub fn blue(&self) -> (color: Option<String>)
        ensures
            text_of(color) == self@.blue,
    {
        copy_color(&self.blue)
    }

    /// Sets or clears ANSI blue.
    pub fn set_blue(&mut self, blue: Option<String>)
        ensures
            final(self)@ == (ThemeView { blue: text_of(blue), ..old(self)@ }),
    {
        self.blue = blue;
    }

    /// ANSI magenta.
    pub fn magenta(&self) -> (color: Option<String>)
        ensures
            text_of(color) == self@.magenta,
    {
        copy_color(&self.magenta)
    }

    /// Sets or clears ANSI magenta.
    pub fn set_magenta(&mut self, magenta: Option<String>)
        ensures
            final(self)@ == (ThemeView { magenta: text_of(magenta), ..old(self)@ }),
    {
        self.magenta = magenta;
    }

    /// ANSI cyan.
    pub fn cyan(&self) -> (color: Option<String>)
        ensures
            text_of(color) == self@.cyan,
    {
        copy_color(&self.cyan)
    }

    /// Sets or clears ANSI cyan.
    pub fn set_cyan(&mut self, cyan: Option<String>)
        ensures
            final(self)@ == (ThemeView { cyan: text_of(cyan), ..old(self)@ }),
    {
        self.cyan = cyan;
    }

    /// ANSI white.
    pub fn white(&self) -> (color: Option<String>)
        ensures
            text_of(color) == self@.white,
    {
        copy_color(&self.white)
    }

    /// Sets or clears ANSI white.
    pub fn set_white(&mut self, white: Option<String>)
        ensures
            final(self)@ == (ThemeView { white: text_of(white), ..old(self)@ }),
    {
        self.white = white;
    }

    /// ANSI bright black.
    pub fn bright_black(&self) -> (color: Option<String>)
        ensures
            text_of(color) == self@.bright_black,
    {
        copy_color(&self.bright_black)
    }

    /// Sets or clears ANSI bright black.
    pub fn set_bright_black(&mut self, bright_black: Option<String>)
        ensures
            final(self)@ == (ThemeView { bright_black: text_of(bright_black), ..old(self)@ }),
    {
        self.bright_black = bright_black;
    }

    /// ANSI bright red.
    pub fn bright_red(&self) -> (color: Option<String>)
        ensures
            text_of(color) == self@.bright_red,
    {
        copy_color(&self.bright_red)
    }

    /// Sets or clears ANSI bright red.
    pub fn set_bright_red(&mut self, bright_red: Option<String>)
        ensures
            final(self)@ == (ThemeView { bright_red: text_of(bright_red), ..old(self)@ }),
    {
        self.bright_red = bright_red;
    }

    /// ANSI bright green.
    pub fn bright_green(&self) -> (color: Option<String>)
        ensures
            text_of(color) == self@.bright_green,
    {
        copy_color(&self.bright_green)
    }

    /// Sets or clears ANSI bright green.
    pub fn set_bright_green(&mut self, bright_green: Option<String>)
        ensures
            final(self)@ == (ThemeView { bright_green: text_of(bright_green), ..old(self)@ }),
    {
        self.bright_green = bright_green;
    }

    /// ANSI bright yellow.
    pub fn bright_yellow(&self) -> (color: Option<String>)
        ensures
            text_of(color) == self@.bright_yellow,
    {
        copy_color(&self.bright_yellow)
    }

    /// Sets or clears ANSI bright yellow.
    pub fn set_bright_yellow(&mut self, bright_yellow: Option<String>)
        ensures
            final(self)@ == (ThemeView { bright_yellow: text_of(bright_yellow), ..old(self)@ }),
    {
        self.bright_yellow = bright_yellow;
    }

    /// ANSI bright blue.
    pub fn bright_blue(&self) -> (color: Option<String>)
        ensures
            text_of(color) == self@.bright_blue,
    {
        copy_color(&self.bright_blue)
    }

    /// Sets or clears ANSI bright blue.
    pub fn set_bright_blue(&mut self, bright_blue: Option<String>)
        ensures
            final(self)@ == (ThemeView { bright_blue: text_of(bright_blue), ..old(self)@ }),
    {
        self.bright_blue = bright_blue;
    }

    /// ANSI bright magenta.
    pub fn bright_magenta(&self) -> (color: Option<String>)
        ensures
            text_of(color) == self@.bright_magenta,
    {
        copy_color(&self.bright_magenta)
    }

    /// Sets or clears ANSI bright magenta.
    pub fn set_bright_magenta(&mut self, bright_magenta: Option<String>)
        ensures
            final(self)@ == (ThemeView { bright_magenta: text_of(bright_magenta), ..old(self)@ }),
    {
        self.bright_magenta = bright_magenta;
    }

    /// ANSI bright cyan.
    pub fn bright_cyan(&self) -> (color: Option<String>)
        ensures
            text_of(color) == self@.bright_cyan,
    {
        copy_color(&self.bright_cyan)
    }

    /// Sets or clears ANSI bright cyan.
    pub fn set_bright_cyan(&mut self, bright_cyan: Option<String>)
        ensures
            final(self)@ == (ThemeView { bright_cyan: text_of(bright_cyan), ..old(self)@ }),
    {
        self.bright_cyan = bright_cyan;
    }

    /// ANSI bright white.
    pub fn bright_white(&self) -> (color: Option<String>)
        ensures
            text_of(color) == self@.bright_white,
    {
        copy_color(&self.bright_white)
    }

    /// Sets or clears ANSI bright white.
    pub fn set_bright_white(&mut self, bright_white: Option<String>)
        ensures
            final(self)@ == (ThemeView { bright_white: text_of(bright_white), ..old(self)@ }),
    {
        self.bright_white = bright_white;
    }

    /// The extended ANSI colors, from color 16 on.
    pub fn extended_ansi(&self) -> (colors: Option<Vec<String>>)
        ensures
            texts_of(colors) == self@.extended_ansi,
    {
        copy_colors(&self.extended_ansi)
    }

    /// Sets or clears the extended ANSI colors, from color 16 on.
    pub fn set_extended_ansi(&mut self, extended_ansi: Option<Vec<String>>)
        ensures
            final(self)@ == (ThemeView {
                extended_ansi: texts_of(extended_ansi),
                ..old(self)@
            }),
    {
        self.extended_ansi = extended_ansi;
    }

    /// A theme after the Nord palette: its sixteen ANSI colors, background
    /// and foreground; every other color is left unset.
    #[must_use]
    pub fn nord() -> (theme: Theme)
        ensures
            theme@ == ThemeView::nord(),
    {
        let mut theme = Theme::default();

        theme.set_black(Some(hex_color(0x343434)));
        theme.set_bright_black(Some(hex_color(0x434c5e)));
        theme.set_red(Some(hex_color(0xbf616a)));
        theme.set_bright_red(Some(hex_color(0xbf616a)));
        theme.set_green(Some(hex_color(0xa3be8c)));
        theme.set_bright_green(Some(hex_color(0xa3be8c)));
        theme.set_yellow(Some(hex_color(0xebcb8b)));
        theme.set_bright_yellow(Some(hex_color(0xebcb8b)));
        theme.set_blue(Some(hex_color(0x81a1c1)));
        theme.set_bright_blue(Some(hex_color(0x81a1c1)));
        theme.set_magenta(Some(hex_color(0xb48ead)));
        theme.set_bright_magenta(Some(hex_color(0xb48ead)));
        theme.set_cyan(Some(hex_color(0x88c0d0)));
        theme.set_bright_cyan(Some(hex_color(0x8fbcbb)));
        theme.set_white(Some(hex_color(0xe5e9f0)));
        theme.set_bright_white(Some(hex_color(0xeceff4)));
        theme.set_background(Some(hex_color(0x2e3440)));
        theme.set_foreground(Some(hex_color(0xd8dee9)));
        theme
    }
}

/// The Nord palette, color by color, as the text that a terminal reads.
pub proof fn lemma_nord_colors()
    ensures
        ThemeView::nord().black == Some("#343434"@),
        ThemeView::nord().bright_black == Some("#434C5E"@),
        ThemeView::nord().red == Some("#BF616A"@),
        ThemeView::nord().bright_red == Some("#BF616A"@),
        ThemeView::nord().green == Some("#A3BE8C"@),
        ThemeView::nord().bright_green == Some("#A3BE8C"@),
        ThemeView::nord().yellow == Some("#EBCB8B"@),
        ThemeView::nord().bright_yellow == Some("#EBCB8B"@),
        ThemeView::nord().blue == Some("#81A1C1"@),
        ThemeView::nord().bright_blue == Some("#81A1C1"@),
        ThemeView::nord().magenta == Some("#B48EAD"@),
        ThemeView::nord().bright_magenta == Some("#B48EAD"@),
        ThemeView::nord().cyan == Some("#88C0D0"@),
        ThemeView::nord().bright_cyan == Some("#8FBCBB"@),
        ThemeView::nord().white == Some("#E5E9F0"@),
        ThemeView::nord().bright_white == Some("#ECEFF4"@),
        ThemeView::nord().background == Some("#2E3440"@),
        ThemeView::nord().foreground == Some("#D8DEE9"@),
{
    reveal_with_fuel(hex_digits, 7);
    reveal_strlit("#343434");
    assert(color_text(0x343434) =~= "#343434"@);
    reveal_strlit("#434C5E");
    assert(color_text(0x434c5e) =~= "#434C5E"@);
    reveal_strlit("#BF616A");
    assert(color_text(0xbf616a) =~= "#BF616A"@);
    reveal_strlit("#A3BE8C");
    assert(color_text(0xa3be8c) =~= "#A3BE8C"@);
    reveal_strlit("#EBCB8B");
    assert(color_text(0xebcb8b) =~= "#EBCB8B"@);
    reveal_strlit("#81A1C1");
    assert(color_text(0x81a1c1) =~= "#81A1C1"@);
    reveal_strlit("#B48EAD");
    assert(color_text(0xb48ead) =~= "#B48EAD"@);
    reveal_strlit("#88C0D0");
    assert(color_text(0x88c0d0) =~= "#88C0D0"@);
    reveal_strlit("#8FBCBB");
    assert(color_text(0x8fbcbb) =~= "#8FBCBB"@);
    reveal_strlit("#E5E9F0");
    assert(color_text(0xe5e9f0) =~= "#E5E9F0"@);
    reveal_strlit("#ECEFF4");
    assert(color_text(0xeceff4) =~= "#ECEFF4"@);
    reveal_strlit("#2E3440");
    assert(color_text(0x2e3440) =~= "#2E3440"@);
    reveal_strlit("#D8DEE9");
    assert(color_text(0xd8dee9) =~= "#D8DEE9"@);
}

/// `String::from` on a string slice: the new string holds the characters of
/// the slice, in the same order.
pub assume_specification<'a, 'b>[ <String as From<&'a str>>::from ](text: &'b str) -> (owned:
    String)
    ensures
        owned@ == text@,
;

/// Builder-style setters for a [`Theme`]: each takes the theme, sets one
/// color and hands the theme back, so that calls can be chained.
pub trait ThemeExt: Sized {
    /// Sets the foreground color.
    fn with_foreground<S: Into<String>>(self, color: S) -> Self;

    /// Sets the background color.
    fn with_background<S: Into<String>>(self, color: S) -> Self;

    /// Sets the cursor color.
    fn with_cursor<S: Into<String>>(self, color: S) -> Self;

    /// Sets the black color.
    fn with_black<S: Into<String>>(self, color: S) -> Self;

    /// Sets the red color.
    fn with_red<S: Into<String>>(self, color: S) -> Self;

    /// Sets the green color.
    fn with_green<S: Into<String>>(self, color: S) -> Self;

    /// Sets the yellow color.
    fn with_yellow<S: Into<String>>(self, color: S) -> Self;

    /// Sets the blue color.
    fn with_blue<S: Into<String>>(self, color: S) -> Self;

    /// Sets the magenta color.
    fn with_magenta<S: Into<String>>(self, color: S) -> Self;

    /// Sets the cyan color.
    fn with_cyan<S: Into<String>>(self, color: S) -> Self;

    /// Sets the white color.
    fn with_white<S: Into<String>>(self, color: S) -> Self;

}

impl ThemeExt for Theme {
    fn with_foreground<S: Into<String>>(self, color: S) -> (theme: Theme)
        ensures
            exists|text: String|
                call_ensures(<S as Into<String>>::into, (color,), text) && theme@ == (ThemeView {
                    foreground: Some(text@),
                    ..self@
                }),
    {
        let mut theme = self;
        theme.set_foreground(Some(color.into()));
        theme
    }

    fn with_background<S: Into<String>>(self, color: S) -> (theme: Theme)
        ensures
            exists|text: String|
                call_ensures(<S as Into<String>>::into, (color,), text) && theme@ == (ThemeView {
                    background: Some(text@),
                    ..self@
                }),
    {
        let mut theme = self;
        theme.set_background(Some(color.into()));
        theme
    }

    fn with_cursor<S: Into<String>>(self, color: S) -> (theme: Theme)
        ensures
            exists|text: String|
                call_ensures(<S as Into<String>>::into, (color,), text) && theme@ == (ThemeView {
                    cursor: Some(text@),
                    ..self@
                }),
    {
        let mut theme = self;
        theme.set_cursor(Some(color.into()));
        theme
    }

    fn with_black<S: Into<String>>(self, color: S) -> (theme: Theme)
        ensures
            exists|text: String|
                call_ensures(<S as Into<String>>::into, (color,), text) && theme@ == (ThemeView {
                    black: Some(text@),
                    ..self@
                }),
    {
        let mut theme = self;
        theme.set_black(Some(color.into()));
        theme
    }

    fn with_red<S: Into<String>>(self, color: S) -> (theme: Theme)
        ensures
            exists|text: String|
                call_ensures(<S as Into<String>>::into, (color,), text) && theme@ == (ThemeView {
                    red: Some(text@),
                    ..self@
                }),
    {
        let mut theme = self;
        theme.set_red(Some(color.into()));
        theme
    }

    fn with_green<S: Into<String>>(self, color: S) -> (theme: Theme)
        ensures
            exists|text: String|
                call_ensures(<S as Into<String>>::into, (color,), text) && theme@ == (ThemeView {
                    green: Some(text@),
                    ..self@
                }),
    {
        let mut theme = self;
        theme.set_green(Some(color.into()));
        theme
    }

    fn with_yellow<S: Into<String>>(self, color: S) -> (theme: Theme)
        ensures
            exists|text: String|
                call_ensures(<S as Into<String>>::into, (color,), text) && theme@ == (ThemeView {
                    yellow: Some(text@),
                    ..self@
                }),
    {
        let mut theme = self;
        theme.set_yellow(Some(color.into()));
        theme
    }

    fn with_blue<S: Into<String>>(self, color: S) -> (theme: Theme)
        ensures
            exists|text: String|
                call_ensures(<S as Into<String>>::into, (color,), text) && theme@ == (ThemeView {
                    blue: Some(text@),
                    ..self@
                }),
    {
        let mut theme = self;
        theme.set_blue(Some(color.into()));
        theme
    }

    fn with_magenta<S: Into<String>>(self, color: S) -> (theme: Theme)
        ensures
            exists|text: String|
                call_ensures(<S as Into<String>>::into, (color,), text) && theme@ == (ThemeView {
                    magenta: Some(text@),
                    ..self@
                }),
    {
        let mut theme = self;
        theme.set_magenta(Some(color.into()));
        theme
    }

    fn with_cyan<S: Into<String>>(self, color: S) -> (theme: Theme)
        ensures
            exists|text: String|
                call_ensures(<S as Into<String>>::into, (color,), text) && theme@ == (ThemeView {
                    cyan: Some(text@),
                    ..self@
                }),
    {
        let mut theme = self;
        theme.set_cyan(Some(color.into()));
        theme
    }

    fn with_white<S: Into<String>>(self, color: S) -> (theme: Theme)
        ensures
            exists|text: String|
                call_ensures(<S as Into<String>>::into, (color,), text) && theme@ == (ThemeView {
                    white: Some(text@),
                    ..self@
                }),
    {
        let mut theme = self;
        theme.set_white(Some(color.into()));
        theme
    }

}

} // verus!
