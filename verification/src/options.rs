//! The options that a terminal is started with.

use vstd::prelude::*;

use crate::theme::{Theme, ThemeView};
use crate::types::{
    BellStyle, CursorInactiveStyle, CursorStyle, FastScrollModifier, FontWeight, LogLevel,
    RendererType, WindowsPty,
};

verus! {

/// Which window manipulation and report features a terminal answers to. Each
/// is off unless it is set to `true`, since most of them give the program in
/// the terminal information about the machine it is shown on.
#[derive(Debug, Clone, Copy, PartialEq, Eq, Structural)]
pub struct WindowOptions {
    /// Leave, enter or toggle full-screen mode (`Ps=10`).
    pub fullscreen_win: Option<bool>,
    /// Report the size of a character cell in pixels (`Ps=16`).
    pub get_cell_size_pixels: Option<bool>,
    /// Report the window's icon label (`Ps=20`).
    pub get_icon_title: Option<bool>,
    /// Report the size of the screen in characters (`Ps=19`).
    pub get_screen_size_chars: Option<bool>,
    /// Report the size of the screen in pixels (`Ps=15`).
    pub get_screen_size_pixels: Option<bool>,
    /// Report the position of the window or of the text area (`Ps=13`).
    pub get_win_position: Option<bool>,
    /// Report the size of the text area in characters (`Ps=18`).
    pub get_win_size_chars: Option<bool>,
    /// Report the size of the text area or of the window in pixels (`Ps=14`).
    pub get_win_size_pixels: Option<bool>,
    /// Report whether the window is iconified (`Ps=11`).
    pub get_win_state: Option<bool>,
    /// Report the window's title (`Ps=21`).
    pub get_win_title: Option<bool>,
    /// Lower the window to the bottom of the stacking order (`Ps=6`).
    pub lower_win: Option<bool>,
    /// Maximize the window or restore it (`Ps=9`).
    pub maximize_win: Option<bool>,
    /// Iconify the window (`Ps=2`).
    pub minimize_win: Option<bool>,
    /// Save icon and window title on the stack (`Ps=22`).
    pub pop_title: Option<bool>,
    /// Restore icon and window title from the stack (`Ps=23`).
    pub push_title: Option<bool>,
    /// Raise the window to the front of the stacking order (`Ps=5`).
    pub raise_win: Option<bool>,
    /// Refresh the window (`Ps=7`).
    pub refresh_win: Option<bool>,
    /// De-iconify the window (`Ps=1`).
    pub restore_win: Option<bool>,
    /// Resize to a number of lines (`Ps>=24`).
    pub set_win_lines: Option<bool>,
    /// Move the window (`Ps=3`).
    pub set_win_position: Option<bool>,
    /// Resize the text area to a height and width in characters (`Ps=8`).
    pub set_win_size_chars: Option<bool>,
    /// Resize the window to a height and width in pixels (`Ps=4`).
    pub set_win_size_pixels: Option<bool>,
}

impl Default for WindowOptions {
    /// No feature is set.
    fn default() -> (options: WindowOptions)
        ensures
            options == WindowOptions::unset(),
    {
        WindowOptions {
            fullscreen_win: None,
            get_cell_size_pixels: None,
            get_icon_title: None,
            get_screen_size_chars: None,
            get_screen_size_pixels: None,
            get_win_position: None,
            get_win_size_chars: None,
            get_win_size_pixels: None,
            get_win_state: None,
            get_win_title: None,
            lower_win: None,
            maximize_win: None,
            minimize_win: None,
            pop_title: None,
            push_title: None,
            raise_win: None,
            refresh_win: None,
            restore_win: None,
            set_win_lines: None,
            set_win_position: None,
            set_win_size_chars: None,
            set_win_size_pixels: None,
        }
    }
}

impl WindowOptions {
    /// The options with no feature set.
    pub open spec fn unset() -> WindowOptions {
        WindowOptions {
            fullscreen_win: None,
            get_cell_size_pixels: None,
            get_icon_title: None,
            get_screen_size_chars: None,
            get_screen_size_pixels: None,
            get_win_position: None,
            get_win_size_chars: None,
            get_win_size_pixels: None,
            get_win_state: None,
            get_win_title: None,
            lower_win: None,
            maximize_win: None,
            minimize_win: None,
            pop_title: None,
            push_title: None,
            raise_win: None,
            refresh_win: None,
            restore_win: None,
            set_win_lines: None,
            set_win_position: None,
            set_win_size_chars: None,
            set_win_size_pixels: None,
        }
    }
}

/// The options that a terminal is started with. An option that is not set is
/// left to the terminal's default.
#[derive(Debug, Clone, PartialEq)]
pub struct TerminalOptions {
    /// Whether the use of proposed API is allowed.
    pub allow_proposed_api: Option<bool>,
    /// Whether the background may be a color that is not opaque.
    pub allow_transparency: Option<bool>,
    /// Whether alt and click move the prompt cursor under the mouse.
    pub alt_click_moves_cursor: Option<bool>,
    /// A data URI of the sound of the bell, used with [`BellStyle::Sound`].
    pub bell_sound: Option<String>,
    /// How the terminal announces a bell.
    pub bell_style: Option<BellStyle>,
    /// The number of columns.
    pub cols: Option<u16>,
    /// Whether every new line also returns the cursor to the start of the line.
    pub convert_eol: Option<bool>,
    /// Whether the cursor blinks.
    pub cursor_blink: Option<bool>,
    /// The style of the cursor.
    pub cursor_style: Option<CursorStyle>,
    /// The style of the cursor while the terminal has no focus.
    pub cursor_inactive_style: Option<CursorInactiveStyle>,
    /// Whether box drawing characters are drawn with custom glyphs.
    pub custom_glyphs: Option<bool>,
    /// Whether input is disabled.
    pub disable_stdin: Option<bool>,
    /// Whether bold text is drawn in bright colors.
    pub draw_bold_text_in_bright_colors: Option<bool>,
    /// The key that is held to scroll faster.
    pub fast_scroll_modifier: Option<FastScrollModifier>,
    /// The font family that text is rendered in.
    pub font_family: Option<String>,
    /// The font weight of bold text.
    pub font_weight_bold: Option<FontWeight>,
    /// Whether to paste without the bracketing sequences even when the shell enables bracketed paste.
    pub ignore_bracketed_paste_mode: Option<bool>,
    /// How many milliseconds the mouse rests on a link before the tooltip shows.
    pub link_tooltip_hover_duration: Option<u16>,
    /// How much the terminal logs.
    pub log_level: Option<LogLevel>,
    /// Whether holding a modifier key forces normal selection while the terminal reports mouse events.
    pub mac_option_click_forces_selection: Option<bool>,
    /// Whether option is treated as the meta key.
    pub mac_option_is_meta: Option<bool>,
    /// What draws the terminal.
    pub renderer_type: Option<RendererType>,
    /// Whether a right click selects the word under the cursor.
    pub right_click_selects_word: Option<bool>,
    /// The number of rows.
    pub rows: Option<u16>,
    /// Whether screen reader support is enabled.
    pub screen_reader_mode: Option<bool>,
    /// How many rows are kept once they scroll out of the viewport.
    pub scrollback: Option<u32>,
    /// The size of tab stops.
    pub tab_stop_width: Option<u16>,
    /// The color theme.
    pub theme: Option<Theme>,
    /// Which window manipulation and report features are enabled.
    pub window_options: Option<WindowOptions>,
    /// Whether lines are wrapped as the Windows backends wrap them. Superseded by `windows_pty`.
    pub windows_mode: Option<bool>,
    /// The pseudo terminal backend on Windows.
    pub windows_pty: Option<WindowsPty>,
    /// The characters that separate words for selection by double click.
    pub word_separator: Option<String>,
}

/// What an optional theme holds.
pub open spec fn theme_of(theme: Option<Theme>) -> Option<ThemeView> {
    match theme {
        Some(theme) => Some(theme@),
        None => None,
    }
}

impl Default for TerminalOptions {
    /// No option is set.
    fn default() -> (options: TerminalOptions)
        ensures
            options == TerminalOptions::unset(),
    {
        TerminalOptions {
            allow_proposed_api: None,
            allow_transparency: None,
            alt_click_moves_cursor: None,
            bell_sound: None,
            bell_style: None,
            cols: None,
            convert_eol: None,
            cursor_blink: None,
            cursor_style: None,
            cursor_inactive_style: None,
            custom_glyphs: None,
            disable_stdin: None,
            draw_bold_text_in_bright_colors: None,
            fast_scroll_modifier: None,
            font_family: None,
            font_weight_bold: None,
            ignore_bracketed_paste_mode: None,
            link_tooltip_hover_duration: None,
            log_level: None,
            mac_option_click_forces_selection: None,
            mac_option_is_meta: None,
            renderer_type: None,
            right_click_selects_word: None,
            rows: None,
            screen_reader_mode: None,
            scrollback: None,
            tab_stop_width: None,
            theme: None,
            window_options: None,
            windows_mode: None,
            windows_pty: None,
            word_separator: None,
        }
    }
}

impl TerminalOptions {
    /// The options with nothing set.
    pub open spec fn unset() -> TerminalOptions {
        TerminalOptions {
            allow_proposed_api: None,
            allow_transparency: None,
            alt_click_moves_cursor: None,
            bell_sound: None,
            bell_style: None,
            cols: None,
            convert_eol: None,
            cursor_blink: None,
            cursor_style: None,
            cursor_inactive_style: None,
            custom_glyphs: None,
            disable_stdin: None,
            draw_bold_text_in_bright_colors: None,
            fast_scroll_modifier: None,
            font_family: None,
            font_weight_bold: None,
            ignore_bracketed_paste_mode: None,
            link_tooltip_hover_duration: None,
            log_level: None,
            mac_option_click_forces_selection: None,
            mac_option_is_meta: None,
            renderer_type: None,
            right_click_selects_word: None,
            rows: None,
            screen_reader_mode: None,
            scrollback: None,
            tab_stop_width: None,
            theme: None,
            window_options: None,
            windows_mode: None,
            windows_pty: None,
            word_separator: None,
        }
    }

    /// The sound of the bell, if set.
    pub fn bell_sound(&self) -> (value: Option<String>)
        ensures
            value == self.bell_sound,
    {
        match &self.bell_sound {
            Some(text) => Some(text.clone()),
            None => None,
        }
    }

    /// Sets or clears the sound of the bell.
    pub fn set_bell_sound(&mut self, bell_sound: Option<String>)
        ensures
            *final(self) == (TerminalOptions { bell_sound, ..*old(self) }),
    {
        self.bell_sound = bell_sound;
    }

    /// The font family, if set.
    pub fn font_family(&self) -> (value: Option<String>)
        ensures
            value == self.font_family,
    {
        match &self.font_family {
            Some(text) => Some(text.clone()),
            None => None,
        }
    }

    /// Sets or clears the font family.
    pub fn set_font_family(&mut self, font_family: Option<String>)
        ensures
            *final(self) == (TerminalOptions { font_family, ..*old(self) }),
    {
        self.font_family = font_family;
    }

    /// The characters that separate words, if set.
    pub fn word_separator(&self) -> (value: Option<String>)
        ensures
            value == self.word_separator,
    {
        match &self.word_separator {
            Some(text) => Some(text.clone()),
            None => None,
        }
    }

    /// Sets or clears the characters that separate words.
    pub fn set_word_separator(&mut self, word_separator: Option<String>)
        ensures
            *final(self) == (TerminalOptions { word_separator, ..*old(self) }),
    {
        self.word_separator = word_separator;
    }

    /// A copy of the color theme, if set.
    pub fn theme(&self) -> (theme: Option<Theme>)
        ensures
            theme_of(theme) == theme_of(self.theme),
    {
        match &self.theme {
            Some(theme) => Some(theme.clone()),
            None => None,
        }
    }

    /// Sets or clears the color theme.
    pub fn set_theme(&mut self, theme: Option<Theme>)
        ensures
            *final(self) == (TerminalOptions { theme, ..*old(self) }),
    {
        self.theme = theme;
    }

    /// The window features, if set.
    pub fn window_options(&self) -> (window_options: Option<WindowOptions>)
        ensures
            window_options == self.window_options,
    {
        self.window_options
    }

    /// Sets or clears the window features.
    pub fn set_window_options(&mut self, window_options: Option<WindowOptions>)
        ensures
            *final(self) == (TerminalOptions { window_options, ..*old(self) }),
    {
        self.window_options = window_options;
    }
}

/// Builder-style setters for [`TerminalOptions`]: each takes the options,
/// sets one of them and hands the options back, so that calls can be chained.
pub trait TerminalOptionsExt: Sized {
    /// Sets the log level.
    fn with_log_level(self, log_level: LogLevel) -> Self;

    /// Sets the number of columns.
    fn with_cols(self, cols: u16) -> Self;

    /// Sets the number of rows.
    fn with_rows(self, rows: u16) -> Self;

    /// Sets the style of the cursor.
    fn with_cursor_style(self, cursor_style: CursorStyle) -> Self;

    /// Sets whether the cursor blinks.
    fn with_cursor_blink(self, cursor_blink: bool) -> Self;

    /// Sets how a bell is announced.
    fn with_bell_style(self, bell_style: BellStyle) -> Self;

    /// Sets whether new lines return the cursor.
    fn with_convert_eol(self, convert_eol: bool) -> Self;

    /// Sets how many rows are kept for scrolling back.
    fn with_scrollback(self, scrollback: u32) -> Self;

    /// Sets the size of tab stops.
    fn with_tab_stop_width(self, tab_stop_width: u16) -> Self;

}

impl TerminalOptionsExt for TerminalOptions {
    fn with_log_level(self, log_level: LogLevel) -> (options: TerminalOptions)
        ensures
            options == (TerminalOptions { log_level: Some(log_level), ..self }),
    {
        let mut options = self;
        options.log_level = Some(log_level);
        options
    }

    fn with_cols(self, cols: u16) -> (options: TerminalOptions)
        ensures
            options == (TerminalOptions { cols: Some(cols), ..self }),
    {
        let mut options = self;
        options.cols = Some(cols);
        options
    }

    fn with_rows(self, rows: u16) -> (options: TerminalOptions)
        ensures
            options == (TerminalOptions { rows: Some(rows), ..self }),
    {
        let mut options = self;
        options.rows = Some(rows);
        options
    }

    fn with_cursor_style(self, cursor_style: CursorStyle) -> (options: TerminalOptions)
        ensures
            options == (TerminalOptions { cursor_style: Some(cursor_style), ..self }),
    {
        let mut options = self;
        options.cursor_style = Some(cursor_style);
        options
    }

    fn with_cursor_blink(self, cursor_blink: bool) -> (options: TerminalOptions)
        ensures
            options == (TerminalOptions { cursor_blink: Some(cursor_blink), ..self }),
    {
        let mut options = self;
        options.cursor_blink = Some(cursor_blink);
        options
    }

    fn with_bell_style(self, bell_style: BellStyle) -> (options: TerminalOptions)
        ensures
            options == (TerminalOptions { bell_style: Some(bell_style), ..self }),
    {
        let mut options = self;
        options.bell_style = Some(bell_style);
        options
    }

    fn with_convert_eol(self, convert_eol: bool) -> (options: TerminalOptions)
        ensures
            options == (TerminalOptions { convert_eol: Some(convert_eol), ..self }),
    {
        let mut options = self;
        options.convert_eol = Some(convert_eol);
        options
    }

    fn with_scrollback(self, scrollback: u32) -> (options: TerminalOptions)
        ensures
            options == (TerminalOptions { scrollback: Some(scrollback), ..self }),
    {
        let mut options = self;
        options.scrollback = Some(scrollback);
        options
    }

    fn with_tab_stop_width(self, tab_stop_width: u16) -> (options: TerminalOptions)
        ensures
            options == (TerminalOptions { tab_stop_width: Some(tab_stop_width), ..self }),
    {
        let mut options = self;
        options.tab_stop_width = Some(tab_stop_width);
        options
    }

}

} // verus!
