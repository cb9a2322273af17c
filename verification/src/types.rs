//! The choices that terminal options are made of.

use vstd::prelude::*;

verus! {

/// How the terminal announces a bell.
#[derive(Debug, Clone, Copy, PartialEq, Eq, Hash, Structural)]
pub enum BellStyle {
    /// No bell notification.
    Off,
    /// A visual bell notification. No longer offered by current terminals.
    Visual,
    /// An auditory bell notification.
    Sound,
    /// Both a visual and an auditory notification. No longer offered by
    /// current terminals.
    Both,
}

/// The style of the cursor.
#[derive(Debug, Clone, Copy, PartialEq, Eq, Hash, Structural)]
pub enum CursorStyle {
    /// A block that covers the cell.
    Block,
    /// A line under the cell.
    Underline,
    /// A bar before the cell.
    Bar,
}

/// The style of the cursor while the terminal has no focus.
#[derive(Debug, Clone, Copy, PartialEq, Eq, Hash, Structural)]
pub enum CursorInactiveStyle {
    /// The outline of a block.
    Outline,
    /// A block that covers the cell.
    Block,
    /// A bar before the cell.
    Bar,
    /// A line under the cell.
    Underline,
    /// No cursor.
    Hidden,
}

/// The key that is held to scroll faster.
#[derive(Debug, Clone, Copy, PartialEq, Eq, Hash, Structural)]
pub enum FastScrollModifier {
    /// The alt key.
    Alt,
    /// The ctrl key.
    Ctrl,
    /// The shift key.
    Shift,
}

/// The weight of a font.
#[derive(Debug, Clone, Copy, PartialEq, Eq, Hash, Structural)]
pub enum FontWeight {
    /// Normal weight.
    Normal,
    /// Bold weight.
    Bold,
    /// Weight 100.
    _100,
    /// Weight 200.
    _200,
    /// Weight 300.
    _300,
    /// Weight 400.
    _400,
    /// Weight 500.
    _500,
    /// Weight 600.
    _600,
    /// Weight 700.
    _700,
    /// Weight 800.
    _800,
    /// Weight 900.
    _900,
}

/// How much the terminal logs: everything at the chosen level and above.
#[derive(Debug, Clone, Copy, PartialEq, Eq, Hash, Structural)]
pub enum LogLevel {
    /// Debug information and everything above: all logs.
    Debug,
    /// Information and everything above.
    Info,
    /// Warnings and errors.
    Warn,
    /// Errors only.
    Error,
    /// No logs.
    Off,
}

/// What draws the terminal.
#[derive(Debug, Clone, Copy, PartialEq, Eq, Hash, Structural)]
pub enum RendererType {
    /// The DOM renderer: the fallback, without letter spacing and cursor
    /// blinking.
    Dom,
    /// The canvas renderer.
    Canvas,
}

/// Which of the terminal's two buffers.
#[derive(Debug, Clone, Copy, PartialEq, Eq, Hash, Structural)]
pub enum BufferType {
    /// The normal buffer.
    Normal,
    /// The alternate buffer.
    Alternate,
}

/// How many cells a character takes.
#[derive(Debug, Clone, Copy, PartialEq, Eq, Hash, Structural)]
pub enum WideCharacterWidth {
    /// No cell.
    _0,
    /// One cell.
    _1,
    /// Two cells.
    _2,
}

impl WideCharacterWidth {
    /// The number of cells.
    pub open spec fn cells_spec(self) -> int {
        match self {
            WideCharacterWidth::_0 => 0,
            WideCharacterWidth::_1 => 1,
            WideCharacterWidth::_2 => 2,
        }
    }

    /// The number of cells.
    pub fn cells(self) -> (cells: u8)
        ensures
            cells == self.cells_spec(),
    {
        match self {
            WideCharacterWidth::_0 => 0,
            WideCharacterWidth::_1 => 1,
            WideCharacterWidth::_2 => 2,
        }
    }
}

/// The pseudo terminal backend on Windows.
#[derive(Debug, Clone, Copy, PartialEq, Eq, Hash, Structural)]
pub enum WindowsPty {
    /// Detect the backend.
    Auto,
    /// The ConPTY backend.
    Conpty,
    /// The WinPTY backend.
    Winpty,
}

/// Which mouse events the terminal reports.
#[derive(Debug, Clone, Copy, PartialEq, Eq, Hash, Structural)]
pub enum MouseTrackingMode {
    /// No mouse events: the default.
    Off,
    /// Position on button press.
    X10,
    /// Position on button press and release.
    Vt200,
    /// Motion while a button is held.
    Drag,
    /// All motion.
    Any,
}

} // verus!
