//! The commands that the terminal buffer can hold, and their
//! mathematical image used by the contracts.

use vstd::prelude::*;

verus! {

/// One buffered terminal operation, kept in call order until a flush.
pub enum Command {
    /// Reposition the cursor to the zero-based cell (column, row).
    MoveTo(u16, u16),
    /// Erase every cell of the visible screen.
    ClearAll,
    /// Erase every cell of the row the cursor is on.
    ClearLine,
    /// Make the cursor invisible.
    Hide,
    /// Make the cursor visible.
    Show,
    /// Write the text at the cursor, advancing it.
    Print(String),
}

/// The mathematical image of a `Command`: the same constructors over
/// spec-level values, so contracts can speak of buffered work.
pub enum CmdModel {
    MoveTo { x: u16, y: u16 },
    ClearAll,
    ClearLine,
    Hide,
    Show,
    Print { text: Seq<char> },
}

impl View for Command {
    type V = CmdModel;

    open spec fn view(&self) -> CmdModel {
        match self {
            Command::MoveTo(x, y) => CmdModel::MoveTo { x: *x, y: *y },
            Command::ClearAll => CmdModel::ClearAll,
            Command::ClearLine => CmdModel::ClearLine,
            Command::Hide => CmdModel::Hide,
            Command::Show => CmdModel::Show,
            Command::Print(s) => CmdModel::Print { text: s@ },
        }
    }
}

} // verus!
