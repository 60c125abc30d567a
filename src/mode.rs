use vstd::prelude::*;

verus! {

/// An editing mode. It decides the active key bindings, the cursor's look
/// and the label shown on the status line.
#[derive(Clone, Copy, Debug, PartialEq, Eq, Structural)]
pub enum Mode {
    Normal,
    Insert,
}

/// The visual shape of the terminal cursor.
#[derive(Clone, Copy, Debug, PartialEq, Eq, Structural)]
pub enum CursorStyle {
    SteadyBlock,
    BlinkingBar,
}

/// The cursor shape that goes with a mode.
pub open spec fn style_of(m: Mode) -> CursorStyle {
    match m {
        Mode::Normal => CursorStyle::SteadyBlock,
        Mode::Insert => CursorStyle::BlinkingBar,
    }
}

/// The human-readable name of a mode.
pub open spec fn label_of(m: Mode) -> Seq<char> {
    match m {
        Mode::Normal => seq!['N', 'O', 'R', 'M', 'A', 'L'],
        Mode::Insert => seq!['I', 'N', 'S', 'E', 'R', 'T'],
    }
}

impl Mode {
    /// The cursor shape shown while this mode is active.
    pub fn get_cursor_style(&self) -> (r: CursorStyle)
        ensures
            r == style_of(*self),
    {
        match self {
            Mode::Normal => CursorStyle::SteadyBlock,
            Mode::Insert => CursorStyle::BlinkingBar,
        }
    }

    /// The mode's name, as shown on the status line.
    pub fn label(&self) -> (r: &'static str)
        ensures
            r@ == label_of(*self),
    {
        match self {
            Mode::Normal => {
                proof {
                    reveal_strlit("NORMAL");
                }
                "NORMAL"
            },
            Mode::Insert => {
                proof {
                    reveal_strlit("INSERT");
                }
                "INSERT"
            },
        }
    }
}

} // verus!
