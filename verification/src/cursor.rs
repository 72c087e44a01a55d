//! The text cursor of a window: what is drawn for each kind of cursor and
//! what the window remembers of the cursor that it shows.

use vstd::prelude::*;

verus! {

/// The kinds of text cursor.
#[derive(Clone, Copy, Debug, PartialEq, Eq, Structural)]
pub enum CursorKind {
    /// No cursor at all.
    NoCursor,
    FilledBox,
    HollowBox,
    /// A vertical bar.
    Bar,
    /// A horizontal bar.
    Hbar,
    /// Any kind that the renderer does not draw, by the host's number for
    /// it.  A window may remember one; none can be asked to be drawn.
    Other(i32),
}

/// What a window remembers of the cursor on its glass.
#[derive(Clone, Copy, Debug, PartialEq, Eq, Structural)]
pub struct PhysCursor {
    pub phys_cursor_type: CursorKind,
    pub phys_cursor_on_p: bool,
    pub phys_cursor_width: i32,
}

/// The shape to draw at the cursor's glyph.
#[derive(Clone, Copy, Debug, PartialEq, Eq, Structural)]
pub enum CursorDraw {
    /// Nothing is drawn.
    Nothing,
    FilledBox,
    HollowBox,
    /// A bar of the given thickness, lying flat if `horizontal`.
    Bar { width: i32, horizontal: bool },
}

impl CursorKind {
    /// Whether a cursor of this kind can be asked to be drawn.
    pub open spec fn spec_is_drawable(&self) -> bool {
        !(*self is Other)
    }

    /// Whether a cursor of this kind can be asked to be drawn.
    #[verifier::when_used_as_spec(spec_is_drawable)]
    pub fn is_drawable(&self) -> (drawable: bool)
        ensures
            drawable == self.spec_is_drawable(),
    {
        match self {
            CursorKind::Other(_) => false,
            _ => true,
        }
    }
}

/// The shape drawn for a cursor of the given kind that is switched on.
pub open spec fn cursor_shape(cursor_type: CursorKind, cursor_width: i32) -> CursorDraw {
    match cursor_type {
        CursorKind::FilledBox => CursorDraw::FilledBox,
        CursorKind::HollowBox => CursorDraw::HollowBox,
        CursorKind::Bar => CursorDraw::Bar { width: cursor_width, horizontal: false },
        CursorKind::Hbar => CursorDraw::Bar { width: cursor_width, horizontal: true },
        CursorKind::NoCursor => CursorDraw::Nothing,
        CursorKind::Other(_) => CursorDraw::Nothing,
    }
}

/// What the window remembers once a cursor of the given kind is switched
/// on: its kind, that it is on, and for no cursor a width of zero.
pub open spec fn cursor_switched_on(window: PhysCursor, cursor_type: CursorKind) -> PhysCursor {
    PhysCursor {
        phys_cursor_type: cursor_type,
        phys_cursor_on_p: true,
        phys_cursor_width: if cursor_type is NoCursor {
            0
        } else {
            window.phys_cursor_width
        },
    }
}

/// Draws, or rather says how to draw, the cursor of a window.
///
/// With `on_p` false nothing is drawn and the window keeps what it
/// remembered.  Otherwise the window remembers the new kind and that the
/// cursor is on, and the result is the shape for that kind.
pub fn wr_draw_window_cursor(
    window: &mut PhysCursor,
    _x: i32,
    _y: i32,
    cursor_type: CursorKind,
    cursor_width: i32,
    on_p: bool,
    _active_p: bool,
) -> (draw: CursorDraw)
    requires
        on_p ==> cursor_type.spec_is_drawable(),
    ensures
        !on_p ==> draw == CursorDraw::Nothing && *final(window) == *old(window),
        on_p ==> draw == cursor_shape(cursor_type, cursor_width) && *final(window)
            == cursor_switched_on(*old(window), cursor_type),
{
    if !on_p {
        return CursorDraw::Nothing;
    }
    window.phys_cursor_type = cursor_type;
    window.phys_cursor_on_p = true;
    match cursor_type {
        CursorKind::FilledBox => CursorDraw::FilledBox,
        CursorKind::HollowBox => CursorDraw::HollowBox,
        CursorKind::Bar => CursorDraw::Bar { width: cursor_width, horizontal: false },
        CursorKind::Hbar => CursorDraw::Bar { width: cursor_width, horizontal: true },
        CursorKind::NoCursor => {
            window.phys_cursor_width = 0;
            CursorDraw::Nothing
        },
        CursorKind::Other(_) => CursorDraw::Nothing,
    }
}

} // verus!
