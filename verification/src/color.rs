//! Colours, as far as the display backend decides about them.
//!
//! Looking a colour up by its name and converting it for the host are the
//! host's own work.  What is decided here is what the host is told once the
//! lookup is done.

use vstd::prelude::*;

verus! {

/// The host's record of a colour: the pixel value under which faces and
/// frames refer to the colour, and its channels.
#[derive(Clone, Copy, Debug, PartialEq, Eq, Structural)]
pub struct NativeColor {
    pub pixel: u64,
    pub red: u16,
    pub green: u16,
    pub blue: u16,
}

/// The record that the host holds after a lookup: the one that the lookup
/// gave, or the one it held before where the lookup gave none.
pub open spec fn color_after_lookup(resolved: Option<NativeColor>, before: NativeColor) -> NativeColor {
    match resolved {
        Some(color) => color,
        None => before,
    }
}

/// Tells the host whether a colour of some name exists and, if so, writes
/// its record to `color_def`.
///
/// `resolved` is what the lookup of the name gave: nothing where the name
/// is not valid text or names no colour.  The record goes to the host as
/// the lookup gave it, and on failure `color_def` is left as it was.
pub fn wr_defined_color(
    resolved: Option<NativeColor>,
    color_def: &mut NativeColor,
    _alloc_p: bool,
    _make_index: bool,
) -> (defined: bool)
    ensures
        defined == (resolved is Some),
        *final(color_def) == color_after_lookup(resolved, *old(color_def)),
{
    match resolved {
        Some(color) => {
            *color_def = color;
            true
        },
        None => false,
    }
}

/// Resolves the name of a colour for the host's toolkit: returns 1 and
/// writes the colour's record to `xcolor` if the lookup of the name gave
/// one, else returns 0 and leaves `xcolor` as it was.
pub fn gl_renderer_parse_color(resolved: Option<NativeColor>, xcolor: &mut NativeColor) -> (found:
    i32)
    ensures
        found == (if resolved is Some {
            1i32
        } else {
            0i32
        }),
        *final(xcolor) == color_after_lookup(resolved, *old(xcolor)),
{
    match resolved {
        Some(color) => {
            *xcolor = color;
            1
        },
        None => 0,
    }
}

} // verus!
