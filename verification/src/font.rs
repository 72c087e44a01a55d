//! The font of a frame: which fontset goes with a new font, and whether the
//! frame has to change its size for it.

use vstd::prelude::*;

verus! {

/// What a frame holds of its font, and the size of its text area in
/// characters.
#[derive(Clone, Copy, Debug, PartialEq, Eq, Structural)]
pub struct FrameFont {
    /// Identity of the frame's font.
    pub font: u64,
    pub fontset: i32,
    pub line_height: i32,
    pub column_width: i32,
    pub text_cols: i32,
    pub text_lines: i32,
}

/// The metrics of a font that a frame's size depends on.
#[derive(Clone, Copy, Debug, PartialEq, Eq, Structural)]
pub struct FontInfo {
    /// Identity of the font.
    pub font: u64,
    pub height: i32,
    pub average_width: i32,
}

/// Where the fontset of a new font comes from.
#[derive(Clone, Copy, Debug, PartialEq, Eq, Structural)]
pub enum FontsetSource {
    /// The caller named it.
    Given(i32),
    /// The host derives it from the font.
    FromFont,
}

/// What a frame has to do after it was given a font.
#[derive(Clone, Copy, Debug, PartialEq, Eq, Structural)]
pub enum FontChange {
    /// The frame had this font already.
    Unchanged,
    /// The frame's text area is to be made this large, in pixels.  `inhibit`
    /// and `pretend` go to the host's resize as they are.
    Resize { pixel_width: i32, pixel_height: i32, inhibit: i32, pretend: bool },
}

/// What the host's resize is given as `inhibit` when a frame changes its
/// font.
pub const RESIZE_INHIBIT: i32 = 3;

/// A negative fontset stands for "none named".
pub open spec fn spec_fontset_source(fontset: i32) -> FontsetSource {
    if fontset < 0 {
        FontsetSource::FromFont
    } else {
        FontsetSource::Given(fontset)
    }
}

/// Says where the fontset of a new font comes from.
#[verifier::when_used_as_spec(spec_fontset_source)]
pub fn fontset_source(fontset: i32) -> (source: FontsetSource)
    ensures
        source == spec_fontset_source(fontset),
{
    if fontset < 0 {
        FontsetSource::FromFont
    } else {
        FontsetSource::Given(fontset)
    }
}

/// Whether the text area of `frame`, set in `font`, has a size in pixels
/// that the host can name.
pub open spec fn text_area_in_range(frame: FrameFont, font: FontInfo) -> bool {
    &&& i32::MIN <= frame.text_cols * font.average_width <= i32::MAX
    &&& i32::MIN <= frame.text_lines * font.height <= i32::MAX
}

/// Tells whether the text area of `frame`, set in `font`, has a size in
/// pixels that the host can name, as `wr_new_font` asks of a font that the
/// frame does not have yet.
pub fn text_area_fits(frame: &FrameFont, font: &FontInfo) -> (fits: bool)
    ensures
        fits == text_area_in_range(*frame, *font),
{
    let width: Option<i32> = frame.text_cols.checked_mul(font.average_width);
    let height: Option<i32> = frame.text_lines.checked_mul(font.height);
    width.is_some() && height.is_some()
}

/// The frame once `font` and `fontset` are its own.
pub open spec fn frame_with_font(frame: FrameFont, font: FontInfo, fontset: i32) -> FrameFont {
    if frame.font == font.font {
        FrameFont { fontset: fontset, ..frame }
    } else {
        FrameFont {
            font: font.font,
            fontset: fontset,
            line_height: font.height,
            column_width: font.average_width,
            ..frame
        }
    }
}

/// What the frame has to do once `font` is its own.
pub open spec fn font_change(frame: FrameFont, font: FontInfo) -> FontChange {
    if frame.font == font.font {
        FontChange::Unchanged
    } else {
        FontChange::Resize {
            pixel_width: (frame.text_cols * font.average_width) as i32,
            pixel_height: (frame.text_lines * font.height) as i32,
            inhibit: RESIZE_INHIBIT,
            pretend: false,
        }
    }
}

/// Gives a frame a new font and fontset.
///
/// `fontset` is the fontset that goes with the font, looked up by the host
/// where `fontset_source` said so.  The fontset is replaced in any case.  A
/// frame that has the font already keeps its metrics; any other takes the
/// font's line height and column width and is resized to hold as many
/// columns and lines as before.
pub fn wr_new_font(frame: &mut FrameFont, font: &FontInfo, fontset: i32) -> (change: FontChange)
    requires
        old(frame).font != font.font ==> text_area_in_range(*old(frame), *font),
    ensures
        *final(frame) == frame_with_font(*old(frame), *font, fontset),
        change == font_change(*old(frame), *font),
{
    frame.fontset = fontset;
    if frame.font == font.font {
        return FontChange::Unchanged;
    }
    frame.font = font.font;
    frame.line_height = font.height;
    frame.column_width = font.average_width;
    let pixel_width: i32 = frame.text_cols * frame.column_width;
    let pixel_height: i32 = frame.text_lines * frame.line_height;
    FontChange::Resize { pixel_width, pixel_height, inhibit: RESIZE_INHIBIT, pretend: false }
}

} // verus!
