//! Fringe bitmaps: which image is drawn, where, what is cleared under it,
//! and which colour paints it.

use crate::geometry::Point;
use crate::geometry::Rect;
use crate::resources::get_or_create_fringe_bitmap;
use crate::resources::lookup;
use crate::resources::FringeBitmapCache;
use vstd::prelude::*;

verus! {

/// The fields of the host's request to draw one fringe bitmap.
#[derive(Clone, Copy, Debug, PartialEq, Eq, Structural)]
pub struct FringeBitmapParams {
    /// Identifier of the bitmap; none is drawn unless it is positive.
    pub which: i32,
    /// Where the bitmap goes.
    pub x: i32,
    pub y: i32,
    /// Size of the bitmap.
    pub wd: i32,
    pub h: i32,
    /// Origin of the background to clear; negative `bx` means none.
    pub bx: i32,
    pub by: i32,
    /// Size of the background to clear.
    pub nx: i32,
    pub ny: i32,
    /// The bitmap stands for the cursor.
    pub cursor_p: bool,
    /// The bitmap is laid over another one.
    pub overlay_p: bool,
}

/// The colour that paints the bitmap itself.
#[derive(Clone, Copy, Debug, PartialEq, Eq, Structural)]
pub enum FringePaint {
    /// The frame's cursor colour.
    Cursor,
    /// The background of the bitmap's face.
    FaceBackground,
    /// The foreground of the bitmap's face.
    FaceForeground,
}

/// Where a fringe bitmap goes and how it is painted.  The background is
/// always painted in the background of the bitmap's face.
#[derive(Clone, Copy, Debug, PartialEq, Eq, Structural)]
pub struct FringeLayout {
    pub pos: Point,
    pub image_clip_rect: Rect,
    pub clear_rect: Rect,
    pub row_rect: Rect,
    pub bitmap_color: FringePaint,
}

/// Everything the renderer needs to draw one fringe bitmap: the uploaded
/// image and its layout.
#[derive(Debug, PartialEq, Eq)]
pub struct FringeDraw<Image> {
    pub image: Image,
    pub layout: FringeLayout,
}

/// The top of a glyph row inside its window: rows that begin above the
/// window are taken to begin at its top.
pub open spec fn spec_visible_row_y(row_y: i32) -> i32 {
    if row_y > 0 {
        row_y
    } else {
        0
    }
}

/// The stripe of the frame that the row occupies, cut off at the top of the
/// window's area.
pub open spec fn fringe_row_rect(area: Rect, row_frame_y: i32, row_visible_height: i32) -> Rect {
    Rect {
        x: area.x,
        y: if row_frame_y > area.y {
            row_frame_y
        } else {
            area.y
        },
        width: area.width,
        height: row_visible_height,
    }
}

/// The part of the frame that the bitmap may touch: its own box, or nothing
/// when there is no bitmap to draw.
pub open spec fn fringe_image_clip_rect(p: FringeBitmapParams) -> Rect {
    if p.which > 0 {
        Rect { x: p.x, y: p.y, width: p.wd, height: p.h }
    } else {
        Rect::spec_zero()
    }
}

/// The background to clear first: the box the host names, unless it names
/// none or the bitmap is an overlay.
pub open spec fn fringe_clear_rect(p: FringeBitmapParams) -> Rect {
    if p.bx >= 0 && !p.overlay_p {
        Rect { x: p.bx, y: p.by, width: p.nx, height: p.ny }
    } else {
        Rect::spec_zero()
    }
}

/// The cursor colour for a cursor bitmap, else the face's background for an
/// overlay, else the face's foreground.
pub open spec fn fringe_paint(p: FringeBitmapParams) -> FringePaint {
    if p.cursor_p {
        FringePaint::Cursor
    } else if p.overlay_p {
        FringePaint::FaceBackground
    } else {
        FringePaint::FaceForeground
    }
}

/// The layout of the bitmap that `p` asks for, on a row whose visible top
/// is at `row_frame_y` in the frame and which shows `row_visible_height`
/// pixels, in a window whose box over all its areas is `area`.
pub open spec fn spec_fringe_layout(
    area: Rect,
    row_frame_y: i32,
    row_visible_height: i32,
    p: FringeBitmapParams,
) -> FringeLayout {
    FringeLayout {
        pos: Point { x: p.x, y: p.y },
        image_clip_rect: fringe_image_clip_rect(p),
        clear_rect: fringe_clear_rect(p),
        row_rect: fringe_row_rect(area, row_frame_y, row_visible_height),
        bitmap_color: fringe_paint(p),
    }
}

/// The window-relative y of a row, raised to the top of the window where
/// the row begins above it.  The host turns the result into a frame
/// coordinate before the bitmap is laid out.
#[verifier::when_used_as_spec(spec_visible_row_y)]
pub fn visible_row_y(row_y: i32) -> (y: i32)
    ensures
        y == spec_visible_row_y(row_y),
{
    if row_y > 0 {
        row_y
    } else {
        0
    }
}

/// Lays out one fringe bitmap.
pub fn fringe_layout(
    area: Rect,
    row_frame_y: i32,
    row_visible_height: i32,
    p: &FringeBitmapParams,
) -> (layout: FringeLayout)
    ensures
        layout == spec_fringe_layout(area, row_frame_y, row_visible_height, *p),
{
    let row_rect = Rect {
        x: area.x,
        y: if row_frame_y > area.y {
            row_frame_y
        } else {
            area.y
        },
        width: area.width,
        height: row_visible_height,
    };
    let image_clip_rect = if p.which > 0 {
        Rect { x: p.x, y: p.y, width: p.wd, height: p.h }
    } else {
        Rect::zero()
    };
    let clear_rect = if p.bx >= 0 && !p.overlay_p {
        Rect { x: p.bx, y: p.by, width: p.nx, height: p.ny }
    } else {
        Rect::zero()
    };
    let bitmap_color = if p.cursor_p {
        FringePaint::Cursor
    } else if p.overlay_p {
        FringePaint::FaceBackground
    } else {
        FringePaint::FaceForeground
    };
    FringeLayout { pos: Point { x: p.x, y: p.y }, image_clip_rect, clear_rect, row_rect, bitmap_color }
}

/// Prepares the drawing of one fringe bitmap.
///
/// The image is the one that the terminal's cache holds for the bitmap;
/// where it holds none, `create` uploads the bitmap and the cache keeps the
/// result.  `area` is the window's box over all its areas, `row_frame_y` the
/// frame coordinate of the row's visible top, `row_visible_height` the
/// height of the row that shows.
pub fn wr_draw_fringe_bitmap<Image: Copy, F: FnOnce() -> Image>(
    cache: &mut FringeBitmapCache<Image>,
    create: F,
    area: Rect,
    row_frame_y: i32,
    row_visible_height: i32,
    p: &FringeBitmapParams,
) -> (draw: FringeDraw<Image>)
    requires
        !old(cache)@.contains_key(p.which) ==> call_requires(create, ()),
    ensures
        draw.layout == spec_fringe_layout(area, row_frame_y, row_visible_height, *p),
        old(cache)@.contains_key(p.which) ==> draw.image == old(cache)@[p.which] && final(cache)@
            == old(cache)@,
        !old(cache)@.contains_key(p.which) ==> call_ensures(create, (), draw.image)
            && final(cache)@ == old(cache)@.insert(p.which, draw.image),
        lookup(final(cache)@, p.which) == Some(draw.image),
{
    let layout = fringe_layout(area, row_frame_y, row_visible_height, p);
    let image = get_or_create_fringe_bitmap(cache, p.which, create);
    FringeDraw { image, layout }
}

} // verus!
