//! Pixel-level operations on images.  The renderer keeps images on the GPU
//! and offers none of them: each request is answered with the operation
//! that is missing, never with pixel data.

use vstd::prelude::*;

verus! {

/// An operation on images that the renderer does not offer.
#[derive(Clone, Copy, Debug, PartialEq, Eq, Structural)]
pub enum Unsupported {
    /// Reading one pixel of an image.
    GetPixel,
    /// Writing one pixel of an image.
    PutPixel,
    /// Drawing a cross over a pixmap.
    DrawCross,
    /// Copying an image to its pixmaps.
    SyncToPixmaps,
}

/// Reads the pixel at `(x, y)`: not offered, whatever the position.
pub fn wr_get_pixel(_x: i32, _y: i32) -> (pixel: Result<i32, Unsupported>)
    ensures
        pixel == Err::<i32, Unsupported>(Unsupported::GetPixel),
{
    Err(Unsupported::GetPixel)
}

/// Writes `pixel` at `(x, y)`: not offered, whatever the position and the
/// pixel.
pub fn wr_put_pixel(_x: i32, _y: i32, _pixel: u64) -> (done: Result<(), Unsupported>)
    ensures
        done == Err::<(), Unsupported>(Unsupported::PutPixel),
{
    Err(Unsupported::PutPixel)
}

/// Draws a cross over a pixmap: not offered.
pub fn image_pixmap_draw_cross(
    _pixmap: u64,
    _x: i32,
    _y: i32,
    _width: i32,
    _height: u32,
    _color: u64,
) -> (done: Result<(), Unsupported>)
    ensures
        done == Err::<(), Unsupported>(Unsupported::DrawCross),
{
    Err(Unsupported::DrawCross)
}

/// Copies an image to its pixmaps: not offered.
pub fn image_sync_to_pixmaps() -> (done: Result<(), Unsupported>)
    ensures
        done == Err::<(), Unsupported>(Unsupported::SyncToPixmaps),
{
    Err(Unsupported::SyncToPixmaps)
}

} // verus!
