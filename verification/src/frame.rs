//! Operations on a whole frame.

use crate::geometry::Rect;
use vstd::prelude::*;

verus! {

/// The part of the host's mouse highlight that the end of an update
/// touches.
#[derive(Clone, Copy, Debug, PartialEq, Eq, Structural)]
pub struct MouseHighlight {
    /// Showing the mouse face is put off while an update runs.
    pub mouse_face_defer: bool,
}

/// One thing to do when a frame is cleared.
#[derive(Clone, Copy, Debug, PartialEq, Eq, Structural)]
pub enum ClearStep {
    /// Throw away what was drawn since the last flush.
    ClearDisplayList,
    /// Fill the rectangle with the frame's background.
    ClearArea(Rect),
}

/// The steps that clear a frame whose device is `width` by `height`.
pub open spec fn clear_frame_steps(width: i32, height: i32) -> Seq<ClearStep> {
    seq![
        ClearStep::ClearDisplayList,
        ClearStep::ClearArea(Rect { x: 0, y: 0, width: width, height: height }),
    ]
}

/// Clears a frame: what was drawn so far is thrown away, then the whole
/// device is filled with the background.
pub fn wr_clear_frame(device_width: i32, device_height: i32) -> (steps: Vec<ClearStep>)
    ensures
        steps@ == clear_frame_steps(device_width, device_height),
{
    let mut steps: Vec<ClearStep> = Vec::new();
    steps.push(ClearStep::ClearDisplayList);
    steps.push(ClearStep::ClearArea(Rect { x: 0, y: 0, width: device_width, height: device_height }));
    steps
}

/// Ends the update of a frame: the mouse highlight may be shown again.
pub fn wr_update_end(mouse_highlight: &mut MouseHighlight)
    ensures
        *final(mouse_highlight) == (MouseHighlight { mouse_face_defer: false }),
{
    mouse_highlight.mouse_face_defer = false;
}

/// Whether the GL context of a frame is to be fitted to the frame after a
/// change of size or scale: only a frame that has an output, and a renderer
/// on it, has a context to fit.
pub fn gl_renderer_fit_context(has_output: bool, has_renderer: bool) -> (fit: bool)
    ensures
        fit == (has_output && has_renderer),
{
    has_output && has_renderer
}

/// How far the baseline of text is moved on this renderer: not at all.
pub fn wr_get_baseline_offset() -> (offset: i32)
    ensures
        offset == 0,
{
    0
}

} // verus!
