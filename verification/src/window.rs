//! What happens around the update of one window: the closing sequence of
//! an update, the fringe flag of a freshly written row, scrolling, and the
//! colours of the divider between windows.

use crate::geometry::Rect;
use vstd::prelude::*;

verus! {

/// Where the host left the output cursor of a window.
#[derive(Clone, Copy, Debug, PartialEq, Eq, Structural)]
pub struct OutputCursor {
    pub hpos: i32,
    pub vpos: i32,
    pub x: i32,
    pub y: i32,
}

/// What the end of an update reads from a window.
#[derive(Clone, Copy, Debug, PartialEq, Eq, Structural)]
pub struct WindowOutput {
    /// The window is not a real one (a menu bar or tool bar drawn as a window).
    pub pseudo_window_p: bool,
    pub output_cursor: OutputCursor,
    pub right_divider_width: i32,
}

/// The point that the end of an update has reached.
#[derive(Clone, Copy, Debug, PartialEq, Eq, Structural)]
pub enum WindowEndEvent {
    /// The host has finished writing the window.
    Begin,
    /// The fringes were gone over; `redrawn` tells whether any was drawn.
    FringesDrawn { redrawn: bool },
}

/// One thing to do at the end of an update, on the host or the renderer.
#[derive(Clone, Copy, Debug, PartialEq, Eq, Structural)]
pub enum WindowEndStep {
    /// Keep asynchronous input out until `UnblockInput`.
    BlockInput,
    /// Show the cursor at the output cursor's position.
    DisplayCursor { hpos: i32, vpos: i32, x: i32, y: i32 },
    /// Go over the window's fringes and report with `FringesDrawn`.
    DrawFringes,
    /// Draw the divider on the window's right.
    DrawRightDivider,
    /// Draw the one-pixel border on the window's right.
    DrawVerticalBorder,
    /// Let asynchronous input in again.
    UnblockInput,
    /// Hand the frame's display list to the renderer.
    Flush,
}

/// The steps that follow `event` at the end of an update.
///
/// A pseudo window takes none.  Otherwise input is blocked, the cursor is
/// shown if it was switched off for the update, and the fringes are gone
/// over; once they are, a redrawn fringe has the window's right edge redrawn
/// too (the divider if the window has one, else the border), input is let in
/// again and the frame is flushed.
pub open spec fn window_end_steps(
    window: WindowOutput,
    cursor_no_p: bool,
    event: WindowEndEvent,
) -> Seq<WindowEndStep> {
    if window.pseudo_window_p {
        Seq::empty()
    } else {
        match event {
            WindowEndEvent::Begin => {
                let cursor = if cursor_no_p {
                    seq![
                        WindowEndStep::DisplayCursor {
                            hpos: window.output_cursor.hpos,
                            vpos: window.output_cursor.vpos,
                            x: window.output_cursor.x,
                            y: window.output_cursor.y,
                        },
                    ]
                } else {
                    Seq::empty()
                };
                seq![WindowEndStep::BlockInput] + cursor + seq![WindowEndStep::DrawFringes]
            },
            WindowEndEvent::FringesDrawn { redrawn } => {
                let edge = if !redrawn {
                    Seq::empty()
                } else if window.right_divider_width > 0 {
                    seq![WindowEndStep::DrawRightDivider]
                } else {
                    seq![WindowEndStep::DrawVerticalBorder]
                };
                edge + seq![WindowEndStep::UnblockInput, WindowEndStep::Flush]
            },
        }
    }
}

/// Ends the update of a window, one event at a time: called with `Begin`
/// when the host is done with the window, and with `FringesDrawn` after the
/// `DrawFringes` step was carried out.  The steps are to be carried out in
/// order.
pub fn wr_update_window_end(
    window: &WindowOutput,
    cursor_no_p: bool,
    _mouse_face_overwritten_p: bool,
    event: WindowEndEvent,
) -> (steps: Vec<WindowEndStep>)
    ensures
        steps@ == window_end_steps(*window, cursor_no_p, event),
{
    let mut steps: Vec<WindowEndStep> = Vec::new();
    if window.pseudo_window_p {
        return steps;
    }
    match event {
        WindowEndEvent::Begin => {
            steps.push(WindowEndStep::BlockInput);
            if cursor_no_p {
                steps.push(
                    WindowEndStep::DisplayCursor {
                        hpos: window.output_cursor.hpos,
                        vpos: window.output_cursor.vpos,
                        x: window.output_cursor.x,
                        y: window.output_cursor.y,
                    },
                );
            }
            steps.push(WindowEndStep::DrawFringes);
        },
        WindowEndEvent::FringesDrawn { redrawn } => {
            if redrawn {
                if window.right_divider_width > 0 {
                    steps.push(WindowEndStep::DrawRightDivider);
                } else {
                    steps.push(WindowEndStep::DrawVerticalBorder);
                }
            }
            steps.push(WindowEndStep::UnblockInput);
            steps.push(WindowEndStep::Flush);
        },
    }
    steps
}

/// Whether a step draws, on the host's glass or into the display list.
pub open spec fn is_drawing_step(step: WindowEndStep) -> bool {
    step is DisplayCursor || step is DrawFringes || step is DrawRightDivider
        || step is DrawVerticalBorder
}

/// Asynchronous input stays out while the end of an update draws: over
/// both events, the steps of a real window begin by blocking input, end by
/// letting it in again and flushing, and only draw in between.  A pseudo
/// window takes no step at all.
pub proof fn lemma_window_end_draws_with_input_blocked(
    window: WindowOutput,
    cursor_no_p: bool,
    redrawn: bool,
    i: int,
)
    requires
        0 <= i < (window_end_steps(window, cursor_no_p, WindowEndEvent::Begin) + window_end_steps(
            window,
            cursor_no_p,
            WindowEndEvent::FringesDrawn { redrawn },
        )).len(),
    ensures
        ({
            let steps = window_end_steps(window, cursor_no_p, WindowEndEvent::Begin)
                + window_end_steps(window, cursor_no_p, WindowEndEvent::FringesDrawn { redrawn });
            &&& !window.pseudo_window_p
            &&& steps.len() >= 4
            &&& steps[i] is BlockInput <==> i == 0
            &&& steps[i] is UnblockInput <==> i == steps.len() - 2
            &&& steps[i] is Flush <==> i == steps.len() - 1
            &&& is_drawing_step(steps[i]) <==> 0 < i < steps.len() - 2
        }),
{
}

/// The flags of a glyph row that the update of a line touches.
#[derive(Clone, Copy, Debug, PartialEq, Eq, Structural)]
pub struct RowFlags {
    pub mode_line_p: bool,
    pub redraw_fringe_bitmaps_p: bool,
}

/// Marks the fringe bitmaps of a freshly written row for redrawing, unless
/// the row is a mode line or its window a pseudo window.
pub fn wr_after_update_window_line(pseudo_window_p: bool, desired_row: &mut RowFlags)
    ensures
        final(desired_row).mode_line_p == old(desired_row).mode_line_p,
        final(desired_row).redraw_fringe_bitmaps_p == (old(desired_row).redraw_fringe_bitmaps_p
            || (!old(desired_row).mode_line_p && !pseudo_window_p)),
{
    if !desired_row.mode_line_p && !pseudo_window_p {
        desired_row.redraw_fringe_bitmaps_p = true;
    }
}

/// A block of rows that moves up or down inside a window.
#[derive(Clone, Copy, Debug, PartialEq, Eq, Structural)]
pub struct ScrollRun {
    /// Where the block is, relative to the window.
    pub current_y: i32,
    /// Where it goes, relative to the window.
    pub desired_y: i32,
    pub height: i32,
}

/// A scroll in frame coordinates: inside the box `x, y, width, height`, the
/// `scroll_height` rows at `from_y` move to `to_y`.
#[derive(Clone, Copy, Debug, PartialEq, Eq, Structural)]
pub struct Scroll {
    pub x: i32,
    pub y: i32,
    pub width: i32,
    pub height: i32,
    pub from_y: i32,
    pub to_y: i32,
    pub scroll_height: i32,
}

/// Whether both ends of the run, moved to frame coordinates, are still
/// pixel positions that the host can name.
pub open spec fn scroll_run_in_range(top_edge_y: i32, run: ScrollRun) -> bool {
    &&& i32::MIN <= run.current_y + top_edge_y <= i32::MAX
    &&& i32::MIN <= run.desired_y + top_edge_y <= i32::MAX
}

/// Tells whether a run can be moved to frame coordinates, as
/// `wr_scroll_run` asks.
pub fn scroll_run_fits(top_edge_y: i32, run: &ScrollRun) -> (fits: bool)
    ensures
        fits == scroll_run_in_range(top_edge_y, *run),
{
    let from_y: Option<i32> = run.current_y.checked_add(top_edge_y);
    let to_y: Option<i32> = run.desired_y.checked_add(top_edge_y);
    from_y.is_some() && to_y.is_some()
}

/// Turns a run of a window into a scroll of its frame.  `area` is the
/// window's box over all its areas, `top_edge_y` the frame coordinate of
/// the window's top.  The cursor is to be cleared before the scroll is
/// carried out; the end of the update shows it again.
pub fn wr_scroll_run(area: Rect, top_edge_y: i32, run: &ScrollRun) -> (scroll: Scroll)
    requires
        scroll_run_in_range(top_edge_y, *run),
    ensures
        scroll == (Scroll {
            x: area.x,
            y: area.y,
            width: area.width,
            height: area.height,
            from_y: (run.current_y + top_edge_y) as i32,
            to_y: (run.desired_y + top_edge_y) as i32,
            scroll_height: run.height,
        }),
{
    Scroll {
        x: area.x,
        y: area.y,
        width: area.width,
        height: area.height,
        from_y: run.current_y + top_edge_y,
        to_y: run.desired_y + top_edge_y,
        scroll_height: run.height,
    }
}

/// The colours and the extent of a window divider.
#[derive(Clone, Copy, Debug, PartialEq, Eq, Structural)]
pub struct DividerDraw {
    pub color: u64,
    pub color_first: u64,
    pub color_last: u64,
    pub x0: i32,
    pub x1: i32,
    pub y0: i32,
    pub y1: i32,
}

/// The foreground of a face, or the frame's where the frame has no such
/// face.
pub open spec fn face_foreground_or(face_foreground: Option<u64>, frame_foreground: u64) -> u64 {
    match face_foreground {
        Some(pixel) => pixel,
        None => frame_foreground,
    }
}

/// Picks the colours of a window divider: the foregrounds of the divider
/// face and of the faces of its first and last pixel, each given where the
/// frame has that face, with the frame's foreground in place of a missing
/// one.
pub fn wr_draw_window_divider(
    face: Option<u64>,
    face_first: Option<u64>,
    face_last: Option<u64>,
    frame_foreground: u64,
    x0: i32,
    x1: i32,
    y0: i32,
    y1: i32,
) -> (draw: DividerDraw)
    ensures
        draw == (DividerDraw {
            color: face_foreground_or(face, frame_foreground),
            color_first: face_foreground_or(face_first, frame_foreground),
            color_last: face_foreground_or(face_last, frame_foreground),
            x0: x0,
            x1: x1,
            y0: y0,
            y1: y1,
        }),
{
    let color = match face {
        Some(pixel) => pixel,
        None => frame_foreground,
    };
    let color_first = match face_first {
        Some(pixel) => pixel,
        None => frame_foreground,
    };
    let color_last = match face_last {
        Some(pixel) => pixel,
        None => frame_foreground,
    };
    DividerDraw { color, color_first, color_last, x0, x1, y0, y1 }
}

} // verus!
