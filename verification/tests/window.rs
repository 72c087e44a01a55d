use gl_renderer::geometry::Rect;
use gl_renderer::window::{
    scroll_run_fits, wr_after_update_window_line, wr_draw_window_divider, wr_scroll_run,
    wr_update_window_end, DividerDraw, OutputCursor, RowFlags, Scroll, ScrollRun, WindowEndEvent,
    WindowEndStep, WindowOutput,
};

fn window(pseudo: bool, divider: i32) -> WindowOutput {
    WindowOutput {
        pseudo_window_p: pseudo,
        output_cursor: OutputCursor { hpos: 1, vpos: 2, x: 30, y: 40 },
        right_divider_width: divider,
    }
}

#[test]
fn pseudo_window_takes_no_step() {
    let w = window(true, 4);
    assert_eq!(wr_update_window_end(&w, true, false, WindowEndEvent::Begin), vec![]);
    assert_eq!(
        wr_update_window_end(&w, true, true, WindowEndEvent::FringesDrawn { redrawn: true }),
        vec![]
    );
}

#[test]
fn update_end_begins_by_blocking_input() {
    let w = window(false, 0);
    assert_eq!(
        wr_update_window_end(&w, false, false, WindowEndEvent::Begin),
        vec![WindowEndStep::BlockInput, WindowEndStep::DrawFringes]
    );
}

#[test]
fn update_end_shows_a_cursor_that_was_off() {
    let w = window(false, 0);
    assert_eq!(
        wr_update_window_end(&w, true, false, WindowEndEvent::Begin),
        vec![
            WindowEndStep::BlockInput,
            WindowEndStep::DisplayCursor { hpos: 1, vpos: 2, x: 30, y: 40 },
            WindowEndStep::DrawFringes,
        ]
    );
}

#[test]
fn redrawn_fringes_redraw_the_divider() {
    let w = window(false, 4);
    assert_eq!(
        wr_update_window_end(&w, false, false, WindowEndEvent::FringesDrawn { redrawn: true }),
        vec![WindowEndStep::DrawRightDivider, WindowEndStep::UnblockInput, WindowEndStep::Flush]
    );
}

#[test]
fn redrawn_fringes_redraw_the_border_without_divider() {
    for width in [0, -1] {
        let w = window(false, width);
        assert_eq!(
            wr_update_window_end(&w, false, false, WindowEndEvent::FringesDrawn { redrawn: true }),
            vec![
                WindowEndStep::DrawVerticalBorder,
                WindowEndStep::UnblockInput,
                WindowEndStep::Flush,
            ]
        );
    }
}

#[test]
fn untouched_fringes_only_unblock_and_flush() {
    let w = window(false, 4);
    assert_eq!(
        wr_update_window_end(&w, true, false, WindowEndEvent::FringesDrawn { redrawn: false }),
        vec![WindowEndStep::UnblockInput, WindowEndStep::Flush]
    );
}

#[test]
fn text_rows_get_their_fringes_redrawn() {
    let mut row = RowFlags { mode_line_p: false, redraw_fringe_bitmaps_p: false };
    wr_after_update_window_line(false, &mut row);
    assert_eq!(row, RowFlags { mode_line_p: false, redraw_fringe_bitmaps_p: true });
}

#[test]
fn mode_lines_and_pseudo_windows_keep_their_flag() {
    for flag in [false, true] {
        let mut row = RowFlags { mode_line_p: true, redraw_fringe_bitmaps_p: flag };
        wr_after_update_window_line(false, &mut row);
        assert_eq!(row, RowFlags { mode_line_p: true, redraw_fringe_bitmaps_p: flag });
        let mut row = RowFlags { mode_line_p: false, redraw_fringe_bitmaps_p: flag };
        wr_after_update_window_line(true, &mut row);
        assert_eq!(row, RowFlags { mode_line_p: false, redraw_fringe_bitmaps_p: flag });
        let mut row = RowFlags { mode_line_p: true, redraw_fringe_bitmaps_p: flag };
        wr_after_update_window_line(true, &mut row);
        assert_eq!(row, RowFlags { mode_line_p: true, redraw_fringe_bitmaps_p: flag });
    }
}

#[test]
fn scroll_run_moves_to_frame_coordinates() {
    let run = ScrollRun { current_y: 10, desired_y: 42, height: 17 };
    let scroll = wr_scroll_run(Rect { x: 5, y: 100, width: 640, height: 480 }, 100, &run);
    assert_eq!(
        scroll,
        Scroll { x: 5, y: 100, width: 640, height: 480, from_y: 110, to_y: 142, scroll_height: 17 }
    );
}

#[test]
fn scroll_run_at_the_edge_of_the_range() {
    let run = ScrollRun { current_y: i32::MAX - 1, desired_y: -3, height: 0 };
    let scroll = wr_scroll_run(Rect { x: 0, y: 0, width: 0, height: 0 }, 1, &run);
    assert_eq!(scroll.from_y, i32::MAX);
    assert_eq!(scroll.to_y, -2);
}

#[test]
fn scroll_run_must_fit_in_frame_coordinates() {
    let run = ScrollRun { current_y: i32::MAX - 1, desired_y: -3, height: 0 };
    assert!(scroll_run_fits(1, &run));
    assert!(!scroll_run_fits(2, &run));
    let run = ScrollRun { current_y: 0, desired_y: i32::MIN, height: 0 };
    assert!(scroll_run_fits(0, &run));
    assert!(!scroll_run_fits(-1, &run));
}

#[test]
fn input_is_blocked_while_the_end_of_an_update_draws() {
    for cursor_no_p in [false, true] {
        for redrawn in [false, true] {
            for divider in [0, 3] {
                let w = window(false, divider);
                let mut steps = wr_update_window_end(&w, cursor_no_p, false, WindowEndEvent::Begin);
                steps.extend(wr_update_window_end(
                    &w,
                    cursor_no_p,
                    false,
                    WindowEndEvent::FringesDrawn { redrawn },
                ));
                let n = steps.len();
                assert_eq!(steps[0], WindowEndStep::BlockInput);
                assert_eq!(steps[n - 2], WindowEndStep::UnblockInput);
                assert_eq!(steps[n - 1], WindowEndStep::Flush);
                for step in &steps[1..n - 2] {
                    assert!(!matches!(
                        step,
                        WindowEndStep::BlockInput | WindowEndStep::UnblockInput | WindowEndStep::Flush
                    ));
                }
            }
        }
    }
}

#[test]
fn divider_takes_the_faces_colours() {
    let draw = wr_draw_window_divider(Some(0x111111), Some(0x222222), Some(0x333333), 0xffffff, 1, 2, 3, 4);
    assert_eq!(
        draw,
        DividerDraw {
            color: 0x111111,
            color_first: 0x222222,
            color_last: 0x333333,
            x0: 1,
            x1: 2,
            y0: 3,
            y1: 4
        }
    );
}

#[test]
fn divider_falls_back_to_the_frame_foreground() {
    let draw = wr_draw_window_divider(None, Some(0x222222), None, 0xabcdef, 10, 20, 30, 40);
    assert_eq!(
        draw,
        DividerDraw {
            color: 0xabcdef,
            color_first: 0x222222,
            color_last: 0xabcdef,
            x0: 10,
            x1: 20,
            y0: 30,
            y1: 40
        }
    );
    let draw = wr_draw_window_divider(None, None, None, 7, 0, 0, 0, 0);
    assert_eq!(draw.color, 7);
    assert_eq!(draw.color_first, 7);
    assert_eq!(draw.color_last, 7);
}
