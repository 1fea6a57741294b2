use eyeclipse::selector::{
    clamp_to_screen, dim_pixels, dirty_rect, label_origin, rgba_to_bgra, size_label, upload_bands, DrawOp,
    Region, SelectionState, SelectorEvent, SelectorOutcome, SelectorSession,
};

#[test]
fn normalized_orders_and_clips_corners() {
    let s = SelectionState { start_x: 50, start_y: 40, current_x: 10, current_y: 90, dragging: true };
    assert_eq!(s.normalized(100, 80), (10, 40, 40, 40));
    let t = SelectionState { start_x: -5, start_y: -5, current_x: 120, current_y: 5, dragging: true };
    assert_eq!(t.normalized(100, 80), (0, 0, 100, 5));
}

#[test]
fn clamp_keeps_pointer_on_screen() {
    assert_eq!(clamp_to_screen(-3, 100), 0);
    assert_eq!(clamp_to_screen(100, 100), 99);
    assert_eq!(clamp_to_screen(42, 100), 42);
}

#[test]
fn dirty_rect_pads_and_clips() {
    assert_eq!(dirty_rect(10, 30, 20, 20, 1000, 1000), Some((7, 10, 87, 60)));
    // a wide outline: its own border reaches further than the label
    assert_eq!(dirty_rect(10, 30, 200, 20, 1000, 1000), Some((7, 10, 206, 60)));
    // the label "10x50" over a 10-pixel box is repainted in full (104..184)
    assert_eq!(dirty_rect(100, 100, 10, 50, 1920, 1080), Some((97, 80, 87, 90)));
    assert_eq!(dirty_rect(0, 0, 10, 10, 8, 8), Some((0, 0, 8, 8)));
    assert_eq!(dirty_rect(10, 10, 0, 0, 5, 100), None);
}

#[test]
fn label_goes_above_or_below() {
    assert_eq!(label_origin(10, 100, 50), (14, 96));
    assert_eq!(label_origin(10, 5, 50), (14, 69));
    assert_eq!(size_label(120, 34), "120x34");
    assert_eq!(size_label(0, 7), "0x7");
}

#[test]
fn drag_selects_a_region() {
    let mut s = SelectorSession::new(1920, 1080);
    let (ops, out) = s.handle_event(SelectorEvent::Motion { x: 5, y: 6 });
    assert_eq!(ops, vec![DrawOp::Crosshair { x: 5, y: 6 }]);
    assert_eq!(out, SelectorOutcome::Pending);
    let (ops, _) = s.handle_event(SelectorEvent::ButtonPress { button: 1, x: 100, y: 200 });
    assert_eq!(ops, vec![DrawOp::Crosshair { x: 5, y: 6 }]);
    let (ops, _) = s.handle_event(SelectorEvent::Motion { x: 50, y: 250 });
    assert_eq!(
        ops,
        vec![
            DrawOp::RevealUndimmed { x: 50, y: 200, width: 50, height: 50 },
            DrawOp::Outline { x: 50, y: 200, width: 50, height: 50, label_x: 54, label_y: 196 },
        ]
    );
    let (ops, _) = s.handle_event(SelectorEvent::Motion { x: 60, y: 260 });
    assert_eq!(ops[0], DrawOp::RestoreDimmed { x: 47, y: 180, width: 87, height: 90 });
    assert_eq!(ops.len(), 3);
    let (ops, out) = s.handle_event(SelectorEvent::ButtonRelease { button: 1, x: 400, y: 300 });
    assert!(ops.is_empty());
    assert_eq!(out, SelectorOutcome::Selected(Region { x: 100, y: 200, width: 300, height: 100 }));
}

#[test]
fn tiny_selection_is_not_accepted() {
    let mut s = SelectorSession::new(800, 600);
    s.handle_event(SelectorEvent::ButtonPress { button: 1, x: 10, y: 10 });
    let (_, out) = s.handle_event(SelectorEvent::ButtonRelease { button: 1, x: 12, y: 40 });
    assert_eq!(out, SelectorOutcome::Pending);
    assert!(!s.state.dragging);
}

#[test]
fn escape_cancels_and_other_keys_do_not() {
    let mut s = SelectorSession::new(800, 600);
    assert_eq!(s.handle_event(SelectorEvent::KeyPress { keycode: 38 }).1, SelectorOutcome::Pending);
    assert_eq!(s.handle_event(SelectorEvent::KeyPress { keycode: 9 }).1, SelectorOutcome::Cancelled);
}

#[test]
fn right_button_does_nothing() {
    let mut s = SelectorSession::new(800, 600);
    let (ops, out) = s.handle_event(SelectorEvent::ButtonPress { button: 3, x: 10, y: 10 });
    assert!(ops.is_empty());
    assert_eq!(out, SelectorOutcome::Pending);
    assert!(!s.state.dragging);
}

#[test]
fn release_outside_screen_is_clipped() {
    let mut s = SelectorSession::new(800, 600);
    s.handle_event(SelectorEvent::ButtonPress { button: 1, x: 700, y: 500 });
    let (_, out) = s.handle_event(SelectorEvent::ButtonRelease { button: 1, x: 2000, y: 2000 });
    assert_eq!(out, SelectorOutcome::Selected(Region { x: 700, y: 500, width: 99, height: 99 }));
}

#[test]
fn expose_redraws_current_selection() {
    let mut s = SelectorSession::new(800, 600);
    s.handle_event(SelectorEvent::ButtonPress { button: 1, x: 10, y: 30 });
    s.handle_event(SelectorEvent::Motion { x: 20, y: 40 });
    let (ops, _) = s.handle_event(SelectorEvent::Expose);
    assert_eq!(
        ops,
        vec![
            DrawOp::RevealUndimmed { x: 10, y: 30, width: 10, height: 10 },
            DrawOp::Outline { x: 10, y: 30, width: 10, height: 10, label_x: 14, label_y: 26 },
        ]
    );
}

#[test]
fn dimming_and_channel_swap() {
    let px = vec![255, 128, 0, 200, 10, 20, 30, 40];
    assert_eq!(dim_pixels(&px), vec![120, 60, 0, 200, 4, 9, 14, 40]);
    assert_eq!(rgba_to_bgra(&px), vec![0, 128, 255, 200, 30, 20, 10, 40]);
    assert_eq!(rgba_to_bgra(&rgba_to_bgra(&px)), px);
}

#[test]
fn upload_is_split_into_bands() {
    let bands = upload_bands(10, 20000, 10 * 20000 * 4);
    assert_eq!(bands.len(), 3);
    assert_eq!((bands[0].y, bands[0].rows, bands[0].start, bands[0].end), (0, 8192, 0, 8192 * 40));
    assert_eq!(bands[2].y, 16384);
    assert_eq!(bands[2].rows, 20000 - 16384);
    assert_eq!(bands[2].end, 20000 * 40);
    let short = upload_bands(10, 20000, 10000 * 40);
    assert_eq!(short.len(), 1);
}
