use ups_monitor::rect::Rect;
use ups_monitor::scrollbar::{
    last_scroll_offset, scrollbar_width, scrollbar_width_for, stepper_points, ListLayout,
    ListWindow, OptionRole, ScrollbarGeometry, DROPDOWN_MAX_VISIBLE,
};

#[test]
fn the_window_over_a_list_is_pinned_by_value() {
    let short: Vec<usize> = (0..5).collect();
    let w = ListWindow::of(&short, 0);
    assert_eq!(w.first, 0);
    assert_eq!(w.shown, &short[..]);
    assert_eq!(ListWindow::of(&short, 4).first, 0);
    assert_eq!(last_scroll_offset(short.len()), 0);

    let long: Vec<usize> = (0..DROPDOWN_MAX_VISIBLE + 3).collect();
    let w = ListWindow::of(&long, 0);
    assert_eq!(w.first, 0);
    assert_eq!(w.shown.len(), DROPDOWN_MAX_VISIBLE);
    assert_eq!(w.shown.first(), Some(&0));

    let w = ListWindow::of(&long, 2);
    assert_eq!(w.first, 2);
    assert_eq!(w.shown.first(), Some(&2));
    assert_eq!(w.shown.len(), DROPDOWN_MAX_VISIBLE);

    assert_eq!(last_scroll_offset(long.len()), 3);
    let w = ListWindow::of(&long, 99);
    assert_eq!(w.first, 3);
    assert_eq!(w.shown.len(), DROPDOWN_MAX_VISIBLE);
    assert_eq!(w.shown.last(), long.last());

    let none: Vec<usize> = Vec::new();
    let w = ListWindow::of(&none, 7);
    assert_eq!(w.first, 0);
    assert!(w.shown.is_empty());
}


fn frame() -> Rect {
    Rect {
        left: 100,
        top: 50,
        right: 400,
        bottom: 50 + 12 * 26 + 2,
    }
}

#[test]
fn an_open_list_hangs_below_its_control_and_tiles_its_rows() {
    let anchor = Rect::new(40, 100, 240, 124);
    let l = ListLayout::of(anchor, 600, 20, 22, 3, 3);

    assert_eq!(l.frame, Rect::new(40, 124, 240, 124 + 3 * 20 + 2));
    assert_eq!(l.bar, 0);
    assert_eq!(l.option(0), Rect::new(41, 125, 239, 145));
    assert_eq!(l.option(1), Rect::new(41, 145, 239, 165));
    assert_eq!(l.option(2).top, l.option(1).bottom);
    assert_eq!(l.bounds(), Rect::new(39, 123, 241, l.frame.bottom + 1));
}

#[test]
fn a_list_with_no_room_below_opens_upwards() {
    let anchor = Rect::new(40, 500, 240, 524);
    let l = ListLayout::of(anchor, 600, 20, 22, 12, 12);
    assert_eq!(l.frame.bottom, anchor.top);
    assert_eq!(l.frame.top, anchor.top - (12 * 20 + 2));
}

#[test]
fn a_list_taller_than_the_window_starts_at_the_top_of_it() {
    let anchor = Rect::new(40, 200, 240, 224);
    let l = ListLayout::of(anchor, 300, 20, 22, 12, 12);
    assert_eq!(l.frame.top, 0);
}

#[test]
fn a_scrolling_list_gives_up_row_width_to_its_bar() {
    let anchor = Rect::new(40, 100, 240, 124);
    let fits = ListLayout::of(
        anchor,
        600,
        20,
        22,
        DROPDOWN_MAX_VISIBLE,
        DROPDOWN_MAX_VISIBLE,
    );
    let scrolls = ListLayout::of(
        anchor,
        600,
        20,
        22,
        DROPDOWN_MAX_VISIBLE + 1,
        DROPDOWN_MAX_VISIBLE,
    );

    assert_eq!(fits.bar, 0);
    assert_eq!(scrolls.bar, scrollbar_width(22));
    assert_eq!(fits.frame, scrolls.frame, "the bar does not move the frame");
    assert_eq!(
        fits.option(0).right - scrolls.option(0).right,
        scrollbar_width(22),
        "the row gives up exactly the bar's width and no more"
    );
}

#[test]
fn the_highlight_outranks_the_selection_it_sits_on() {
    assert_eq!(OptionRole::of(3, 3, 3), OptionRole::Highlighted);
    assert_eq!(OptionRole::of(3, 3, 5), OptionRole::Selected);
    assert_eq!(OptionRole::of(3, 1, 3), OptionRole::Highlighted);
    assert_eq!(OptionRole::of(3, 1, 5), OptionRole::Plain);
}

#[test]
fn a_stepper_points_the_way_it_steps() {
    let button = Rect::new(200, 60, 216, 76);
    let (cx, cy) = (208, 68);

    let [apex, left, right] = stepper_points(&button, true);
    assert_eq!(apex, (cx, cy - 3), "the apex is above the centre");
    assert_eq!(left, (cx - 4, cy + 4));
    assert_eq!(right, (cx + 4, cy + 4));

    let [apex, left, right] = stepper_points(&button, false);
    assert_eq!(apex, (cx, cy + 3), "and below it for a down stepper");
    assert_eq!(left, (cx - 4, cy - 4));
    assert_eq!(right, (cx + 4, cy - 4));

    for side in [8, 12, 16, 20, 24, 40] {
        let r = Rect::new(0, 0, side, side);
        let [apex, left, right] = stepper_points(&r, true);
        let base = right.0 - left.0;
        let height = left.1 - apex.1;
        assert!(
            base * 2 <= height * 3 && height * 2 <= base * 3,
            "{side}px: base {base} against height {height} is not an arrowhead"
        );
    }
}

#[test]
fn a_stepper_fits_whatever_shape_its_button_is() {
    for r in [
        Rect::new(0, 0, 6, 6),
        Rect::new(0, 0, 16, 16),
        Rect::new(0, 0, 40, 10),
        Rect::new(0, 0, 10, 40),
    ] {
        for up in [true, false] {
            for (x, y) in stepper_points(&r, up) {
                assert!(
                    (r.left..=r.right).contains(&x) && (r.top..=r.bottom).contains(&y),
                    "{r:?} up={up}: ({x}, {y}) is outside the button"
                );
            }
        }
    }
}

#[test]
fn the_geometry_is_pinned_by_value() {
    let sb = ScrollbarGeometry::layout(frame(), 16, 24, 12, 5)
        .expect("24 options in a list of 12 scrolls, so there is a bar");

    let expect = |name: &str, got: Rect, want: (i32, i32, i32, i32)| {
        assert_eq!(
            (got.left, got.top, got.right, got.bottom),
            want,
            "{name} is not where the layout rule puts it"
        );
    };
    expect("bar", sb.bar, (383, 51, 399, 363));
    expect("up", sb.up, (383, 51, 399, 67));
    expect("down", sb.down, (383, 347, 399, 363));
    expect("track", sb.track, (383, 67, 399, 347));
    expect("thumb", sb.thumb, (383, 125, 399, 265));
}

#[test]
fn a_list_that_fits_has_no_scrollbar() {
    for total in 1..=DROPDOWN_MAX_VISIBLE {
        let visible = total.min(DROPDOWN_MAX_VISIBLE);
        assert!(
            ScrollbarGeometry::layout(frame(), 16, total, visible, 0).is_none(),
            "{total} options fit in {visible} slots and must not draw a scrollbar"
        );
        assert_eq!(
            scrollbar_width_for(total, 22),
            0,
            "{total} options must not be charged for a scrollbar"
        );
    }

    let over = DROPDOWN_MAX_VISIBLE + 1;
    assert!(
        ScrollbarGeometry::layout(frame(), 16, over, DROPDOWN_MAX_VISIBLE, 0).is_some(),
        "one option too many must produce a scrollbar"
    );
    assert!(
        scrollbar_width_for(over, 22) > 0,
        "and the window must be measured wide enough for it"
    );
}

#[test]
fn the_painter_and_the_measurer_agree_on_when_a_bar_exists() {
    for total in 1..40 {
        let visible = total.min(DROPDOWN_MAX_VISIBLE);
        let painted = ScrollbarGeometry::layout(frame(), 16, total, visible, 0).is_some();
        let measured = scrollbar_width_for(total, 22) > 0;
        assert_eq!(
            painted, measured,
            "{total} options: painter says {painted}, measurer says {measured}"
        );
    }
}

#[test]
fn the_scrollbar_parts_tile_the_bar_without_overlapping() {
    let f = frame();
    let sb = ScrollbarGeometry::layout(f, 16, 24, 12, 5).expect("24 options must scroll");

    assert!(sb.bar.left >= f.left && sb.bar.right <= f.right);
    assert!(sb.bar.top >= f.top && sb.bar.bottom <= f.bottom);
    assert_eq!(sb.up.top, sb.bar.top, "the up button caps the bar");
    assert_eq!(sb.down.bottom, sb.bar.bottom, "the down button ends it");
    assert_eq!(sb.track.top, sb.up.bottom, "no gap below the up button");
    assert_eq!(sb.track.bottom, sb.down.top, "no gap above the down button");
    assert!(
        sb.up.bottom <= sb.track.top,
        "buttons must not eat the track"
    );
    assert!(
        sb.thumb.top >= sb.track.top && sb.thumb.bottom <= sb.track.bottom,
        "the thumb must stay inside its track"
    );
}

#[test]
fn the_thumb_reaches_both_ends_and_nowhere_past_them() {
    let f = frame();
    let (total, visible) = (24, 12);
    let last = total - visible;

    let top = ScrollbarGeometry::layout(f, 16, total, visible, 0).unwrap();
    assert_eq!(
        top.thumb.top, top.track.top,
        "at scroll 0 the thumb sits at the top of the track"
    );

    let bottom = ScrollbarGeometry::layout(f, 16, total, visible, last).unwrap();
    assert_eq!(
        bottom.thumb.bottom, bottom.track.bottom,
        "at the last screenful the thumb sits at the bottom"
    );

    let mut previous = top.thumb.top;
    for scroll in 1..=last {
        let sb = ScrollbarGeometry::layout(f, 16, total, visible, scroll).unwrap();
        assert!(
            sb.thumb.top >= previous,
            "the thumb went backwards at scroll {scroll}"
        );
        previous = sb.thumb.top;
    }
}

#[test]
fn a_drag_round_trips_through_the_thumb_position() {
    let f = frame();
    let (total, visible) = (24, 12);
    for scroll in 0..=(total - visible) {
        let sb = ScrollbarGeometry::layout(f, 16, total, visible, scroll).unwrap();
        assert_eq!(
            sb.scroll_at(sb.thumb.top, total - visible),
            scroll,
            "dragging the thumb to where it was drawn moved the list"
        );
    }
}

#[test]
fn a_drag_past_the_ends_clamps() {
    let f = frame();
    let (total, visible) = (24, 12);
    let sb = ScrollbarGeometry::layout(f, 16, total, visible, 0).unwrap();
    assert_eq!(sb.scroll_at(sb.track.top - 500, total - visible), 0);
    assert_eq!(
        sb.scroll_at(sb.track.bottom + 500, total - visible),
        total - visible
    );
}

#[test]
fn the_thumb_stays_grabbable_on_a_long_list() {
    let f = frame();
    for total in [24, 60, 500, 5_000] {
        let sb = ScrollbarGeometry::layout(f, 16, total, 12, 0).unwrap();
        let h = sb.thumb.bottom - sb.thumb.top;
        assert!(
            h >= 12,
            "a thumb {h}px tall over {total} options cannot be grabbed"
        );
        assert!(
            sb.thumb.bottom <= sb.track.bottom,
            "the minimum size must not push the thumb out of the track"
        );
    }
}

#[test]
fn a_drag_is_unaffected_by_repaints_midway_through() {
    let f = frame();
    let (total, visible) = (24, 12);

    let start = ScrollbarGeometry::layout(f, 16, total, visible, 0).unwrap();
    let grab = (start.thumb.bottom - start.thumb.top) / 3;
    let press_y = start.thumb.top + grab;

    let mut scroll = 0usize;
    let mut with_repaints = Vec::new();
    let mut without = Vec::new();
    for step in 1..=20 {
        let y = press_y + step * 3;
        let painted = ScrollbarGeometry::layout(f, 16, total, visible, scroll).unwrap();
        scroll = painted.scroll_at(y - grab, total - visible);
        with_repaints.push(scroll);
        without.push(start.scroll_at(y - grab, total - visible));
    }

    assert_eq!(
        with_repaints, without,
        "the thumb moving under the drag changed where the drag pointed"
    );
    assert!(
        with_repaints.last() > with_repaints.first(),
        "the drag did not move the list at all: {with_repaints:?}"
    );
}
