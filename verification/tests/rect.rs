use ups_monitor::rect::Rect;

#[test]
fn an_inverted_rectangle_measures_zero() {
    let backwards = Rect::new(10, 10, 4, 4);
    assert_eq!(backwards.width(), 0);
    assert_eq!(backwards.height(), 0);
    assert!(backwards.is_empty());
}

#[test]
fn the_far_edges_are_outside() {
    let r = Rect::new(0, 0, 10, 4);
    assert!(r.contains(0, 0), "the near corner is inside");
    assert!(r.contains(9, 3), "the last pixel is inside");
    assert!(!r.contains(10, 3), "the right edge is not");
    assert!(!r.contains(9, 4), "the bottom edge is not");
}

#[test]
fn a_window_is_centred_on_the_area_it_is_given() {
    let work = Rect::new(60, 0, 1980, 1080);
    assert_eq!(work.centred_origin(400, 300), (820, 390));

    let secondary = Rect::new(-1280, 0, 0, 720);
    assert_eq!(secondary.centred_origin(400, 300), (-840, 210));
}

#[test]
fn a_window_too_large_for_the_area_overhangs_evenly() {
    let small = Rect::new(0, 0, 100, 100);
    assert_eq!(small.centred_origin(300, 200), (-100, -50));
}

#[test]
fn centring_in_a_backwards_rectangle_uses_its_corner() {
    let backwards = Rect::new(50, 50, 10, 10);
    assert_eq!(backwards.centred_origin(20, 40), (40, 30));
}

#[test]
fn the_type_is_eq_without_asking_anyone() {
    fn requires_eq<T: Eq>(_: &T) {}
    requires_eq(&Rect::default());
}
