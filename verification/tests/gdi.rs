use ups_monitor::gdi::{drawable_extent, holds_colours, holds_mask};

#[test]
fn a_bitmap_with_no_area_is_refused() {
    assert_eq!(drawable_extent(0, 10), None);
    assert_eq!(drawable_extent(10, 0), None);
    assert_eq!(drawable_extent(-1, -1), None);
    assert_eq!(drawable_extent(1, 1), Some((1, 1)));
}

#[test]
fn a_mask_of_the_wrong_length_is_refused() {
    assert!(!holds_mask(16, &[0u8; 31]));
    assert!(!holds_mask(16, &[0u8; 33]));
    assert!(!holds_mask(16, &[]));
    assert!(holds_mask(16, &[0u8; 32]));
}

#[test]
fn a_mask_row_is_padded_to_a_word() {
    assert!(holds_mask(17, &[0u8; 17 * 4]));
    assert!(!holds_mask(17, &[0u8; 17 * 3]));
    assert!(holds_mask(0, &[]));
}

#[test]
fn a_colour_bitmap_is_four_bytes_a_pixel() {
    assert!(holds_colours(3, &[0u8; 36]));
    assert!(!holds_colours(3, &[0u8; 35]));
    assert!(!holds_colours(u32::MAX, &[0u8; 4]));
}
