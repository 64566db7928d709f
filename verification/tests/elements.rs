use panel_core::color::Rgba;
use panel_core::element::{surface_element, PanelRenderElement};
use panel_core::geometry::{Extent, Loc, Rect};
use panel_core::mapped::{
    overflow_popup_element, Message, OverflowButton, OverflowButtonElement, Padding,
};

fn loc(x: i32, y: i32) -> Loc {
    Loc::new(x, y)
}

fn ext(w: i32, h: i32) -> Extent {
    Extent::new(w, h)
}

#[test]
fn crop_shrinks_oversized_buffer_horizontally() {
    // Native buffer 800x600, negotiated 400x600: the destination width
    // drops to 400 and the source width to 400/800 of the buffer extent;
    // heights stay.
    let e = surface_element(1, 5, loc(0, 0), ext(800, 600), Some(ext(400, 600)), 1);
    assert_eq!(e.src().size, ext(400, 600));
    assert_eq!(e.geometry().size, ext(400, 600));
    assert_eq!(e.geometry().loc, loc(0, 0));
    assert_eq!(e.id(), 1);
    assert_eq!(e.current_commit(), 5);
}

#[test]
fn crop_leaves_matching_sizes_alone() {
    let e = surface_element(2, 0, loc(10, 2), ext(280, 36), Some(ext(280, 36)), 1);
    assert_eq!(e.src().size, ext(280, 36));
    assert_eq!(e.geometry().size, ext(280, 36));
    assert_eq!(e.geometry().loc, loc(10, 2));
}

#[test]
fn crop_scales_negotiated_size_by_output_scale() {
    // At scale 2 a negotiated 300x200 covers 600x400 buffer pixels; both
    // axes are smaller than the 800x600 buffer and shrink.
    let e = surface_element(3, 1, loc(4, 6), ext(800, 600), Some(ext(300, 200)), 2);
    assert_eq!(e.src().size, ext(600, 400));
    assert_eq!(e.geometry().size, ext(600, 400));
}

#[test]
fn crop_ignores_zero_negotiated_axis() {
    let e = surface_element(4, 0, loc(0, 0), ext(100, 100), Some(ext(0, 50)), 1);
    assert_eq!(e.src().size, ext(100, 50));
}

#[test]
fn no_negotiated_size_keeps_native_buffer() {
    let e = surface_element(5, 0, loc(0, 0), ext(640, 480), None, 1);
    assert_eq!(e.src().size, ext(640, 480));
    assert_eq!(e.geometry().size, ext(640, 480));
}

#[test]
fn surface_element_is_a_wayland_variant() {
    let e = surface_element(6, 0, loc(0, 0), ext(8, 8), None, 1);
    assert!(matches!(e, PanelRenderElement::Wayland { .. }));
}

#[test]
fn premultiplied_color_exact_channels() {
    let c = Rgba { r: 128, g: 64, b: 255, a: 128 };
    let p = c.premultiplied();
    assert_eq!(p.r, 64);  // 128 * 128 / 255
    assert_eq!(p.g, 32);  // 64 * 128 / 255
    assert_eq!(p.b, 128);  // 255 * 128 / 255
    assert_eq!(p.a, 128);
}

#[test]
fn premultiplied_opaque_color_is_unchanged() {
    let c = Rgba { r: 10, g: 20, b: 30, a: 255 };
    let p = c.premultiplied();
    assert_eq!((p.r, p.g, p.b, p.a), (10, 20, 30, 255));
}

#[test]
fn premultiplied_transparent_color_is_black() {
    let p = Rgba { r: 200, g: 100, b: 50, a: 0 }.premultiplied();
    assert_eq!((p.r, p.g, p.b, p.a), (0, 0, 0, 0));
}

#[test]
fn button_element_size_grows_by_padding() {
    let padding = Padding { top: 2, right: 3, bottom: 4, left: 5 };
    let b = OverflowButtonElement::new(9, loc(100, 0), 16, padding, false);
    assert_eq!(b.size, ext(16 + 5 + 3, 16 + 2 + 4));
}

#[test]
fn button_bbox_is_icon_square_at_position() {
    let padding = Padding { top: 0, right: 0, bottom: 0, left: 0 };
    let b = OverflowButtonElement::new(9, loc(100, 8), 24, padding, false);
    let bbox = b.bbox();
    assert_eq!(bbox, Rect::new(loc(100, 8), ext(24, 24)));
    assert!(b.alive());
}

#[test]
fn button_input_region_follows_bbox() {
    let padding = Padding { top: 0, right: 0, bottom: 0, left: 0 };
    let b = OverflowButtonElement::new(9, loc(10, 10), 8, padding, false);
    assert!(b.is_in_input_region(loc(10, 10)));
    assert!(b.is_in_input_region(loc(17, 17)));
    assert!(!b.is_in_input_region(loc(18, 10)));
    assert!(!b.is_in_input_region(loc(9, 10)));
}

#[test]
fn button_update_routes_toggle_to_its_own_id() {
    let padding = Padding { top: 1, right: 1, bottom: 1, left: 1 };
    let b = OverflowButton::new(42, loc(0, 0), 16, padding, false);
    assert_eq!(b.update(Message::TogglePopup), 42);
}

#[test]
fn buttons_compare_by_identity_alone() {
    let a = OverflowButton::new(7, loc(0, 0), 16, Padding { top: 0, right: 0, bottom: 0, left: 0 }, false);
    let b = OverflowButton::new(7, loc(99, 99), 32, Padding { top: 9, right: 9, bottom: 9, left: 9 }, true);
    let c = OverflowButton::new(8, loc(0, 0), 16, Padding { top: 0, right: 0, bottom: 0, left: 0 }, false);
    assert!(a == b);
    assert!(a != c);
}

#[test]
fn overflow_popup_element_keeps_logical_size() {
    let p = overflow_popup_element(3, 200, 150);
    assert_eq!(p.size, ext(200, 150));
    assert_eq!(p.popup.id, 3);
    assert_eq!(p.popup.logical_width, 200);
    assert_eq!(p.popup.logical_height, 150);
}
