use music_visualizer::buttons::{Button, BUTTON_HEIGHT, BUTTON_WIDTH};
use music_visualizer::colour_slider::{gradient_value, ColourSlider};
use music_visualizer::element::Element;
use music_visualizer::geometry::{bar_rect, ScreenPoint, ScreenRect};

#[test]
fn button_hit_testing_is_edge_exclusive() {
    let b = Button::new(10, 10, BUTTON_WIDTH, BUTTON_HEIGHT, "Load song");
    assert!(b.is_clicked(ScreenPoint { x: 10, y: 10 }));
    assert!(b.is_clicked(ScreenPoint { x: 209, y: 59 }));
    assert!(!b.is_clicked(ScreenPoint { x: 210, y: 30 }));
    assert!(!b.is_clicked(ScreenPoint { x: 100, y: 60 }));
    assert!(!b.is_clicked(ScreenPoint { x: 9, y: 30 }));
}

#[test]
fn button_label_is_centred() {
    let mut b = Button::new(100, 50, 200, 50, "Play");
    b.update_text_position(80, 20);
    assert_eq!(b.text_rect, ScreenRect { x: 160, y: 65, w: 80, h: 20 });
}

#[test]
fn oversized_label_overhangs_symmetrically() {
    let mut b = Button::new(100, 50, 60, 10, "A very long label");
    b.update_text_position(100, 30);
    // The overhang is half the excess, rounded toward zero.
    assert_eq!(b.text_rect, ScreenRect { x: 80, y: 40, w: 100, h: 30 });
}

#[test]
fn element_moves_by_the_given_shift() {
    let mut e = Element::new(10, 200, 800, 20, "No song selected");
    e.move_element(10, 200, 25);
    assert_eq!(e.get_element_current_position(), 35);
    e.move_element(e.rect.x, 200, -1300);
    assert_eq!(e.get_element_current_position(), -1265);
}

#[test]
fn slider_tracks_the_pointer_linearly_with_clamping() {
    let mut s = ColourSlider::new(900, 100, 300, 20, "R");
    // The track is inset by the padding: x from 910, width 280.
    assert_eq!(s.rect.x, 910);
    assert_eq!(s.rect.w, 280);

    // Not dragging: no change.
    s.update(1000);
    assert_eq!(s.value, 0);

    s.is_dragging = true;
    s.update(910);
    assert_eq!(s.value, 0);
    s.update(910 + 280);
    assert_eq!(s.value, 255);
    s.update(910 + 140);
    assert_eq!(s.value, 127);
    // Left of the track clamps to zero, far right to 255.
    s.update(0);
    assert_eq!(s.value, 0);
    s.update(5000);
    assert_eq!(s.value, 255);
}

#[test]
fn gradient_ramps_linearly_across_the_track() {
    assert_eq!(gradient_value(0, 280), 0);
    assert_eq!(gradient_value(140, 280), 127);
    assert_eq!(gradient_value(279, 280), 254);
    assert_eq!(gradient_value(0, 1), 0);
}

#[test]
fn bar_rectangles_tile_the_visualization_area() {
    let r0 = bar_rect(0, 0);
    assert_eq!((r0.x, r0.y, r0.w, r0.h), (140, 670, 60, 0));
    let r1 = bar_rect(1, 65536);
    assert_eq!((r1.x, r1.y, r1.w, r1.h), (202, 370, 60, 300));
    let half = bar_rect(15, 32768);
    assert_eq!((half.x, half.y, half.w, half.h), (140 + 15 * 62, 670 - 150, 60, 150));
}
