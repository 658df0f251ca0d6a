use gl_glfw::infolog;
use gl_glfw::input::{self, InputState, Key, KeyAction, PolygonMode};
use gl_glfw::layout;
use gl_glfw::texture;

#[test]
fn first_press_selects_line_mode() {
    let mut s = InputState::new();
    assert_eq!(s.on_enter_poll(true), Some(PolygonMode::Line));
    assert_eq!(s.mode_counter, 1);
    assert!(s.enter_was_pressed);
}

#[test]
fn holding_enter_toggles_only_once() {
    let mut s = InputState::new();
    assert_eq!(s.on_enter_poll(true), Some(PolygonMode::Line));
    assert_eq!(s.on_enter_poll(true), None);
    assert_eq!(s.on_enter_poll(true), None);
    assert_eq!(s.mode_counter, 1);
}

#[test]
fn release_rearms_the_toggle() {
    let mut s = InputState::new();
    assert_eq!(s.on_enter_poll(true), Some(PolygonMode::Line));
    assert_eq!(s.on_enter_poll(false), None);
    assert!(!s.enter_was_pressed);
    assert_eq!(s.on_enter_poll(true), Some(PolygonMode::Fill));
    assert_eq!(s.on_enter_poll(false), None);
    assert_eq!(s.on_enter_poll(true), Some(PolygonMode::Point));
    assert_eq!(s.on_enter_poll(false), None);
    assert_eq!(s.on_enter_poll(true), Some(PolygonMode::Line));
}

#[test]
fn idle_polls_change_nothing() {
    let mut s = InputState::new();
    assert_eq!(s.on_enter_poll(false), None);
    assert_eq!(s.on_enter_poll(false), None);
    assert_eq!(s.mode_counter, 0);
    assert!(!s.enter_was_pressed);
}

#[test]
fn polygon_mode_gl_values() {
    assert_eq!(input::polygon_mode_gl_value(PolygonMode::Line), 0x1B01);
    assert_eq!(input::polygon_mode_gl_value(PolygonMode::Fill), 0x1B02);
    assert_eq!(input::polygon_mode_gl_value(PolygonMode::Point), 0x1B00);
}

#[test]
fn escape_press_requests_close() {
    assert!(input::close_requested(Key::Escape, KeyAction::Press));
    assert!(!input::close_requested(Key::Escape, KeyAction::Release));
    assert!(!input::close_requested(Key::Escape, KeyAction::Repeat));
    assert!(!input::close_requested(Key::Enter, KeyAction::Press));
    assert!(!input::close_requested(Key::Other, KeyAction::Press));
}

#[test]
fn log_buffer_is_zero_filled() {
    let buf = infolog::log_buffer();
    assert_eq!(buf.len(), 512);
    assert!(buf.iter().all(|&b| b == 0));
}

#[test]
fn message_stops_at_first_nul() {
    let buf = vec![b'e', b'r', b'r', 0, b'x', 0, b'y'];
    assert_eq!(infolog::bytes_until_nul(&buf), Some(vec![b'e', b'r', b'r']));
}

#[test]
fn unterminated_message_is_rejected() {
    let buf = vec![b'e', b'r', b'r'];
    assert_eq!(infolog::bytes_until_nul(&buf), None);
    assert_eq!(infolog::bytes_until_nul(&Vec::new()), None);
}

#[test]
fn leading_nul_gives_empty_message() {
    let buf = vec![0, b'a', b'b'];
    assert_eq!(infolog::bytes_until_nul(&buf), Some(Vec::new()));
}

#[test]
fn zero_status_means_failure() {
    assert!(infolog::step_failed(0));
    assert!(!infolog::step_failed(1));
    assert!(!infolog::step_failed(-1));
}

#[test]
fn quad_layout_stride_and_offsets() {
    // position (3 floats), color (3 floats), texture coordinates (2 floats)
    let counts = vec![3u32, 3, 2];
    let (attrs, stride) = layout::interleaved_layout(&counts).unwrap();
    assert_eq!(stride, 32);
    assert_eq!(attrs.len(), 3);
    assert_eq!((attrs[0].location, attrs[0].components, attrs[0].offset_bytes), (0, 3, 0));
    assert_eq!((attrs[1].location, attrs[1].components, attrs[1].offset_bytes), (1, 3, 12));
    assert_eq!((attrs[2].location, attrs[2].components, attrs[2].offset_bytes), (2, 2, 24));
}

#[test]
fn empty_layout_has_zero_stride() {
    let counts: Vec<u32> = Vec::new();
    let (attrs, stride) = layout::interleaved_layout(&counts).unwrap();
    assert_eq!(stride, 0);
    assert!(attrs.is_empty());
}

#[test]
fn oversized_component_count_is_rejected() {
    assert!(layout::interleaved_layout(&vec![3u32, 5, 2]).is_none());
    assert!(layout::interleaved_layout(&vec![3u32, 0, 2]).is_none());
}

#[test]
fn quad_indices_are_in_bounds() {
    let indices = vec![0u32, 1, 3, 1, 2, 3];
    assert!(layout::indices_in_bounds(&indices, 4));
    assert!(!layout::indices_in_bounds(&indices, 3));
    assert!(layout::indices_in_bounds(&Vec::new(), 0));
}

#[test]
fn vertex_count_divides_evenly_or_fails() {
    assert_eq!(layout::vertex_count(32, 8), Some(4));
    assert_eq!(layout::vertex_count(0, 8), Some(0));
    assert_eq!(layout::vertex_count(33, 8), None);
    assert_eq!(layout::vertex_count(32, 0), None);
}

#[test]
fn buffer_bytes_checks_overflow() {
    assert_eq!(layout::buffer_bytes(32, 4), Some(128));
    assert_eq!(layout::buffer_bytes(6, 4), Some(24));
    assert_eq!(layout::buffer_bytes(usize::MAX, 2), None);
}

#[test]
fn rgb_data_len_matches_dimensions() {
    assert_eq!(texture::rgb_data_len(512, 512), Some(786432));
    assert_eq!(texture::rgb_data_len(0, 10), Some(0));
    assert_eq!(texture::rgb_data_len(usize::MAX, usize::MAX), None);
}

#[test]
fn rgb_image_fits_exact_size_only() {
    assert!(texture::rgb_image_fits(2, 2, 12));
    assert!(!texture::rgb_image_fits(2, 2, 11));
    assert!(!texture::rgb_image_fits(2, 2, 13));
    assert!(!texture::rgb_image_fits(usize::MAX, 1, 3));
}
