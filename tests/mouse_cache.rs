use show_image_core::input::{DeviceEvent, DeviceId, ElementState, Event, MouseButton, WindowEvent, WindowId};
use show_image_core::mouse_cache::MouseCache;

type Position = (f64, f64);

fn cache() -> MouseCache<Position> {
    MouseCache::new((0.0, 0.0))
}

fn moved(window: u64, device: u64, x: f64, y: f64) -> Event<Position> {
    Event::WindowEvent {
        window_id: WindowId(window),
        event: WindowEvent::CursorMoved { device_id: DeviceId(device), position: (x, y) },
    }
}

fn button(window: u64, device: u64, button: MouseButton, state: ElementState) -> Event<Position> {
    Event::WindowEvent {
        window_id: WindowId(window),
        event: WindowEvent::MouseInput { device_id: DeviceId(device), button, state },
    }
}

fn removed(device: u64) -> Event<Position> {
    Event::DeviceEvent { device_id: DeviceId(device), event: DeviceEvent::Removed }
}

#[test]
fn empty_cache_knows_nothing() {
    let c = cache();
    assert_eq!(c.get_position(WindowId(1), DeviceId(1)), None);
    assert_eq!(c.get_previous_position(WindowId(1), DeviceId(1)), None);
    assert!(c.get_buttons(DeviceId(1)).is_none());
}

#[test]
fn first_move_sets_previous_to_origin() {
    let mut c = cache();
    c.handle_event(&moved(1, 2, 10.5, 20.0));
    assert_eq!(c.get_position(WindowId(1), DeviceId(2)), Some((10.5, 20.0)));
    assert_eq!(c.get_previous_position(WindowId(1), DeviceId(2)), Some((0.0, 0.0)));
}

#[test]
fn previous_lags_by_one_move() {
    let mut c = cache();
    c.handle_event(&moved(1, 2, 1.0, 1.0));
    c.handle_event(&moved(1, 2, 2.0, 2.0));
    c.handle_event(&moved(1, 2, 3.0, 3.0));
    assert_eq!(c.get_position(WindowId(1), DeviceId(2)), Some((3.0, 3.0)));
    assert_eq!(c.get_previous_position(WindowId(1), DeviceId(2)), Some((2.0, 2.0)));
}

#[test]
fn positions_are_kept_per_window_and_device() {
    let mut c = cache();
    c.handle_event(&moved(1, 2, 1.0, 1.0));
    c.handle_event(&moved(3, 2, 5.0, 5.0));
    c.handle_event(&moved(1, 4, 7.0, 7.0));
    assert_eq!(c.get_position(WindowId(1), DeviceId(2)), Some((1.0, 1.0)));
    assert_eq!(c.get_position(WindowId(3), DeviceId(2)), Some((5.0, 5.0)));
    assert_eq!(c.get_position(WindowId(1), DeviceId(4)), Some((7.0, 7.0)));
    assert_eq!(c.get_position(WindowId(3), DeviceId(4)), None);
}

#[test]
fn press_then_release_leaves_button_released() {
    let mut c = cache();
    c.handle_event(&button(1, 2, MouseButton::Right, ElementState::Pressed));
    c.handle_event(&button(1, 2, MouseButton::Left, ElementState::Pressed));
    c.handle_event(&button(1, 2, MouseButton::Left, ElementState::Released));
    let b = c.get_buttons(DeviceId(2)).unwrap();
    assert!(!b.is_pressed(MouseButton::Left));
    assert!(b.is_pressed(MouseButton::Right));
    assert!(!b.is_pressed(MouseButton::Middle));
}

#[test]
fn two_pressed_buttons_are_both_down() {
    let mut c = cache();
    c.handle_event(&button(1, 2, MouseButton::Left, ElementState::Pressed));
    c.handle_event(&button(5, 2, MouseButton::Other(8), ElementState::Pressed));
    let b = c.get_buttons(DeviceId(2)).unwrap();
    assert!(b.is_pressed(MouseButton::Left));
    assert!(b.is_pressed(MouseButton::Other(8)));
    assert!(!b.is_pressed(MouseButton::Other(9)));
    assert!(c.get_buttons(DeviceId(3)).is_none());
}

#[test]
fn release_of_unknown_device_creates_released_state() {
    let mut c = cache();
    c.handle_event(&button(1, 9, MouseButton::Middle, ElementState::Released));
    let b = c.get_buttons(DeviceId(9)).unwrap();
    assert!(!b.is_pressed(MouseButton::Middle));
}

#[test]
fn removal_forgets_device_in_every_window() {
    let mut c = cache();
    c.handle_event(&button(1, 2, MouseButton::Left, ElementState::Pressed));
    c.handle_event(&moved(1, 2, 1.0, 1.0));
    c.handle_event(&moved(3, 2, 2.0, 2.0));
    c.handle_event(&moved(1, 4, 3.0, 3.0));
    c.handle_event(&button(1, 4, MouseButton::Left, ElementState::Pressed));
    c.handle_event(&removed(2));
    assert!(c.get_buttons(DeviceId(2)).is_none());
    assert_eq!(c.get_position(WindowId(1), DeviceId(2)), None);
    assert_eq!(c.get_previous_position(WindowId(1), DeviceId(2)), None);
    assert_eq!(c.get_position(WindowId(3), DeviceId(2)), None);
    assert_eq!(c.get_previous_position(WindowId(3), DeviceId(2)), None);
    assert_eq!(c.get_position(WindowId(1), DeviceId(4)), Some((3.0, 3.0)));
    assert!(c.get_buttons(DeviceId(4)).unwrap().is_pressed(MouseButton::Left));
}

#[test]
fn removal_of_absent_device_is_ignored() {
    let mut c = cache();
    c.handle_event(&moved(1, 4, 3.0, 3.0));
    c.handle_event(&removed(7));
    assert_eq!(c.get_position(WindowId(1), DeviceId(4)), Some((3.0, 3.0)));
}

#[test]
fn other_events_are_ignored() {
    let mut c = cache();
    c.handle_event(&moved(1, 2, 3.0, 4.0));
    c.handle_event(&Event::Other);
    c.handle_event(&Event::WindowEvent { window_id: WindowId(1), event: WindowEvent::Other });
    c.handle_event(&Event::DeviceEvent { device_id: DeviceId(2), event: DeviceEvent::Added });
    c.handle_event(&Event::DeviceEvent { device_id: DeviceId(2), event: DeviceEvent::Other });
    assert_eq!(c.get_position(WindowId(1), DeviceId(2)), Some((3.0, 4.0)));
    assert_eq!(c.get_previous_position(WindowId(1), DeviceId(2)), Some((0.0, 0.0)));
}

#[test]
fn move_after_removal_starts_from_origin() {
    let mut c = cache();
    c.handle_event(&moved(1, 2, 3.0, 4.0));
    c.handle_event(&removed(2));
    c.handle_event(&moved(1, 2, 5.0, 6.0));
    assert_eq!(c.get_previous_position(WindowId(1), DeviceId(2)), Some((0.0, 0.0)));
}
