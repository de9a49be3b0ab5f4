use vulkust::event::{Button, ButtonAction, Keyboard, Mouse, PlatformEvent};
use vulkust::linux_events::{
    event_kind, keyboard_key, mouse_button, translate, window_attributes, EventKind, XcbEvent,
};
use vulkust::windows_events::{
    centered_origin, fullscreen_needs_display_change, handle_windows_message, virtual_key, WindowsMessageAction, WM_CLOSE, WM_KEYDOWN, WM_KEYUP,
    WM_LBUTTONDOWN, WM_LBUTTONUP, WM_MBUTTONDOWN, WM_MBUTTONUP, WM_MOUSEMOVE, WM_MOUSEWHEEL,
    WM_PAINT, WM_RBUTTONDOWN, WM_RBUTTONUP, WM_SIZE,
};
use vulkust::xcb::events::{
    xcb_button_press_event_t, xcb_client_message_data_t, xcb_client_message_event_t,
    xcb_configure_notify_event_t, xcb_destroy_notify_event_t, xcb_generic_event_t,
    xcb_key_press_event_t, xcb_motion_notify_event_t,
};
use vulkust::xcb::records::xcb_screen_t;

fn key(detail: u8, response_type: u8) -> xcb_key_press_event_t {
    xcb_key_press_event_t {
        response_type,
        detail,
        sequence: 0,
        time: 0,
        root: 0,
        event: 0,
        child: 0,
        root_x: 0,
        root_y: 0,
        event_x: 0,
        event_y: 0,
        state: 0,
        same_screen: 1,
        pad0: 0,
    }
}

fn button(detail: u8, response_type: u8) -> xcb_button_press_event_t {
    xcb_button_press_event_t {
        response_type,
        detail,
        sequence: 0,
        time: 0,
        root: 0,
        event: 0,
        child: 0,
        root_x: 0,
        root_y: 0,
        event_x: 0,
        event_y: 0,
        state: 0,
        same_screen: 1,
        pad0: 0,
    }
}

fn client_message(word: u32) -> xcb_client_message_event_t {
    xcb_client_message_event_t {
        response_type: 33,
        format: 32,
        sequence: 0,
        window: 5,
        type_: 300,
        data: xcb_client_message_data_t { data: [word, 0, 0, 0, 0] },
    }
}

fn configure(width: u16, height: u16) -> xcb_configure_notify_event_t {
    xcb_configure_notify_event_t {
        response_type: 22,
        pad0: 0,
        sequence: 0,
        event: 0,
        window: 0,
        above_sibling: 0,
        x: 0,
        y: 0,
        width,
        height,
        border_width: 0,
        override_redirect: 0,
        pad1: 0,
    }
}

const WM_DELETE: u32 = 301;

#[test]
fn event_kinds_ignore_the_sent_bit() {
    assert_eq!(event_kind(2), EventKind::KeyPress);
    assert_eq!(event_kind(2 | 0x80), EventKind::KeyPress);
    assert_eq!(event_kind(3), EventKind::KeyRelease);
    assert_eq!(event_kind(4), EventKind::ButtonPress);
    assert_eq!(event_kind(5), EventKind::ButtonRelease);
    assert_eq!(event_kind(6), EventKind::MotionNotify);
    assert_eq!(event_kind(17), EventKind::DestroyNotify);
    assert_eq!(event_kind(22 | 0x80), EventKind::ConfigureNotify);
    assert_eq!(event_kind(33), EventKind::ClientMessage);
    assert_eq!(event_kind(12), EventKind::Other);
    assert_eq!(event_kind(0), EventKind::Other);
}

#[test]
fn keys_and_buttons() {
    assert_eq!(keyboard_key(25), Keyboard::W);
    assert_eq!(keyboard_key(39), Keyboard::S);
    assert_eq!(keyboard_key(38), Keyboard::A);
    assert_eq!(keyboard_key(40), Keyboard::D);
    assert_eq!(keyboard_key(67), Keyboard::Function(1));
    assert_eq!(keyboard_key(10), Keyboard::W);
    assert_eq!(mouse_button(1), Mouse::Left);
    assert_eq!(mouse_button(2), Mouse::Middle);
    assert_eq!(mouse_button(3), Mouse::Right);
    assert_eq!(mouse_button(4), Mouse::Left);
}

#[test]
fn quit_on_destroy_or_delete_request() {
    let d = XcbEvent::DestroyNotify(xcb_destroy_notify_event_t {
        response_type: 17,
        pad0: 0,
        sequence: 0,
        event: 0,
        window: 0,
    });
    assert_eq!(translate(&d, WM_DELETE), Some(PlatformEvent::Quit));
    assert_eq!(
        translate(&XcbEvent::ClientMessage(client_message(WM_DELETE)), WM_DELETE),
        Some(PlatformEvent::Quit)
    );
    assert_eq!(translate(&XcbEvent::ClientMessage(client_message(7)), WM_DELETE), None);
}

#[test]
fn key_and_button_events() {
    assert_eq!(
        translate(&XcbEvent::KeyPress(key(38, 2)), WM_DELETE),
        Some(PlatformEvent::Button {
            button: Button::Keyboard(Keyboard::A),
            action: ButtonAction::Press
        })
    );
    assert_eq!(
        translate(&XcbEvent::KeyRelease(key(67, 3)), WM_DELETE),
        Some(PlatformEvent::Button {
            button: Button::Keyboard(Keyboard::Function(1)),
            action: ButtonAction::Release
        })
    );
    assert_eq!(
        translate(&XcbEvent::ButtonPress(button(3, 4)), WM_DELETE),
        Some(PlatformEvent::Button {
            button: Button::Mouse(Mouse::Right),
            action: ButtonAction::Press
        })
    );
    assert_eq!(
        translate(&XcbEvent::ButtonRelease(button(2, 5)), WM_DELETE),
        Some(PlatformEvent::Button {
            button: Button::Mouse(Mouse::Middle),
            action: ButtonAction::Release
        })
    );
}

#[test]
fn motion_resize_and_others() {
    let m = xcb_motion_notify_event_t {
        response_type: 6,
        detail: 0,
        sequence: 0,
        time: 0,
        root: 0,
        event: 0,
        child: 0,
        root_x: 3,
        root_y: 4,
        event_x: 3,
        event_y: 4,
        state: 0,
        same_screen: 1,
        pad0: 0,
    };
    assert_eq!(translate(&XcbEvent::MotionNotify(m), WM_DELETE), Some(PlatformEvent::MouseMove));
    assert_eq!(
        translate(&XcbEvent::ConfigureNotify(configure(800, 600)), WM_DELETE),
        Some(PlatformEvent::WindowSizeChange { width: 800, height: 600 })
    );
    assert_eq!(translate(&XcbEvent::ConfigureNotify(configure(0, 600)), WM_DELETE), None);
    assert_eq!(translate(&XcbEvent::ConfigureNotify(configure(800, 0)), WM_DELETE), None);
    let g = xcb_generic_event_t {
        response_type: 12,
        pad0: 0,
        sequence: 0,
        pad: [0; 7],
        full_sequence: 0,
    };
    assert_eq!(translate(&XcbEvent::Other(g), WM_DELETE), None);
}

#[test]
fn window_creation_attributes() {
    let screen = xcb_screen_t {
        root: 1,
        default_colormap: 2,
        white_pixel: 0xffffff,
        black_pixel: 0x000000,
        current_input_masks: 0,
        width_in_pixels: 1920,
        height_in_pixels: 1080,
        width_in_millimeters: 500,
        height_in_millimeters: 300,
        min_installed_maps: 1,
        max_installed_maps: 1,
        root_visual: 33,
        backing_stores: 0,
        save_unders: 0,
        root_depth: 24,
        allowed_depths_len: 1,
    };
    let (mask, values) = window_attributes(&screen);
    assert_eq!(mask, 2 | 2048);
    assert_eq!(values.len(), 32);
    assert_eq!(values[0], 0);
    assert_eq!(values[1], 2 | 1 | 32768 | 131072 | 64 | 4 | 8 | 262144);
    assert!(values[2..].iter().all(|v| *v == 0));
    let screen = xcb_screen_t { black_pixel: 7, ..screen };
    assert_eq!(window_attributes(&screen).1[0], 7);
}

#[test]
fn windows_keys() {
    assert_eq!(virtual_key(0x41), Keyboard::A);
    assert_eq!(virtual_key(0x4D), Keyboard::M);
    assert_eq!(virtual_key(0x5A), Keyboard::Z);
    assert_eq!(virtual_key(0x40), Keyboard::Unknown);
    assert_eq!(virtual_key(0x5B), Keyboard::Unknown);
    assert_eq!(virtual_key(0x31), Keyboard::Unknown);
}

#[test]
fn windows_messages() {
    let ev = |b: Button, a: ButtonAction| {
        Some(WindowsMessageAction::Event(PlatformEvent::Button { button: b, action: a }))
    };
    assert_eq!(handle_windows_message(WM_PAINT, 0), Some(WindowsMessageAction::ValidatePaint));
    assert_eq!(
        handle_windows_message(WM_KEYDOWN, 0x57),
        ev(Button::Keyboard(Keyboard::W), ButtonAction::Press)
    );
    assert_eq!(
        handle_windows_message(WM_KEYUP, 0x57),
        ev(Button::Keyboard(Keyboard::W), ButtonAction::Release)
    );
    assert_eq!(
        handle_windows_message(WM_KEYUP, 0x20),
        ev(Button::Keyboard(Keyboard::Unknown), ButtonAction::Release)
    );
    assert_eq!(handle_windows_message(WM_LBUTTONDOWN, 0), ev(Button::Mouse(Mouse::Left), ButtonAction::Press));
    assert_eq!(handle_windows_message(WM_LBUTTONUP, 0), ev(Button::Mouse(Mouse::Left), ButtonAction::Release));
    assert_eq!(handle_windows_message(WM_RBUTTONDOWN, 0), ev(Button::Mouse(Mouse::Right), ButtonAction::Press));
    assert_eq!(handle_windows_message(WM_RBUTTONUP, 0), ev(Button::Mouse(Mouse::Right), ButtonAction::Release));
    assert_eq!(handle_windows_message(WM_MBUTTONDOWN, 0), ev(Button::Mouse(Mouse::Middle), ButtonAction::Press));
    assert_eq!(handle_windows_message(WM_MBUTTONUP, 0), ev(Button::Mouse(Mouse::Middle), ButtonAction::Release));
    assert_eq!(handle_windows_message(WM_MOUSEMOVE, 0), Some(WindowsMessageAction::MouseMove));
    assert_eq!(handle_windows_message(WM_CLOSE, 0), None);
    assert_eq!(handle_windows_message(WM_SIZE, 0), None);
    assert_eq!(handle_windows_message(WM_MOUSEWHEEL, 0), None);
}

#[test]
fn windows_fullscreen_and_centering() {
    assert!(fullscreen_needs_display_change(1920, 1080, 1000, 700));
    assert!(!fullscreen_needs_display_change(1000, 1080, 1000, 700));
    assert!(!fullscreen_needs_display_change(1920, 700, 1000, 700));
    assert_eq!(centered_origin(1920, 1000), 460);
    assert_eq!(centered_origin(1081, 700), 190);
    assert_eq!(centered_origin(700, 1001), -150);
    assert_eq!(centered_origin(i32::MIN, i32::MAX), -(((i32::MAX as i64) - (i32::MIN as i64)) / 2) as i32);
}
