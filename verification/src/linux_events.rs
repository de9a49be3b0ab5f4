use vstd::prelude::*;
use crate::xcb::enums::{xcb_button_index_t, xcb_cw_t, xcb_event_mask_t};
use crate::xcb::events::{
    xcb_button_press_event_t, xcb_client_message_event_t, xcb_configure_notify_event_t,
    xcb_destroy_notify_event_t, xcb_generic_event_t, xcb_key_press_event_t,
    xcb_motion_notify_event_t,
};
use crate::xcb::records::xcb_screen_t;
use crate::xcb::types::{xcb_atom_t, xcb_keycode_t};
use crate::event::{Button, ButtonAction, Keyboard, Mouse, PlatformEvent};

verus! {

/// X event codes, after the "sent by another client" bit is masked off.
pub const KEY_PRESS: u8 = 2;

pub const KEY_RELEASE: u8 = 3;

pub const BUTTON_PRESS: u8 = 4;

pub const BUTTON_RELEASE: u8 = 5;

pub const MOTION_NOTIFY: u8 = 6;

pub const DESTROY_NOTIFY: u8 = 17;

pub const CONFIGURE_NOTIFY: u8 = 22;

pub const CLIENT_MESSAGE: u8 = 33;

/// Key codes of the keys the engine reacts to.
pub const KEY_A: xcb_keycode_t = 38;

pub const KEY_D: xcb_keycode_t = 40;

pub const KEY_S: xcb_keycode_t = 39;

pub const KEY_W: xcb_keycode_t = 25;

pub const KEY_F1: xcb_keycode_t = 67;

/// The kinds of X events that are told apart.
#[derive(PartialEq, Eq, Structural, Clone, Copy, Debug)]
pub enum EventKind {
    ClientMessage,
    MotionNotify,
    ButtonPress,
    ButtonRelease,
    KeyPress,
    KeyRelease,
    DestroyNotify,
    ConfigureNotify,
    Other,
}

/// The kind of an X event whose `response_type` byte is `response_type`.
pub open spec fn spec_event_kind(response_type: u8) -> EventKind {
    let code = response_type % 128;
    if code == KEY_PRESS {
        EventKind::KeyPress
    } else if code == KEY_RELEASE {
        EventKind::KeyRelease
    } else if code == BUTTON_PRESS {
        EventKind::ButtonPress
    } else if code == BUTTON_RELEASE {
        EventKind::ButtonRelease
    } else if code == MOTION_NOTIFY {
        EventKind::MotionNotify
    } else if code == DESTROY_NOTIFY {
        EventKind::DestroyNotify
    } else if code == CONFIGURE_NOTIFY {
        EventKind::ConfigureNotify
    } else if code == CLIENT_MESSAGE {
        EventKind::ClientMessage
    } else {
        EventKind::Other
    }
}

/// The kind of an X event, from its `response_type` byte, whose high bit
/// (set when another client sent the event) is ignored.
pub fn event_kind(response_type: u8) -> (kind: EventKind)
    ensures
        kind == spec_event_kind(response_type),
{
    let code = response_type & 0x7f;
    assert(response_type & 0x7f == response_type % 128) by (bit_vector);
    if code == KEY_PRESS {
        EventKind::KeyPress
    } else if code == KEY_RELEASE {
        EventKind::KeyRelease
    } else if code == BUTTON_PRESS {
        EventKind::ButtonPress
    } else if code == BUTTON_RELEASE {
        EventKind::ButtonRelease
    } else if code == MOTION_NOTIFY {
        EventKind::MotionNotify
    } else if code == DESTROY_NOTIFY {
        EventKind::DestroyNotify
    } else if code == CONFIGURE_NOTIFY {
        EventKind::ConfigureNotify
    } else if code == CLIENT_MESSAGE {
        EventKind::ClientMessage
    } else {
        EventKind::Other
    }
}

/// An X event read as the record of its kind.
#[derive(Clone, Copy, Debug)]
pub enum XcbEvent {
    ClientMessage(xcb_client_message_event_t),
    MotionNotify(xcb_motion_notify_event_t),
    ButtonPress(xcb_button_press_event_t),
    ButtonRelease(xcb_button_press_event_t),
    KeyPress(xcb_key_press_event_t),
    KeyRelease(xcb_key_press_event_t),
    DestroyNotify(xcb_destroy_notify_event_t),
    ConfigureNotify(xcb_configure_notify_event_t),
    Other(xcb_generic_event_t),
}

/// The mouse button that an X button number stands for; numbers other than
/// the first three count as the left button.
pub open spec fn spec_mouse_button(detail: u8) -> Mouse {
    if detail == xcb_button_index_t::XCB_BUTTON_INDEX_2.spec_value() {
        Mouse::Middle
    } else if detail == xcb_button_index_t::XCB_BUTTON_INDEX_3.spec_value() {
        Mouse::Right
    } else {
        Mouse::Left
    }
}

/// The mouse button that an X button number stands for.
pub fn mouse_button(detail: u8) -> (m: Mouse)
    ensures
        m == spec_mouse_button(detail),
{
    let d = detail as u32;
    if d == xcb_button_index_t::XCB_BUTTON_INDEX_1.value() {
        Mouse::Left
    } else if d == xcb_button_index_t::XCB_BUTTON_INDEX_2.value() {
        Mouse::Middle
    } else if d == xcb_button_index_t::XCB_BUTTON_INDEX_3.value() {
        Mouse::Right
    } else {
        Mouse::Left
    }
}

/// The key that an X key code stands for; codes the engine does not know
/// count as `W`.
pub open spec fn spec_keyboard_key(code: xcb_keycode_t) -> Keyboard {
    if code == KEY_S {
        Keyboard::S
    } else if code == KEY_A {
        Keyboard::A
    } else if code == KEY_D {
        Keyboard::D
    } else if code == KEY_F1 {
        Keyboard::Function(1)
    } else {
        Keyboard::W
    }
}

/// The key that an X key code stands for.
pub fn keyboard_key(code: xcb_keycode_t) -> (k: Keyboard)
    ensures
        k == spec_keyboard_key(code),
{
    if code == KEY_W {
        Keyboard::W
    } else if code == KEY_S {
        Keyboard::S
    } else if code == KEY_A {
        Keyboard::A
    } else if code == KEY_D {
        Keyboard::D
    } else if code == KEY_F1 {
        Keyboard::Function(1)
    } else {
        Keyboard::W
    }
}

/// What the X event `event` means to the engine, given the atom of the
/// window manager's "delete window" protocol.
pub open spec fn spec_translate(event: XcbEvent, wm_delete_window: xcb_atom_t) -> Option<
    PlatformEvent,
> {
    match event {
        XcbEvent::ClientMessage(m) => if m.data.data[0] == wm_delete_window {
            Some(PlatformEvent::Quit)
        } else {
            None
        },
        XcbEvent::DestroyNotify(_) => Some(PlatformEvent::Quit),
        XcbEvent::MotionNotify(_) => Some(PlatformEvent::MouseMove),
        XcbEvent::ButtonPress(b) => Some(
            PlatformEvent::Button {
                button: Button::Mouse(spec_mouse_button(b.detail)),
                action: ButtonAction::Press,
            },
        ),
        XcbEvent::ButtonRelease(b) => Some(
            PlatformEvent::Button {
                button: Button::Mouse(spec_mouse_button(b.detail)),
                action: ButtonAction::Release,
            },
        ),
        XcbEvent::KeyPress(k) => Some(
            PlatformEvent::Button {
                button: Button::Keyboard(spec_keyboard_key(k.detail)),
                action: ButtonAction::Press,
            },
        ),
        XcbEvent::KeyRelease(k) => Some(
            PlatformEvent::Button {
                button: Button::Keyboard(spec_keyboard_key(k.detail)),
                action: ButtonAction::Release,
            },
        ),
        XcbEvent::ConfigureNotify(c) => if c.width > 0 && c.height > 0 {
            Some(PlatformEvent::WindowSizeChange { width: c.width, height: c.height })
        } else {
            None
        },
        XcbEvent::Other(_) => None,
    }
}

/// What the X event `event` means to the engine, given the atom of the
/// window manager's "delete window" protocol; `None` for events the engine
/// ignores.
pub fn translate(event: &XcbEvent, wm_delete_window: xcb_atom_t) -> (r: Option<PlatformEvent>)
    ensures
        r == spec_translate(*event, wm_delete_window),
{
    match event {
        XcbEvent::ClientMessage(m) => {
            if m.data.data[0] == wm_delete_window {
                Some(PlatformEvent::Quit)
            } else {
                None
            }
        },
        XcbEvent::DestroyNotify(_) => Some(PlatformEvent::Quit),
        XcbEvent::MotionNotify(_) => Some(PlatformEvent::MouseMove),
        XcbEvent::ButtonPress(b) => Some(
            PlatformEvent::Button {
                button: Button::Mouse(mouse_button(b.detail)),
                action: ButtonAction::Press,
            },
        ),
        XcbEvent::ButtonRelease(b) => Some(
            PlatformEvent::Button {
                button: Button::Mouse(mouse_button(b.detail)),
                action: ButtonAction::Release,
            },
        ),
        XcbEvent::KeyPress(k) => Some(
            PlatformEvent::Button {
                button: Button::Keyboard(keyboard_key(k.detail)),
                action: ButtonAction::Press,
            },
        ),
        XcbEvent::KeyRelease(k) => Some(
            PlatformEvent::Button {
                button: Button::Keyboard(keyboard_key(k.detail)),
                action: ButtonAction::Release,
            },
        ),
        XcbEvent::ConfigureNotify(c) => {
            if c.width > 0 && c.height > 0 {
                Some(PlatformEvent::WindowSizeChange { width: c.width, height: c.height })
            } else {
                None
            }
        },
        XcbEvent::Other(_) => None,
    }
}

/// An event ends the application exactly when the window is destroyed or
/// the window manager asks to delete it.
pub proof fn law_quit_events(event: XcbEvent, wm_delete_window: xcb_atom_t)
    ensures
        spec_translate(event, wm_delete_window) == Some(PlatformEvent::Quit) <==> (
        event is DestroyNotify || (event matches XcbEvent::ClientMessage(m)
            && m.data.data[0] == wm_delete_window)),
{
}

/// Presses and releases of the same key or mouse button translate to the
/// same button, with the opposite action.
pub proof fn law_press_release_same_button(
    press: xcb_button_press_event_t,
    key: xcb_key_press_event_t,
    wm_delete_window: xcb_atom_t,
)
    ensures
        spec_translate(XcbEvent::ButtonPress(press), wm_delete_window) matches Some(
            PlatformEvent::Button { button: b1, action: ButtonAction::Press },
        ) && spec_translate(XcbEvent::ButtonRelease(press), wm_delete_window) matches Some(
            PlatformEvent::Button { button: b2, action: ButtonAction::Release },
        ) && b1 == b2,
        spec_translate(XcbEvent::KeyPress(key), wm_delete_window) matches Some(
            PlatformEvent::Button { button: k1, action: ButtonAction::Press },
        ) && spec_translate(XcbEvent::KeyRelease(key), wm_delete_window) matches Some(
            PlatformEvent::Button { button: k2, action: ButtonAction::Release },
        ) && k1 == k2,
{
}

/// The events the application window listens to: key presses and
/// releases, exposure, structure changes, pointer motion, button presses
/// and releases, and resize requests.
pub open spec fn spec_window_event_mask() -> u32 {
    xcb_event_mask_t::XCB_EVENT_MASK_KEY_RELEASE.spec_value()
        | xcb_event_mask_t::XCB_EVENT_MASK_KEY_PRESS.spec_value()
        | xcb_event_mask_t::XCB_EVENT_MASK_EXPOSURE.spec_value()
        | xcb_event_mask_t::XCB_EVENT_MASK_STRUCTURE_NOTIFY.spec_value()
        | xcb_event_mask_t::XCB_EVENT_MASK_POINTER_MOTION.spec_value()
        | xcb_event_mask_t::XCB_EVENT_MASK_BUTTON_PRESS.spec_value()
        | xcb_event_mask_t::XCB_EVENT_MASK_BUTTON_RELEASE.spec_value()
        | xcb_event_mask_t::XCB_EVENT_MASK_RESIZE_REDIRECT.spec_value()
}

/// The attributes that the application window is created with: the mask of
/// the attributes given (background pixel and event mask), and the list of
/// their values, the screen's black pixel then the event mask, padded with
/// zeros to 32 entries.
pub fn window_attributes(screen: &xcb_screen_t) -> (r: (u32, Vec<u32>))
    ensures
        r.0 == xcb_cw_t::XCB_CW_BACK_PIXEL.spec_value() | xcb_cw_t::XCB_CW_EVENT_MASK.spec_value(),
        r.1@.len() == 32,
        r.1@[0] == screen.black_pixel,
        r.1@[1] == spec_window_event_mask(),
        forall|i: int| 2 <= i < 32 ==> r.1@[i] == 0,
{
    let mut values: Vec<u32> = Vec::new();
    let mut i: usize = 0;
    while i < 32
        invariant
            i <= 32,
            values@.len() == i,
            forall|j: int| 0 <= j < i ==> values@[j] == 0,
        decreases 32 - i,
    {
        values.push(0);
        i = i + 1;
    }
    values.set(0, screen.black_pixel);
    let mask = xcb_event_mask_t::XCB_EVENT_MASK_KEY_RELEASE.value()
        | xcb_event_mask_t::XCB_EVENT_MASK_KEY_PRESS.value()
        | xcb_event_mask_t::XCB_EVENT_MASK_EXPOSURE.value()
        | xcb_event_mask_t::XCB_EVENT_MASK_STRUCTURE_NOTIFY.value()
        | xcb_event_mask_t::XCB_EVENT_MASK_POINTER_MOTION.value()
        | xcb_event_mask_t::XCB_EVENT_MASK_BUTTON_PRESS.value()
        | xcb_event_mask_t::XCB_EVENT_MASK_BUTTON_RELEASE.value()
        | xcb_event_mask_t::XCB_EVENT_MASK_RESIZE_REDIRECT.value();
    values.set(1, mask);
    let value_mask = xcb_cw_t::XCB_CW_BACK_PIXEL.value() | xcb_cw_t::XCB_CW_EVENT_MASK.value();
    (value_mask, values)
}


/// The kind of an X event ignores the bit that marks an event sent by
/// another client: setting or clearing it gives the same kind, and the
/// event is a client message (such as the window manager's request to
/// delete the window) exactly when its low seven bits are 33.
pub proof fn law_event_kind_ignores_sent_bit(response_type: u8)
    ensures
        spec_event_kind(response_type | 0x80) == spec_event_kind(response_type & 0x7f),
        spec_event_kind(response_type) == spec_event_kind(response_type & 0x7f),
        spec_event_kind(response_type) == EventKind::ClientMessage <==> response_type & 0x7f == 33,
{
    let r = response_type;
    assert((r | 0x80) & 0x7f == r & 0x7f) by (bit_vector);
    assert((r & 0x7f) & 0x7f == r & 0x7f) by (bit_vector);
    assert(r & 0x7f == r % 128) by (bit_vector);
    assert((r | 0x80) & 0x7f == (r | 0x80) % 128) by (bit_vector);
    assert((r & 0x7f) & 0x7f == (r & 0x7f) % 128) by (bit_vector);
}

} // verus!
