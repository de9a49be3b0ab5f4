use vstd::prelude::*;
use crate::event::{Button, ButtonAction, Keyboard, Mouse, PlatformEvent};

verus! {

/// Win32 window message codes.
pub const WM_SIZE: u32 = 0x0005;

pub const WM_PAINT: u32 = 0x000F;

pub const WM_CLOSE: u32 = 0x0010;

pub const WM_SHOWWINDOW: u32 = 0x0018;

pub const WM_KEYDOWN: u32 = 0x0100;

pub const WM_KEYUP: u32 = 0x0101;

pub const WM_MOUSEMOVE: u32 = 0x0200;

pub const WM_LBUTTONDOWN: u32 = 0x0201;

pub const WM_LBUTTONUP: u32 = 0x0202;

pub const WM_RBUTTONDOWN: u32 = 0x0204;

pub const WM_RBUTTONUP: u32 = 0x0205;

pub const WM_MBUTTONDOWN: u32 = 0x0207;

pub const WM_MBUTTONUP: u32 = 0x0208;

pub const WM_MOUSEWHEEL: u32 = 0x020A;

pub const WM_ENTERSIZEMOVE: u32 = 0x0231;

pub const WM_EXITSIZEMOVE: u32 = 0x0232;

/// The key that a Win32 virtual-key code stands for: the codes of the
/// letters stand for them, all others are unknown.
pub open spec fn spec_virtual_key(code: usize) -> Keyboard {
    match code {
        0x41 => Keyboard::A,
        0x42 => Keyboard::B,
        0x43 => Keyboard::C,
        0x44 => Keyboard::D,
        0x45 => Keyboard::E,
        0x46 => Keyboard::F,
        0x47 => Keyboard::G,
        0x48 => Keyboard::H,
        0x49 => Keyboard::I,
        0x4A => Keyboard::J,
        0x4B => Keyboard::K,
        0x4C => Keyboard::L,
        0x4D => Keyboard::M,
        0x4E => Keyboard::N,
        0x4F => Keyboard::O,
        0x50 => Keyboard::P,
        0x51 => Keyboard::Q,
        0x52 => Keyboard::R,
        0x53 => Keyboard::S,
        0x54 => Keyboard::T,
        0x55 => Keyboard::U,
        0x56 => Keyboard::V,
        0x57 => Keyboard::W,
        0x58 => Keyboard::X,
        0x59 => Keyboard::Y,
        0x5A => Keyboard::Z,
        _ => Keyboard::Unknown,
    }
}

/// The key that a Win32 virtual-key code stands for.
pub fn virtual_key(code: usize) -> (k: Keyboard)
    ensures
        k == spec_virtual_key(code),
{
    match code {
        0x41 => Keyboard::A,
        0x42 => Keyboard::B,
        0x43 => Keyboard::C,
        0x44 => Keyboard::D,
        0x45 => Keyboard::E,
        0x46 => Keyboard::F,
        0x47 => Keyboard::G,
        0x48 => Keyboard::H,
        0x49 => Keyboard::I,
        0x4A => Keyboard::J,
        0x4B => Keyboard::K,
        0x4C => Keyboard::L,
        0x4D => Keyboard::M,
        0x4E => Keyboard::N,
        0x4F => Keyboard::O,
        0x50 => Keyboard::P,
        0x51 => Keyboard::Q,
        0x52 => Keyboard::R,
        0x53 => Keyboard::S,
        0x54 => Keyboard::T,
        0x55 => Keyboard::U,
        0x56 => Keyboard::V,
        0x57 => Keyboard::W,
        0x58 => Keyboard::X,
        0x59 => Keyboard::Y,
        0x5A => Keyboard::Z,
        _ => Keyboard::Unknown,
    }
}

/// What the window procedure does with a message, besides handing it to the
/// default procedure.
#[derive(PartialEq, Eq, Structural, Clone, Copy, Debug)]
pub enum WindowsMessageAction {
    /// Hand this event to the application.
    Event(PlatformEvent),
    /// The pointer moved: the caller reads its position and reports the
    /// move.
    MouseMove,
    /// Mark the window's client area as painted.
    ValidatePaint,
}

/// What the window procedure does with the message `msg` whose word
/// parameter is `w_param`.
pub open spec fn spec_windows_message(msg: u32, w_param: usize) -> Option<WindowsMessageAction> {
    let press = ButtonAction::Press;
    let release = ButtonAction::Release;
    if msg == WM_PAINT {
        Some(WindowsMessageAction::ValidatePaint)
    } else if msg == WM_KEYDOWN {
        Some(WindowsMessageAction::Event(PlatformEvent::Button { button: Button::Keyboard(spec_virtual_key(w_param)), action: press }))
    } else if msg == WM_KEYUP {
        Some(WindowsMessageAction::Event(PlatformEvent::Button { button: Button::Keyboard(spec_virtual_key(w_param)), action: release }))
    } else if msg == WM_RBUTTONDOWN {
        Some(WindowsMessageAction::Event(PlatformEvent::Button { button: Button::Mouse(Mouse::Right), action: press }))
    } else if msg == WM_LBUTTONDOWN {
        Some(WindowsMessageAction::Event(PlatformEvent::Button { button: Button::Mouse(Mouse::Left), action: press }))
    } else if msg == WM_MBUTTONDOWN {
        Some(WindowsMessageAction::Event(PlatformEvent::Button { button: Button::Mouse(Mouse::Middle), action: press }))
    } else if msg == WM_RBUTTONUP {
        Some(WindowsMessageAction::Event(PlatformEvent::Button { button: Button::Mouse(Mouse::Right), action: release }))
    } else if msg == WM_LBUTTONUP {
        Some(WindowsMessageAction::Event(PlatformEvent::Button { button: Button::Mouse(Mouse::Left), action: release }))
    } else if msg == WM_MBUTTONUP {
        Some(WindowsMessageAction::Event(PlatformEvent::Button { button: Button::Mouse(Mouse::Middle), action: release }))
    } else if msg == WM_MOUSEMOVE {
        Some(WindowsMessageAction::MouseMove)
    } else {
        None
    }
}

/// What the window procedure does with the message `msg` whose word
/// parameter is `w_param`; `None` for the messages it leaves to the default
/// procedure alone (closing, resizing, the wheel and the rest).
pub fn handle_windows_message(msg: u32, w_param: usize) -> (r: Option<WindowsMessageAction>)
    ensures
        r == spec_windows_message(msg, w_param),
{
    if msg == WM_PAINT {
        Some(WindowsMessageAction::ValidatePaint)
    } else if msg == WM_KEYDOWN || msg == WM_KEYUP {
        let action = if msg == WM_KEYDOWN {
            ButtonAction::Press
        } else {
            ButtonAction::Release
        };
        Some(WindowsMessageAction::Event(PlatformEvent::Button { button: Button::Keyboard(virtual_key(w_param)), action }))
    } else if msg == WM_RBUTTONDOWN {
        Some(WindowsMessageAction::Event(PlatformEvent::Button { button: Button::Mouse(Mouse::Right), action: ButtonAction::Press }))
    } else if msg == WM_LBUTTONDOWN {
        Some(WindowsMessageAction::Event(PlatformEvent::Button { button: Button::Mouse(Mouse::Left), action: ButtonAction::Press }))
    } else if msg == WM_MBUTTONDOWN {
        Some(WindowsMessageAction::Event(PlatformEvent::Button { button: Button::Mouse(Mouse::Middle), action: ButtonAction::Press }))
    } else if msg == WM_RBUTTONUP {
        Some(WindowsMessageAction::Event(PlatformEvent::Button { button: Button::Mouse(Mouse::Right), action: ButtonAction::Release }))
    } else if msg == WM_LBUTTONUP {
        Some(WindowsMessageAction::Event(PlatformEvent::Button { button: Button::Mouse(Mouse::Left), action: ButtonAction::Release }))
    } else if msg == WM_MBUTTONUP {
        Some(WindowsMessageAction::Event(PlatformEvent::Button { button: Button::Mouse(Mouse::Middle), action: ButtonAction::Release }))
    } else if msg == WM_MOUSEMOVE {
        Some(WindowsMessageAction::MouseMove)
    } else {
        None
    }
}

/// A key or mouse button that goes down and comes up is reported as the
/// same button, pressed then released.
pub proof fn law_windows_press_release_pair(w_param: usize)
    ensures
        ({
            let down = spec_windows_message(WM_KEYDOWN, w_param);
            let up = spec_windows_message(WM_KEYUP, w_param);
            down matches Some(WindowsMessageAction::Event(PlatformEvent::Button { button: b1, action: ButtonAction::Press }))
                && up matches Some(WindowsMessageAction::Event(PlatformEvent::Button { button: b2, action: ButtonAction::Release }))
                && b1 == b2
        }),
        spec_windows_message(WM_LBUTTONDOWN, w_param) matches Some(WindowsMessageAction::Event(PlatformEvent::Button { button: Button::Mouse(Mouse::Left), action: ButtonAction::Press })),
        spec_windows_message(WM_LBUTTONUP, w_param) matches Some(WindowsMessageAction::Event(PlatformEvent::Button { button: Button::Mouse(Mouse::Left), action: ButtonAction::Release })),
{
}

/// Whether going full screen asks for a display-mode change: when the
/// screen differs from the default window size in both width and height.
pub fn fullscreen_needs_display_change(screen_width: i32, screen_height: i32, default_width: i32, default_height: i32) -> (b: bool)
    ensures
        b == (screen_width != default_width && screen_height != default_height),
{
    screen_width != default_width && screen_height != default_height
}

/// The coordinate at which a window of extent `extent` is centered on a
/// screen of extent `screen`: half the leftover space, rounded toward zero.
pub fn centered_origin(screen: i32, extent: i32) -> (o: i32)
    ensures
        screen >= extent ==> o == (screen - extent) / 2,
        screen < extent ==> o == -((extent - screen) / 2),
{
    let d = screen as i64 - extent as i64;
    if d >= 0 {
        (d / 2) as i32
    } else {
        -((-d) / 2) as i32
    }
}


/// A virtual-key code from 0x41 to 0x5A stands for the letter key whose
/// ASCII code it is, and every other code for no known key.
pub proof fn law_virtual_key_letters(code: usize)
    ensures
        0x41 <= code <= 0x5A ==> spec_virtual_key(code).letter() == Some(code as char),
        !(0x41 <= code <= 0x5A) ==> spec_virtual_key(code) == Keyboard::Unknown,
{
}

} // verus!
