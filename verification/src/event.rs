use vstd::prelude::*;

verus! {

/// Mouse buttons.
#[derive(PartialEq, Eq, Structural, Clone, Copy, Debug)]
pub enum Mouse {
    Left,
    Middle,
    Right,
}

/// Keyboard keys.
#[derive(PartialEq, Eq, Structural, Clone, Copy, Debug)]
pub enum Keyboard {
    A,
    B,
    C,
    D,
    E,
    F,
    G,
    H,
    I,
    J,
    K,
    L,
    M,
    N,
    O,
    P,
    Q,
    R,
    S,
    T,
    U,
    V,
    W,
    X,
    Y,
    Z,
    Function(u8),
    Unknown,
}

impl Keyboard {
    /// The letter printed on a letter key; `None` for the other keys.
    pub open spec fn letter(self) -> Option<char> {
        match self {
            Keyboard::A => Some('A'),
            Keyboard::B => Some('B'),
            Keyboard::C => Some('C'),
            Keyboard::D => Some('D'),
            Keyboard::E => Some('E'),
            Keyboard::F => Some('F'),
            Keyboard::G => Some('G'),
            Keyboard::H => Some('H'),
            Keyboard::I => Some('I'),
            Keyboard::J => Some('J'),
            Keyboard::K => Some('K'),
            Keyboard::L => Some('L'),
            Keyboard::M => Some('M'),
            Keyboard::N => Some('N'),
            Keyboard::O => Some('O'),
            Keyboard::P => Some('P'),
            Keyboard::Q => Some('Q'),
            Keyboard::R => Some('R'),
            Keyboard::S => Some('S'),
            Keyboard::T => Some('T'),
            Keyboard::U => Some('U'),
            Keyboard::V => Some('V'),
            Keyboard::W => Some('W'),
            Keyboard::X => Some('X'),
            Keyboard::Y => Some('Y'),
            Keyboard::Z => Some('Z'),
            _ => None,
        }
    }
}

/// A button of the mouse or of the keyboard.
#[derive(PartialEq, Eq, Structural, Clone, Copy, Debug)]
pub enum Button {
    Mouse(Mouse),
    Keyboard(Keyboard),
}

/// Whether a button went down or up.
#[derive(PartialEq, Eq, Structural, Clone, Copy, Debug)]
pub enum ButtonAction {
    Press,
    Release,
}

/// What a window-system event means to the engine. The pointer position of a mouse
/// move and the aspect ratio of a new window size are for the caller to
/// compute.
#[derive(PartialEq, Eq, Structural, Clone, Copy, Debug)]
pub enum PlatformEvent {
    Quit,
    MouseMove,
    Button { button: Button, action: ButtonAction },
    WindowSizeChange { width: u16, height: u16 },
}

} // verus!
