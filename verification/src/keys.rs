use vstd::prelude::*;

verus! {

/// A key of the host keyboard, by its position on the board.
#[derive(Clone, Copy, Debug, PartialEq, Eq, Hash, Structural)]
pub enum HostKey {
    A,
    B,
    C,
    D,
    E,
    F,
    G,
    H,
    I,
    J,
    K,
    L,
    M,
    N,
    O,
    P,
    Q,
    R,
    S,
    T,
    U,
    V,
    W,
    X,
    Y,
    Z,
    Num0,
    Num1,
    Num2,
    Num3,
    Num4,
    Num5,
    Num6,
    Num7,
    Num8,
    Num9,
    F1,
    F2,
    F3,
    F4,
    F5,
    F6,
    F7,
    F8,
    F9,
    F10,
    F11,
    F12,
    F13,
    F14,
    F15,
    F16,
    F17,
    F18,
    F19,
    F20,
    F21,
    F22,
    F23,
    F24,
    NumLock,
    NumPad1,
    NumPad2,
    NumPad3,
    NumPad4,
    NumPad5,
    NumPad6,
    NumPad7,
    NumPad8,
    NumPad9,
    NumPad0,
    NumPadPlus,
    NumPadMinus,
    NumPadMultiply,
    NumPadDivide,
    NumPadEnter,
    LeftCtrl,
    LeftShift,
    LeftAlt,
    RightCtrl,
    RightShift,
    RightAlt,
    Up,
    Down,
    Left,
    Right,
    Backquote,
    Backslash,
    Backspace,
    CapsLock,
    Comma,
    Delete,
    End,
    Enter,
    Equals,
    Escape,
    Home,
    Insert,
    LeftBracket,
    Minus,
    PageDown,
    PageUp,
    Pause,
    Period,
    PrintScreen,
    Quote,
    RightBracket,
    ScrollLock,
    Semicolon,
    Slash,
    Space,
    Tab,
}

/// A key the GUI reacts to. The GUI knows far fewer keys than the host reports.
#[derive(Clone, Copy, Debug, PartialEq, Eq, Hash, Structural)]
pub enum GuiKey {
    ArrowDown,
    ArrowLeft,
    ArrowRight,
    ArrowUp,
    Escape,
    Tab,
    Backspace,
    Enter,
    Space,
    Insert,
    Delete,
    Home,
    End,
    PageUp,
    PageDown,
    Num0,
    Num1,
    Num2,
    Num3,
    Num4,
    Num5,
    Num6,
    Num7,
    Num8,
    Num9,
    A,
    B,
    C,
    D,
    E,
    F,
    G,
    H,
    I,
    J,
    K,
    L,
    M,
    N,
    O,
    P,
    Q,
    R,
    S,
    T,
    U,
    V,
    W,
    X,
    Y,
    Z,
}

/// A button of the host pointer device.
#[derive(Clone, Copy, Debug, PartialEq, Eq, Hash, Structural)]
pub enum HostMouseButton {
    Left,
    Middle,
    Right,
    X1,
    X2,
}

/// A pointer button the GUI reacts to.
#[derive(Clone, Copy, Debug, PartialEq, Eq, Hash, Structural)]
pub enum GuiPointerButton {
    Primary,
    Secondary,
    Middle,
}

/// The three groups of modifier keys. Each group has a left and a right key.
#[derive(Clone, Copy, Debug, PartialEq, Eq, Hash, Structural)]
pub enum ModifierFamily {
    Ctrl,
    Shift,
    Alt,
}

/// The GUI key that stands for a host key, where there is one.
///
/// Letters and the digit row keep their meaning, the number pad doubles the
/// digit row and the enter key, the arrows and the editing block are renamed.
/// Every other host key, the modifier keys among them, has no GUI key.
pub open spec fn gui_key_of(key: HostKey) -> Option<GuiKey> {
    match key {
        HostKey::A => Some(GuiKey::A),
        HostKey::B => Some(GuiKey::B),
        HostKey::C => Some(GuiKey::C),
        HostKey::D => Some(GuiKey::D),
        HostKey::E => Some(GuiKey::E),
        HostKey::F => Some(GuiKey::F),
        HostKey::G => Some(GuiKey::G),
        HostKey::H => Some(GuiKey::H),
        HostKey::I => Some(GuiKey::I),
        HostKey::J => Some(GuiKey::J),
        HostKey::K => Some(GuiKey::K),
        HostKey::L => Some(GuiKey::L),
        HostKey::M => Some(GuiKey::M),
        HostKey::N => Some(GuiKey::N),
        HostKey::O => Some(GuiKey::O),
        HostKey::P => Some(GuiKey::P),
        HostKey::Q => Some(GuiKey::Q),
        HostKey::R => Some(GuiKey::R),
        HostKey::S => Some(GuiKey::S),
        HostKey::T => Some(GuiKey::T),
        HostKey::U => Some(GuiKey::U),
        HostKey::V => Some(GuiKey::V),
        HostKey::W => Some(GuiKey::W),
        HostKey::X => Some(GuiKey::X),
        HostKey::Y => Some(GuiKey::Y),
        HostKey::Z => Some(GuiKey::Z),
        HostKey::Num0 => Some(GuiKey::Num0),
        HostKey::Num1 => Some(GuiKey::Num1),
        HostKey::Num2 => Some(GuiKey::Num2),
        HostKey::Num3 => Some(GuiKey::Num3),
        HostKey::Num4 => Some(GuiKey::Num4),
        HostKey::Num5 => Some(GuiKey::Num5),
        HostKey::Num6 => Some(GuiKey::Num6),
        HostKey::Num7 => Some(GuiKey::Num7),
        HostKey::Num8 => Some(GuiKey::Num8),
        HostKey::Num9 => Some(GuiKey::Num9),
        HostKey::NumPad0 => Some(GuiKey::Num0),
        HostKey::NumPad1 => Some(GuiKey::Num1),
        HostKey::NumPad2 => Some(GuiKey::Num2),
        HostKey::NumPad3 => Some(GuiKey::Num3),
        HostKey::NumPad4 => Some(GuiKey::Num4),
        HostKey::NumPad5 => Some(GuiKey::Num5),
        HostKey::NumPad6 => Some(GuiKey::Num6),
        HostKey::NumPad7 => Some(GuiKey::Num7),
        HostKey::NumPad8 => Some(GuiKey::Num8),
        HostKey::NumPad9 => Some(GuiKey::Num9),
        HostKey::NumPadEnter => Some(GuiKey::Enter),
        HostKey::Up => Some(GuiKey::ArrowUp),
        HostKey::Down => Some(GuiKey::ArrowDown),
        HostKey::Left => Some(GuiKey::ArrowLeft),
        HostKey::Right => Some(GuiKey::ArrowRight),
        HostKey::Backspace => Some(GuiKey::Backspace),
        HostKey::Delete => Some(GuiKey::Delete),
        HostKey::End => Some(GuiKey::End),
        HostKey::Enter => Some(GuiKey::Enter),
        HostKey::Escape => Some(GuiKey::Escape),
        HostKey::Home => Some(GuiKey::Home),
        HostKey::Insert => Some(GuiKey::Insert),
        HostKey::PageDown => Some(GuiKey::PageDown),
        HostKey::PageUp => Some(GuiKey::PageUp),
        HostKey::Space => Some(GuiKey::Space),
        HostKey::Tab => Some(GuiKey::Tab),
        _ => None,
    }
}

/// The GUI pointer button that stands for a host mouse button, where there is one.
pub open spec fn gui_button_of(button: HostMouseButton) -> Option<GuiPointerButton> {
    match button {
        HostMouseButton::Left => Some(GuiPointerButton::Primary),
        HostMouseButton::Middle => Some(GuiPointerButton::Middle),
        HostMouseButton::Right => Some(GuiPointerButton::Secondary),
        _ => None,
    }
}

/// The modifier group a host key belongs to, if it is a modifier key.
pub open spec fn family_of(key: HostKey) -> Option<ModifierFamily> {
    match key {
        HostKey::LeftCtrl | HostKey::RightCtrl => Some(ModifierFamily::Ctrl),
        HostKey::LeftShift | HostKey::RightShift => Some(ModifierFamily::Shift),
        HostKey::LeftAlt | HostKey::RightAlt => Some(ModifierFamily::Alt),
        _ => None,
    }
}

/// Maps a host key to the GUI key that stands for it. A key the GUI does not
/// know gives `None`, which is no error: such a key press produces no GUI key event.
pub fn tetra_key_to_egui_key(key: HostKey) -> (gui_key: Option<GuiKey>)
    ensures
        gui_key == gui_key_of(key),
        family_of(key) is Some ==> gui_key is None,
{
    match key {
        HostKey::A => Some(GuiKey::A),
        HostKey::B => Some(GuiKey::B),
        HostKey::C => Some(GuiKey::C),
        HostKey::D => Some(GuiKey::D),
        HostKey::E => Some(GuiKey::E),
        HostKey::F => Some(GuiKey::F),
        HostKey::G => Some(GuiKey::G),
        HostKey::H => Some(GuiKey::H),
        HostKey::I => Some(GuiKey::I),
        HostKey::J => Some(GuiKey::J),
        HostKey::K => Some(GuiKey::K),
        HostKey::L => Some(GuiKey::L),
        HostKey::M => Some(GuiKey::M),
        HostKey::N => Some(GuiKey::N),
        HostKey::O => Some(GuiKey::O),
        HostKey::P => Some(GuiKey::P),
        HostKey::Q => Some(GuiKey::Q),
        HostKey::R => Some(GuiKey::R),
        HostKey::S => Some(GuiKey::S),
        HostKey::T => Some(GuiKey::T),
        HostKey::U => Some(GuiKey::U),
        HostKey::V => Some(GuiKey::V),
        HostKey::W => Some(GuiKey::W),
        HostKey::X => Some(GuiKey::X),
        HostKey::Y => Some(GuiKey::Y),
        HostKey::Z => Some(GuiKey::Z),
        HostKey::Num0 => Some(GuiKey::Num0),
        HostKey::Num1 => Some(GuiKey::Num1),
        HostKey::Num2 => Some(GuiKey::Num2),
        HostKey::Num3 => Some(GuiKey::Num3),
        HostKey::Num4 => Some(GuiKey::Num4),
        HostKey::Num5 => Some(GuiKey::Num5),
        HostKey::Num6 => Some(GuiKey::Num6),
        HostKey::Num7 => Some(GuiKey::Num7),
        HostKey::Num8 => Some(GuiKey::Num8),
        HostKey::Num9 => Some(GuiKey::Num9),
        HostKey::NumPad0 => Some(GuiKey::Num0),
        HostKey::NumPad1 => Some(GuiKey::Num1),
        HostKey::NumPad2 => Some(GuiKey::Num2),
        HostKey::NumPad3 => Some(GuiKey::Num3),
        HostKey::NumPad4 => Some(GuiKey::Num4),
        HostKey::NumPad5 => Some(GuiKey::Num5),
        HostKey::NumPad6 => Some(GuiKey::Num6),
        HostKey::NumPad7 => Some(GuiKey::Num7),
        HostKey::NumPad8 => Some(GuiKey::Num8),
        HostKey::NumPad9 => Some(GuiKey::Num9),
        HostKey::NumPadEnter => Some(GuiKey::Enter),
        HostKey::Up => Some(GuiKey::ArrowUp),
        HostKey::Down => Some(GuiKey::ArrowDown),
        HostKey::Left => Some(GuiKey::ArrowLeft),
        HostKey::Right => Some(GuiKey::ArrowRight),
        HostKey::Backspace => Some(GuiKey::Backspace),
        HostKey::Delete => Some(GuiKey::Delete),
        HostKey::End => Some(GuiKey::End),
        HostKey::Enter => Some(GuiKey::Enter),
        HostKey::Escape => Some(GuiKey::Escape),
        HostKey::Home => Some(GuiKey::Home),
        HostKey::Insert => Some(GuiKey::Insert),
        HostKey::PageDown => Some(GuiKey::PageDown),
        HostKey::PageUp => Some(GuiKey::PageUp),
        HostKey::Space => Some(GuiKey::Space),
        HostKey::Tab => Some(GuiKey::Tab),
        _ => None,
    }
}

/// Maps a host mouse button to the GUI pointer button that stands for it.
/// The GUI knows the left, middle and right buttons only.
pub fn tetra_mouse_button_to_egui_pointer_button(button: HostMouseButton) -> (gui_button: Option<
    GuiPointerButton,
>)
    ensures
        gui_button == gui_button_of(button),
{
    match button {
        HostMouseButton::Left => Some(GuiPointerButton::Primary),
        HostMouseButton::Middle => Some(GuiPointerButton::Middle),
        HostMouseButton::Right => Some(GuiPointerButton::Secondary),
        _ => None,
    }
}

/// Tells to which modifier group a host key belongs.
pub fn modifier_family(key: HostKey) -> (family: Option<ModifierFamily>)
    ensures
        family == family_of(key),
{
    match key {
        HostKey::LeftCtrl | HostKey::RightCtrl => Some(ModifierFamily::Ctrl),
        HostKey::LeftShift | HostKey::RightShift => Some(ModifierFamily::Shift),
        HostKey::LeftAlt | HostKey::RightAlt => Some(ModifierFamily::Alt),
        _ => None,
    }
}

} // verus!
