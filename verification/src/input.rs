use crate::keys::{
    gui_button_of, gui_key_of, tetra_key_to_egui_key, tetra_mouse_button_to_egui_pointer_button,
    GuiKey, GuiPointerButton, HostKey, HostMouseButton, ModifierFamily,
};
use vstd::prelude::*;

verus! {

/// How far one notch of the wheel scrolls, in GUI points.
pub const SCROLL_SENSITIVITY: i64 = 48;

/// One notch of the wheel, with the zoom key held, scales the view by this
/// fraction: numerator first, denominator second.
pub const ZOOM_SENSITIVITY: (u32, u32) = (5, 4);

/// The modifier flags as the GUI takes them: one flag for each group of
/// modifier keys, set while a key of the group is held.
#[derive(Clone, Copy, Debug, PartialEq, Eq, Structural)]
pub struct ModifierState {
    pub alt: bool,
    pub ctrl: bool,
    pub shift: bool,
    /// The key for shortcuts. On this host it is the control key.
    pub command: bool,
}

impl ModifierState {
    /// No modifier held.
    pub open spec fn released() -> Self {
        ModifierState { alt: false, ctrl: false, shift: false, command: false }
    }

    /// The flag of one group.
    pub open spec fn flag(self, family: ModifierFamily) -> bool {
        match family {
            ModifierFamily::Ctrl => self.ctrl,
            ModifierFamily::Shift => self.shift,
            ModifierFamily::Alt => self.alt,
        }
    }

    pub fn new() -> (state: Self)
        ensures
            state == Self::released(),
    {
        ModifierState { alt: false, ctrl: false, shift: false, command: false }
    }
}

/// Which of the six modifier keys are down, key by key. A group has a left
/// and a right key, and its flag in `ModifierState` must stay set until both
/// are up, so each key is remembered on its own. It lives as long as the
/// bridge: keys stay held across frames.
#[derive(Clone, Copy, Debug, PartialEq, Eq, Structural)]
pub struct HeldModifiers {
    pub left_ctrl: bool,
    pub right_ctrl: bool,
    pub left_shift: bool,
    pub right_shift: bool,
    pub left_alt: bool,
    pub right_alt: bool,
}

impl HeldModifiers {
    /// No modifier key down.
    pub open spec fn released() -> Self {
        HeldModifiers {
            left_ctrl: false,
            right_ctrl: false,
            left_shift: false,
            right_shift: false,
            left_alt: false,
            right_alt: false,
        }
    }

    /// The keys down after `key` went down (`pressed`) or up. Only a modifier
    /// key changes anything, and only its own entry.
    pub open spec fn after(self, key: HostKey, pressed: bool) -> Self {
        match key {
            HostKey::LeftCtrl => HeldModifiers { left_ctrl: pressed, ..self },
            HostKey::RightCtrl => HeldModifiers { right_ctrl: pressed, ..self },
            HostKey::LeftShift => HeldModifiers { left_shift: pressed, ..self },
            HostKey::RightShift => HeldModifiers { right_shift: pressed, ..self },
            HostKey::LeftAlt => HeldModifiers { left_alt: pressed, ..self },
            HostKey::RightAlt => HeldModifiers { right_alt: pressed, ..self },
            _ => self,
        }
    }

    /// Whether this key is down. A key that is no modifier key is never
    /// counted.
    pub open spec fn down(self, key: HostKey) -> bool {
        match key {
            HostKey::LeftCtrl => self.left_ctrl,
            HostKey::RightCtrl => self.right_ctrl,
            HostKey::LeftShift => self.left_shift,
            HostKey::RightShift => self.right_shift,
            HostKey::LeftAlt => self.left_alt,
            HostKey::RightAlt => self.right_alt,
            _ => false,
        }
    }

    /// The flags for the GUI: the flag of a group is set exactly when its
    /// left or its right key is down. The shortcut flag goes with control.
    pub open spec fn flags(self) -> ModifierState {
        ModifierState {
            alt: self.left_alt || self.right_alt,
            ctrl: self.left_ctrl || self.right_ctrl,
            shift: self.left_shift || self.right_shift,
            command: self.left_ctrl || self.right_ctrl,
        }
    }

    pub fn new() -> (keys: Self)
        ensures
            keys == Self::released(),
    {
        HeldModifiers {
            left_ctrl: false,
            right_ctrl: false,
            left_shift: false,
            right_shift: false,
            left_alt: false,
            right_alt: false,
        }
    }

    /// Records that `key` went down (`pressed`) or up.
    pub fn apply_key(&mut self, key: HostKey, pressed: bool)
        ensures
            *final(self) == old(self).after(key, pressed),
    {
        match key {
            HostKey::LeftCtrl => {
                self.left_ctrl = pressed;
            },
            HostKey::RightCtrl => {
                self.right_ctrl = pressed;
            },
            HostKey::LeftShift => {
                self.left_shift = pressed;
            },
            HostKey::RightShift => {
                self.right_shift = pressed;
            },
            HostKey::LeftAlt => {
                self.left_alt = pressed;
            },
            HostKey::RightAlt => {
                self.right_alt = pressed;
            },
            _ => {},
        }
    }

    /// The flags for the GUI.
    pub fn state(&self) -> (state: ModifierState)
        ensures
            state == self.flags(),
    {
        ModifierState {
            alt: self.left_alt || self.right_alt,
            ctrl: self.left_ctrl || self.right_ctrl,
            shift: self.left_shift || self.right_shift,
            command: self.left_ctrl || self.right_ctrl,
        }
    }
}

/// A pointer position in GUI points. Each coordinate is kept as the bit
/// pattern of a single-precision number; the bridge hands positions on and
/// never computes with them.
#[derive(Clone, Copy, Debug, PartialEq, Eq, Structural)]
pub struct PointerPos {
    pub x_bits: u32,
    pub y_bits: u32,
}

/// What the bridge reads of an event of the host.
#[derive(Clone, Debug, PartialEq, Eq)]
pub enum HostEvent {
    KeyPressed { key: HostKey },
    KeyReleased { key: HostKey },
    MouseButtonPressed { button: HostMouseButton },
    MouseButtonReleased { button: HostMouseButton },
    MouseMoved { position: PointerPos },
    /// The wheel moved by whole notches.
    MouseWheelMoved { amount_x: i32, amount_y: i32 },
    TextInput { text: String },
    /// A window, gamepad or file event: the GUI takes no notice of these.
    Other,
}

/// What the host knows at the moment an event arrives, beyond the event.
#[derive(Clone, Copy, Debug, PartialEq, Eq, Structural)]
pub struct HostInput {
    /// Whether the left or the right control key is down.
    pub ctrl_down: bool,
    /// Where the pointer is.
    pub pointer: PointerPos,
}

/// The outcome of reading the text of the host clipboard.
#[derive(Clone, Debug, PartialEq, Eq)]
pub enum ClipboardRead {
    /// The clipboard was left alone.
    NotRead,
    Text(String),
    /// The clipboard could not be read; the host's words on why.
    Failed(String),
}

/// Why a paste got no text.
#[derive(Clone, Debug, PartialEq, Eq)]
pub enum ClipboardError {
    /// The text was needed and the clipboard had not been read.
    NotRead,
    /// The host failed to hand out the text, or to take it; its words on why.
    Failed(String),
}

/// An input event in the words of the GUI.
#[derive(Clone, Debug, PartialEq, Eq)]
pub enum GuiEvent {
    /// The user asks to copy the selection.
    Copy,
    /// The user asks to cut the selection.
    Cut,
    /// The user pastes this text.
    Paste(String),
    /// The user typed this text.
    Text(String),
    Key { key: GuiKey, pressed: bool, modifiers: ModifierState },
    PointerMoved(PointerPos),
    PointerButton { pos: PointerPos, button: GuiPointerButton, pressed: bool, modifiers: ModifierState },
    /// Scroll by this many points.
    Scroll { dx: i64, dy: i64 },
    /// Scale the view by `ZOOM_SENSITIVITY` to the power of `exponent`.
    Zoom { exponent: i32 },
}

/// Whether translating the event calls for the text of the clipboard: it does
/// for a press of V while a control key is down, the paste shortcut.
pub open spec fn needs_clipboard(event: HostEvent, host: HostInput) -> bool {
    event == (HostEvent::KeyPressed { key: HostKey::V }) && host.ctrl_down
}

/// Whether the event is a paste that got no text.
pub open spec fn paste_fails(event: HostEvent, host: HostInput, clipboard: ClipboardRead) -> bool {
    needs_clipboard(event, host) && !(clipboard is Text)
}

/// The error of a read that gave no text.
pub open spec fn read_error(clipboard: ClipboardRead) -> ClipboardError {
    match clipboard {
        ClipboardRead::Failed(why) => ClipboardError::Failed(why),
        _ => ClipboardError::NotRead,
    }
}

/// The modifier keys down once the event is taken in.
pub open spec fn modifiers_after(modifiers: HeldModifiers, event: HostEvent) -> HeldModifiers {
    match event {
        HostEvent::KeyPressed { key } => modifiers.after(key, true),
        HostEvent::KeyReleased { key } => modifiers.after(key, false),
        _ => modifiers,
    }
}

/// The clipboard intent of a key press: copy, cut or paste, for C, X or V
/// while a control key is down.
pub open spec fn clipboard_intent(key: HostKey, host: HostInput, clipboard: ClipboardRead) -> Seq<
    GuiEvent,
> {
    if !host.ctrl_down {
        seq![]
    } else {
        match key {
            HostKey::C => seq![GuiEvent::Copy],
            HostKey::X => seq![GuiEvent::Cut],
            HostKey::V => match clipboard {
                ClipboardRead::Text(text) => seq![GuiEvent::Paste(text)],
                _ => seq![],
            },
            _ => seq![],
        }
    }
}

/// The GUI key event of a host key, if the GUI knows the key.
pub open spec fn key_event(key: HostKey, pressed: bool, modifiers: ModifierState) -> Seq<GuiEvent> {
    match gui_key_of(key) {
        Some(gui_key) => seq![GuiEvent::Key { key: gui_key, pressed, modifiers }],
        None => seq![],
    }
}

/// The GUI pointer event of a host mouse button, if the GUI knows the button.
pub open spec fn button_event(
    button: HostMouseButton,
    pressed: bool,
    pos: PointerPos,
    modifiers: ModifierState,
) -> Seq<GuiEvent> {
    match gui_button_of(button) {
        Some(gui_button) => seq![
            GuiEvent::PointerButton { pos, button: gui_button, pressed, modifiers },
        ],
        None => seq![],
    }
}

/// The GUI event of a wheel movement: a zoom while a control key is down, a
/// scroll otherwise, never both.
pub open spec fn wheel_event(amount_x: i32, amount_y: i32, host: HostInput) -> GuiEvent {
    if host.ctrl_down {
        GuiEvent::Zoom { exponent: amount_y }
    } else {
        GuiEvent::Scroll {
            dx: (SCROLL_SENSITIVITY * amount_x) as i64,
            dy: (SCROLL_SENSITIVITY * amount_y) as i64,
        }
    }
}

/// The GUI events that a host event gives rise to, in order. `modifiers` are
/// the keys down before the event. A key event carries the flags after it, so
/// the press of a modifier key already counts that key.
pub open spec fn translation(
    modifiers: HeldModifiers,
    host: HostInput,
    event: HostEvent,
    clipboard: ClipboardRead,
) -> Seq<GuiEvent> {
    match event {
        HostEvent::KeyPressed { key } => clipboard_intent(key, host, clipboard) + key_event(
            key,
            true,
            modifiers.after(key, true).flags(),
        ),
        HostEvent::KeyReleased { key } => key_event(
            key,
            false,
            modifiers.after(key, false).flags(),
        ),
        HostEvent::MouseButtonPressed { button } => button_event(
            button,
            true,
            host.pointer,
            modifiers.flags(),
        ),
        HostEvent::MouseButtonReleased { button } => button_event(
            button,
            false,
            host.pointer,
            modifiers.flags(),
        ),
        HostEvent::MouseMoved { position } => seq![GuiEvent::PointerMoved(position)],
        HostEvent::MouseWheelMoved { amount_x, amount_y } => seq![
            wheel_event(amount_x, amount_y, host),
        ],
        HostEvent::TextInput { text } => seq![GuiEvent::Text(text)],
        HostEvent::Other => seq![],
    }
}

/// Tells whether translating `event` calls for the text of the clipboard.
/// The caller reads the clipboard when it does, and only then.
pub fn needs_clipboard_text(event: &HostEvent, host: &HostInput) -> (needed: bool)
    ensures
        needed == needs_clipboard(*event, *host),
{
    match event {
        HostEvent::KeyPressed { key } => host.ctrl_down && matches!(key, HostKey::V),
        _ => false,
    }
}

/// Translates one host event: brings `modifiers` up to date and appends the
/// GUI events that the event gives rise to.
///
/// It fails only for a paste without text (the clipboard was not read, or the
/// read failed): then nothing is appended, the key event of the V included.
pub fn translate(
    modifiers: &mut HeldModifiers,
    events: &mut Vec<GuiEvent>,
    host: &HostInput,
    event: &HostEvent,
    clipboard: ClipboardRead,
) -> (result: Result<(), ClipboardError>)
    ensures
        *final(modifiers) == modifiers_after(*old(modifiers), *event),
        paste_fails(*event, *host, clipboard) ==> {
            &&& result == Err::<(), ClipboardError>(read_error(clipboard))
            &&& final(events)@ == old(events)@
        },
        !paste_fails(*event, *host, clipboard) ==> {
            &&& result is Ok
            &&& final(events)@ == old(events)@ + translation(
                *old(modifiers),
                *host,
                *event,
                clipboard,
            )
        },
{
    match event {
        HostEvent::KeyPressed { key } => {
            modifiers.apply_key(*key, true);
            if host.ctrl_down {
                match key {
                    HostKey::C => {
                        events.push(GuiEvent::Copy);
                    },
                    HostKey::X => {
                        events.push(GuiEvent::Cut);
                    },
                    HostKey::V => {
                        match clipboard {
                            ClipboardRead::Text(text) => {
                                events.push(GuiEvent::Paste(text));
                            },
                            ClipboardRead::Failed(why) => {
                                return Err(ClipboardError::Failed(why));
                            },
                            ClipboardRead::NotRead => {
                                return Err(ClipboardError::NotRead);
                            },
                        }
                    },
                    _ => {},
                }
            }
            if let Some(gui_key) = tetra_key_to_egui_key(*key) {
                events.push(GuiEvent::Key { key: gui_key, pressed: true, modifiers: modifiers.state() });
            }
        },
        HostEvent::KeyReleased { key } => {
            modifiers.apply_key(*key, false);
            if let Some(gui_key) = tetra_key_to_egui_key(*key) {
                events.push(GuiEvent::Key { key: gui_key, pressed: false, modifiers: modifiers.state() });
            }
        },
        HostEvent::MouseButtonPressed { button } => {
            if let Some(gui_button) = tetra_mouse_button_to_egui_pointer_button(*button) {
                events.push(
                    GuiEvent::PointerButton {
                        pos: host.pointer,
                        button: gui_button,
                        pressed: true,
                        modifiers: modifiers.state(),
                    },
                );
            }
        },
        HostEvent::MouseButtonReleased { button } => {
            if let Some(gui_button) = tetra_mouse_button_to_egui_pointer_button(*button) {
                events.push(
                    GuiEvent::PointerButton {
                        pos: host.pointer,
                        button: gui_button,
                        pressed: false,
                        modifiers: modifiers.state(),
                    },
                );
            }
        },
        HostEvent::MouseMoved { position } => {
            events.push(GuiEvent::PointerMoved(*position));
        },
        HostEvent::MouseWheelMoved { amount_x, amount_y } => {
            if host.ctrl_down {
                events.push(GuiEvent::Zoom { exponent: *amount_y });
            } else {
                let dx: i64 = SCROLL_SENSITIVITY * (*amount_x as i64);
                let dy: i64 = SCROLL_SENSITIVITY * (*amount_y as i64);
                events.push(GuiEvent::Scroll { dx, dy });
            }
        },
        HostEvent::TextInput { text } => {
            events.push(GuiEvent::Text(text.clone()));
        },
        HostEvent::Other => {},
    }
    Ok(())
}

} // verus!
