use egui_tetra::input::{
    needs_clipboard_text, translate, ClipboardError, ClipboardRead, GuiEvent, HeldModifiers,
    HostEvent, HostInput, ModifierState, PointerPos, SCROLL_SENSITIVITY, ZOOM_SENSITIVITY,
};
use egui_tetra::keys::{GuiKey, GuiPointerButton, HostKey, HostMouseButton};

fn host(ctrl_down: bool) -> HostInput {
    HostInput { ctrl_down, pointer: PointerPos { x_bits: 11, y_bits: 22 } }
}

fn none() -> ModifierState {
    ModifierState { alt: false, ctrl: false, shift: false, command: false }
}

fn up() -> HeldModifiers {
    HeldModifiers {
        left_ctrl: false,
        right_ctrl: false,
        left_shift: false,
        right_shift: false,
        left_alt: false,
        right_alt: false,
    }
}

fn ctrl_held() -> HeldModifiers {
    HeldModifiers { left_ctrl: true, ..up() }
}

fn run(
    modifiers: &mut HeldModifiers,
    host: HostInput,
    event: HostEvent,
    clipboard: ClipboardRead,
) -> (Result<(), ClipboardError>, Vec<GuiEvent>) {
    let mut events = Vec::new();
    let result = translate(modifiers, &mut events, &host, &event, clipboard);
    (result, events)
}

#[test]
fn sensitivity_constants() {
    assert_eq!(SCROLL_SENSITIVITY, 48);
    assert_eq!(ZOOM_SENSITIVITY, (5, 4));
}

#[test]
fn key_press_of_a_letter_gives_a_key_event() {
    let mut modifiers = up();
    let (result, events) = run(
        &mut modifiers,
        host(false),
        HostEvent::KeyPressed { key: HostKey::A },
        ClipboardRead::NotRead,
    );
    assert_eq!(result, Ok(()));
    assert_eq!(events, vec![GuiEvent::Key { key: GuiKey::A, pressed: true, modifiers: none() }]);
    assert_eq!(modifiers, up());
}

#[test]
fn key_release_gives_a_key_event() {
    let mut modifiers = up();
    let (result, events) = run(
        &mut modifiers,
        host(false),
        HostEvent::KeyReleased { key: HostKey::Tab },
        ClipboardRead::NotRead,
    );
    assert_eq!(result, Ok(()));
    assert_eq!(events, vec![GuiEvent::Key { key: GuiKey::Tab, pressed: false, modifiers: none() }]);
}

#[test]
fn unknown_key_gives_no_event_and_no_error() {
    let mut modifiers = up();
    let (result, events) = run(
        &mut modifiers,
        host(false),
        HostEvent::KeyPressed { key: HostKey::F5 },
        ClipboardRead::NotRead,
    );
    assert_eq!(result, Ok(()));
    assert_eq!(events, vec![]);
}

#[test]
fn control_press_sets_ctrl_and_command() {
    let mut modifiers = up();
    let (result, events) = run(
        &mut modifiers,
        host(true),
        HostEvent::KeyPressed { key: HostKey::LeftCtrl },
        ClipboardRead::NotRead,
    );
    assert_eq!(result, Ok(()));
    assert_eq!(events, vec![]);
    assert_eq!(modifiers, ctrl_held());
    assert_eq!(
        modifiers.state(),
        ModifierState { alt: false, ctrl: true, shift: false, command: true }
    );
}

#[test]
fn key_event_carries_the_modifiers_after_the_event() {
    let mut modifiers = up();
    let mut events = Vec::new();
    let h = host(false);
    translate(&mut modifiers, &mut events, &h, &HostEvent::KeyPressed { key: HostKey::RightShift }, ClipboardRead::NotRead).unwrap();
    translate(&mut modifiers, &mut events, &h, &HostEvent::KeyPressed { key: HostKey::LeftAlt }, ClipboardRead::NotRead).unwrap();
    translate(&mut modifiers, &mut events, &h, &HostEvent::KeyPressed { key: HostKey::Q }, ClipboardRead::NotRead).unwrap();
    translate(&mut modifiers, &mut events, &h, &HostEvent::KeyReleased { key: HostKey::RightShift }, ClipboardRead::NotRead).unwrap();
    translate(&mut modifiers, &mut events, &h, &HostEvent::KeyReleased { key: HostKey::Q }, ClipboardRead::NotRead).unwrap();
    let shift_alt = ModifierState { alt: true, ctrl: false, shift: true, command: false };
    let alt = ModifierState { alt: true, ctrl: false, shift: false, command: false };
    assert_eq!(
        events,
        vec![
            GuiEvent::Key { key: GuiKey::Q, pressed: true, modifiers: shift_alt },
            GuiEvent::Key { key: GuiKey::Q, pressed: false, modifiers: alt },
        ]
    );
    assert_eq!(modifiers.state(), alt);
    assert_eq!(modifiers, HeldModifiers { left_alt: true, ..up() });
}

#[test]
fn modifiers_follow_presses_and_releases_between_other_keys() {
    let mut modifiers = up();
    let mut events = Vec::new();
    let h = host(false);
    let steps = [
        (HostKey::A, true),
        (HostKey::LeftCtrl, true),
        (HostKey::B, true),
        (HostKey::A, false),
        (HostKey::LeftShift, true),
        (HostKey::B, false),
        (HostKey::LeftCtrl, false),
        (HostKey::RightAlt, true),
        (HostKey::Space, true),
    ];
    for (key, pressed) in steps {
        let event = if pressed { HostEvent::KeyPressed { key } } else { HostEvent::KeyReleased { key } };
        translate(&mut modifiers, &mut events, &h, &event, ClipboardRead::NotRead).unwrap();
    }
    assert_eq!(
        modifiers.state(),
        ModifierState { alt: true, ctrl: false, shift: true, command: false }
    );
    assert_eq!(modifiers, HeldModifiers { left_shift: true, right_alt: true, ..up() });
}

#[test]
fn flag_stays_set_until_both_keys_of_a_group_are_up() {
    let held_flags = |ctrl: bool, shift: bool, alt: bool| ModifierState {
        alt,
        ctrl,
        shift,
        command: ctrl,
    };
    let mut modifiers = up();
    let mut events = Vec::new();
    let h = host(true);
    let mut step = |modifiers: &mut HeldModifiers, key: HostKey, pressed: bool| {
        let event = if pressed { HostEvent::KeyPressed { key } } else { HostEvent::KeyReleased { key } };
        translate(modifiers, &mut events, &h, &event, ClipboardRead::NotRead).unwrap();
        modifiers.state()
    };
    assert_eq!(step(&mut modifiers, HostKey::LeftCtrl, true), held_flags(true, false, false));
    assert_eq!(step(&mut modifiers, HostKey::RightCtrl, true), held_flags(true, false, false));
    assert_eq!(step(&mut modifiers, HostKey::LeftCtrl, false), held_flags(true, false, false));
    assert_eq!(step(&mut modifiers, HostKey::RightCtrl, false), held_flags(false, false, false));

    assert_eq!(step(&mut modifiers, HostKey::LeftShift, true), held_flags(false, true, false));
    assert_eq!(step(&mut modifiers, HostKey::RightShift, true), held_flags(false, true, false));
    assert_eq!(step(&mut modifiers, HostKey::LeftShift, false), held_flags(false, true, false));
    assert_eq!(step(&mut modifiers, HostKey::RightShift, false), held_flags(false, false, false));

    assert_eq!(step(&mut modifiers, HostKey::RightAlt, true), held_flags(false, false, true));
    assert_eq!(step(&mut modifiers, HostKey::LeftAlt, true), held_flags(false, false, true));
    assert_eq!(step(&mut modifiers, HostKey::RightAlt, false), held_flags(false, false, true));
    assert_eq!(step(&mut modifiers, HostKey::LeftAlt, false), held_flags(false, false, false));
    assert_eq!(modifiers, up());
}

#[test]
fn key_event_shows_shift_while_the_other_shift_key_is_held() {
    let mut modifiers = up();
    let mut events = Vec::new();
    let h = host(false);
    for event in [
        HostEvent::KeyPressed { key: HostKey::LeftShift },
        HostEvent::KeyPressed { key: HostKey::RightShift },
        HostEvent::KeyReleased { key: HostKey::LeftShift },
        HostEvent::KeyPressed { key: HostKey::A },
    ] {
        translate(&mut modifiers, &mut events, &h, &event, ClipboardRead::NotRead).unwrap();
    }
    assert_eq!(
        events,
        vec![GuiEvent::Key {
            key: GuiKey::A,
            pressed: true,
            modifiers: ModifierState { alt: false, ctrl: false, shift: true, command: false },
        }]
    );
}

#[test]
fn control_c_gives_copy_before_the_key_event() {
    let mut modifiers = ctrl_held();
    let before = modifiers.state();
    let (result, events) = run(
        &mut modifiers,
        host(true),
        HostEvent::KeyPressed { key: HostKey::C },
        ClipboardRead::NotRead,
    );
    assert_eq!(result, Ok(()));
    assert_eq!(
        events,
        vec![GuiEvent::Copy, GuiEvent::Key { key: GuiKey::C, pressed: true, modifiers: before }]
    );
}

#[test]
fn control_x_gives_cut_before_the_key_event() {
    let mut modifiers = ctrl_held();
    let before = modifiers.state();
    let (result, events) = run(
        &mut modifiers,
        host(true),
        HostEvent::KeyPressed { key: HostKey::X },
        ClipboardRead::NotRead,
    );
    assert_eq!(result, Ok(()));
    assert_eq!(
        events,
        vec![GuiEvent::Cut, GuiEvent::Key { key: GuiKey::X, pressed: true, modifiers: before }]
    );
}

#[test]
fn control_v_pastes_the_clipboard_text() {
    let mut modifiers = ctrl_held();
    let before = modifiers.state();
    let (result, events) = run(
        &mut modifiers,
        host(true),
        HostEvent::KeyPressed { key: HostKey::V },
        ClipboardRead::Text(String::from("pasted")),
    );
    assert_eq!(result, Ok(()));
    assert_eq!(
        events,
        vec![
            GuiEvent::Paste(String::from("pasted")),
            GuiEvent::Key { key: GuiKey::V, pressed: true, modifiers: before },
        ]
    );
}

#[test]
fn paste_fails_when_the_clipboard_read_failed() {
    let mut modifiers = up();
    let (result, events) = run(
        &mut modifiers,
        host(true),
        HostEvent::KeyPressed { key: HostKey::V },
        ClipboardRead::Failed(String::from("no display")),
    );
    assert_eq!(result, Err(ClipboardError::Failed(String::from("no display"))));
    assert_eq!(events, vec![]);
    assert_eq!(modifiers, up());
}

#[test]
fn paste_fails_when_the_clipboard_was_not_read() {
    let mut modifiers = up();
    let (result, events) = run(
        &mut modifiers,
        host(true),
        HostEvent::KeyPressed { key: HostKey::V },
        ClipboardRead::NotRead,
    );
    assert_eq!(result, Err(ClipboardError::NotRead));
    assert_eq!(events, vec![]);
}

#[test]
fn failed_paste_keeps_what_waited_before() {
    let mut modifiers = up();
    let mut events = vec![GuiEvent::Copy];
    let result = translate(
        &mut modifiers,
        &mut events,
        &host(true),
        &HostEvent::KeyPressed { key: HostKey::V },
        ClipboardRead::NotRead,
    );
    assert_eq!(result, Err(ClipboardError::NotRead));
    assert_eq!(events, vec![GuiEvent::Copy]);
}

#[test]
fn plain_v_needs_no_clipboard() {
    let mut modifiers = up();
    let (result, events) = run(
        &mut modifiers,
        host(false),
        HostEvent::KeyPressed { key: HostKey::V },
        ClipboardRead::NotRead,
    );
    assert_eq!(result, Ok(()));
    assert_eq!(events, vec![GuiEvent::Key { key: GuiKey::V, pressed: true, modifiers: none() }]);
}

#[test]
fn letters_without_control_give_no_clipboard_intent() {
    let mut modifiers = up();
    let (_, events) = run(
        &mut modifiers,
        host(false),
        HostEvent::KeyPressed { key: HostKey::C },
        ClipboardRead::Text(String::from("ignored")),
    );
    assert_eq!(events, vec![GuiEvent::Key { key: GuiKey::C, pressed: true, modifiers: none() }]);
}

#[test]
fn release_of_c_with_control_gives_no_copy() {
    let mut modifiers = up();
    let (_, events) = run(
        &mut modifiers,
        host(true),
        HostEvent::KeyReleased { key: HostKey::C },
        ClipboardRead::NotRead,
    );
    assert_eq!(events, vec![GuiEvent::Key { key: GuiKey::C, pressed: false, modifiers: none() }]);
}

#[test]
fn clipboard_is_needed_for_control_v_only() {
    let v = HostEvent::KeyPressed { key: HostKey::V };
    assert!(needs_clipboard_text(&v, &host(true)));
    assert!(!needs_clipboard_text(&v, &host(false)));
    assert!(!needs_clipboard_text(&HostEvent::KeyReleased { key: HostKey::V }, &host(true)));
    assert!(!needs_clipboard_text(&HostEvent::KeyPressed { key: HostKey::C }, &host(true)));
    assert!(!needs_clipboard_text(&HostEvent::TextInput { text: String::from("v") }, &host(true)));
    assert!(!needs_clipboard_text(&HostEvent::Other, &host(true)));
}

#[test]
fn mouse_button_takes_the_pointer_position_of_the_host() {
    let mut modifiers = HeldModifiers { right_shift: true, ..up() };
    let before = modifiers.state();
    let (result, events) = run(
        &mut modifiers,
        host(false),
        HostEvent::MouseButtonPressed { button: HostMouseButton::Left },
        ClipboardRead::NotRead,
    );
    assert_eq!(result, Ok(()));
    assert_eq!(
        events,
        vec![GuiEvent::PointerButton {
            pos: PointerPos { x_bits: 11, y_bits: 22 },
            button: GuiPointerButton::Primary,
            pressed: true,
            modifiers: before,
        }]
    );
}

#[test]
fn mouse_button_release() {
    let mut modifiers = up();
    let (_, events) = run(
        &mut modifiers,
        host(false),
        HostEvent::MouseButtonReleased { button: HostMouseButton::Right },
        ClipboardRead::NotRead,
    );
    assert_eq!(
        events,
        vec![GuiEvent::PointerButton {
            pos: PointerPos { x_bits: 11, y_bits: 22 },
            button: GuiPointerButton::Secondary,
            pressed: false,
            modifiers: none(),
        }]
    );
}

#[test]
fn unknown_mouse_button_gives_no_event() {
    let mut modifiers = up();
    let (result, events) = run(
        &mut modifiers,
        host(false),
        HostEvent::MouseButtonPressed { button: HostMouseButton::X2 },
        ClipboardRead::NotRead,
    );
    assert_eq!(result, Ok(()));
    assert_eq!(events, vec![]);
}

#[test]
fn mouse_move_takes_the_position_of_the_event() {
    let mut modifiers = up();
    let position = PointerPos { x_bits: 50f32.to_bits(), y_bits: 50f32.to_bits() };
    let (_, events) = run(
        &mut modifiers,
        host(false),
        HostEvent::MouseMoved { position },
        ClipboardRead::NotRead,
    );
    assert_eq!(events, vec![GuiEvent::PointerMoved(position)]);
}

#[test]
fn wheel_scrolls_by_the_sensitivity() {
    let mut modifiers = up();
    let (_, events) = run(
        &mut modifiers,
        host(false),
        HostEvent::MouseWheelMoved { amount_x: 2, amount_y: -3 },
        ClipboardRead::NotRead,
    );
    assert_eq!(events, vec![GuiEvent::Scroll { dx: 96, dy: -144 }]);
}

#[test]
fn wheel_at_the_limits_does_not_overflow() {
    let mut modifiers = up();
    let (_, events) = run(
        &mut modifiers,
        host(false),
        HostEvent::MouseWheelMoved { amount_x: i32::MAX, amount_y: i32::MIN },
        ClipboardRead::NotRead,
    );
    assert_eq!(events, vec![GuiEvent::Scroll { dx: 103_079_215_056, dy: -103_079_215_104 }]);
}

#[test]
fn wheel_with_control_zooms_and_does_not_scroll() {
    let mut modifiers = up();
    let (_, events) = run(
        &mut modifiers,
        host(true),
        HostEvent::MouseWheelMoved { amount_x: 7, amount_y: -3 },
        ClipboardRead::NotRead,
    );
    assert_eq!(events, vec![GuiEvent::Zoom { exponent: -3 }]);
}

#[test]
fn text_input_is_handed_on() {
    let mut modifiers = up();
    let (_, events) = run(
        &mut modifiers,
        host(true),
        HostEvent::TextInput { text: String::from("héllo") },
        ClipboardRead::NotRead,
    );
    assert_eq!(events, vec![GuiEvent::Text(String::from("héllo"))]);
}

#[test]
fn other_events_give_nothing() {
    let mut modifiers = HeldModifiers {
        left_ctrl: true,
        right_ctrl: true,
        left_shift: true,
        right_shift: true,
        left_alt: true,
        right_alt: true,
    };
    let before = modifiers;
    let (result, events) = run(&mut modifiers, host(true), HostEvent::Other, ClipboardRead::NotRead);
    assert_eq!(result, Ok(()));
    assert_eq!(events, vec![]);
    assert_eq!(modifiers, before);
}

#[test]
fn modifier_state_starts_released() {
    assert_eq!(ModifierState::new(), none());
    assert_eq!(HeldModifiers::new(), up());
    assert_eq!(HeldModifiers::new().state(), none());
}

#[test]
fn apply_key_changes_only_the_entry_of_the_key() {
    let mut modifiers = HeldModifiers { left_alt: true, ..up() };
    modifiers.apply_key(HostKey::RightCtrl, true);
    assert_eq!(modifiers, HeldModifiers { left_alt: true, right_ctrl: true, ..up() });
    assert_eq!(
        modifiers.state(),
        ModifierState { alt: true, ctrl: true, shift: false, command: true }
    );
    modifiers.apply_key(HostKey::LeftAlt, false);
    assert_eq!(modifiers, HeldModifiers { right_ctrl: true, ..up() });
    modifiers.apply_key(HostKey::K, true);
    assert_eq!(modifiers, HeldModifiers { right_ctrl: true, ..up() });
    modifiers.apply_key(HostKey::LeftCtrl, false);
    assert_eq!(
        modifiers.state(),
        ModifierState { alt: false, ctrl: true, shift: false, command: true }
    );
}
