use egui_kittest::events::{
    AccessActionRequest, Button, ElementState, Key, ModifierState, NativeButton, NativeEvent,
    NativeKey, PointerPos, SimulatedEvent, button_to_native, key_to_native,
};
use egui_kittest::translate::translate_event;

fn fresh_state() -> (ModifierState, PointerPos, Vec<NativeEvent>) {
    (ModifierState::no_modifiers(), PointerPos::origin(), Vec::new())
}

fn pos_of(x: f32, y: f32) -> PointerPos {
    PointerPos { x_bits: x.to_bits(), y_bits: y.to_bits() }
}

#[test]
fn pointer_move_updates_position_and_emits() {
    let (mut m, mut p, mut out) = fresh_state();
    let target = pos_of(12.5, -3.0);
    translate_event(&mut m, &mut p, SimulatedEvent::CursorMoved { pos: target }, &mut out);
    assert_eq!(out, vec![NativeEvent::PointerMoved(target)]);
    assert_eq!(p, target);
    assert_eq!(m, ModifierState::no_modifiers());
}

#[test]
fn chord_reports_cumulative_modifiers() {
    // Modifier key-down events followed by a non-modifier key event: the key
    // event reports the state built up within the same batch.
    let (mut m, mut p, mut out) = fresh_state();
    for key in [Key::Shift, Key::Control] {
        translate_event(
            &mut m,
            &mut p,
            SimulatedEvent::KeyInput { state: ElementState::Pressed, key },
            &mut out,
        );
    }
    translate_event(
        &mut m,
        &mut p,
        SimulatedEvent::KeyInput { state: ElementState::Pressed, key: Key::Enter },
        &mut out,
    );
    assert_eq!(out.len(), 3);
    assert_eq!(
        out[2],
        NativeEvent::Key {
            key: NativeKey::Enter,
            modifiers: ModifierState { shift: true, control: true, alt: false, command: false },
            pressed: true,
            repeat: false,
        }
    );
}

#[test]
fn button_uses_latest_move_in_batch() {
    // The button event reports the moved-to position, not any earlier one.
    let (mut m, mut p, mut out) = fresh_state();
    translate_event(
        &mut m,
        &mut p,
        SimulatedEvent::CursorMoved { pos: pos_of(10.0, 10.0) },
        &mut out,
    );
    translate_event(
        &mut m,
        &mut p,
        SimulatedEvent::CursorMoved { pos: pos_of(50.0, 50.0) },
        &mut out,
    );
    translate_event(
        &mut m,
        &mut p,
        SimulatedEvent::MouseInput { state: ElementState::Pressed, button: Button::Left },
        &mut out,
    );
    assert_eq!(out.len(), 3);
    assert_eq!(
        out[2],
        NativeEvent::PointerButton {
            button: NativeButton::Primary,
            modifiers: ModifierState::no_modifiers(),
            pos: pos_of(50.0, 50.0),
            pressed: true,
        }
    );
}

#[test]
fn unmapped_ids_are_noops() {
    let (mut m, mut p, mut out) = fresh_state();
    translate_event(
        &mut m,
        &mut p,
        SimulatedEvent::MouseInput { state: ElementState::Pressed, button: Button::Other },
        &mut out,
    );
    translate_event(
        &mut m,
        &mut p,
        SimulatedEvent::KeyInput { state: ElementState::Pressed, key: Key::CapsLock },
        &mut out,
    );
    translate_event(
        &mut m,
        &mut p,
        SimulatedEvent::KeyInput { state: ElementState::Released, key: Key::Unidentified },
        &mut out,
    );
    assert!(out.is_empty());
    assert_eq!(m, ModifierState::no_modifiers());
    assert_eq!(p, PointerPos::origin());
}

#[test]
fn modifier_release_clears_flag() {
    let (mut m, mut p, mut out) = fresh_state();
    translate_event(
        &mut m,
        &mut p,
        SimulatedEvent::KeyInput { state: ElementState::Pressed, key: Key::Alt },
        &mut out,
    );
    assert!(m.alt);
    translate_event(
        &mut m,
        &mut p,
        SimulatedEvent::KeyInput { state: ElementState::Released, key: Key::Alt },
        &mut out,
    );
    assert!(!m.alt);
    assert_eq!(out.len(), 2);
    assert_eq!(
        out[1],
        NativeEvent::Key {
            key: NativeKey::Alt,
            modifiers: ModifierState::no_modifiers(),
            pressed: false,
            repeat: false,
        }
    );
}

#[test]
fn ime_text_is_verbatim() {
    let (mut m, mut p, mut out) = fresh_state();
    translate_event(
        &mut m,
        &mut p,
        SimulatedEvent::Ime(String::from("Hello, world!")),
        &mut out,
    );
    assert_eq!(out, vec![NativeEvent::Text(String::from("Hello, world!"))]);
}

#[test]
fn action_request_passes_through() {
    let (mut m, mut p, mut out) = fresh_state();
    let req = AccessActionRequest { target: 42, action: 7 };
    translate_event(&mut m, &mut p, SimulatedEvent::ActionRequest(req), &mut out);
    assert_eq!(out, vec![NativeEvent::AccessKitAction(req)]);
}

#[test]
fn key_mapping_covers_modifiers_and_drops_unsupported() {
    assert_eq!(key_to_native(Key::Control), Some(NativeKey::Control));
    assert_eq!(key_to_native(Key::Shift), Some(NativeKey::Shift));
    assert_eq!(key_to_native(Key::Alt), Some(NativeKey::Alt));
    assert_eq!(key_to_native(Key::Command), Some(NativeKey::Command));
    assert_eq!(key_to_native(Key::ArrowUp), Some(NativeKey::ArrowUp));
    assert_eq!(key_to_native(Key::CapsLock), None);
    assert_eq!(key_to_native(Key::NumLock), None);
    assert_eq!(key_to_native(Key::PrintScreen), None);
    assert_eq!(key_to_native(Key::Unidentified), None);
}

#[test]
fn button_mapping_drops_other() {
    assert_eq!(button_to_native(Button::Left), Some(NativeButton::Primary));
    assert_eq!(button_to_native(Button::Right), Some(NativeButton::Secondary));
    assert_eq!(button_to_native(Button::Middle), Some(NativeButton::Middle));
    assert_eq!(button_to_native(Button::Back), Some(NativeButton::Extra1));
    assert_eq!(button_to_native(Button::Forward), Some(NativeButton::Extra2));
    assert_eq!(button_to_native(Button::Other), None);
}
