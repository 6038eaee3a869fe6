use wosim::gui_input::{
    cursor, key, modifiers, pointer_button, translate, CursorIcon, GuiCursorIcon, GuiEvent, Key,
    Modifiers, ModifiersState, MouseButton, PointerButton, VirtualKeyCode, WindowInput,
};

fn no_modifiers() -> Modifiers {
    Modifiers { alt: false, ctrl: false, shift: false, mac_cmd: false, command: false }
}

#[test]
fn window_keys_map_to_gui_keys() {
    assert_eq!(key(VirtualKeyCode::Key0), Some(Key::Num0));
    assert_eq!(key(VirtualKeyCode::Numpad7), Some(Key::Num7));
    assert_eq!(key(VirtualKeyCode::Q), Some(Key::Q));
    assert_eq!(key(VirtualKeyCode::Back), Some(Key::Backspace));
    assert_eq!(key(VirtualKeyCode::NumpadEnter), Some(Key::Enter));
    assert_eq!(key(VirtualKeyCode::Return), Some(Key::Enter));
    assert_eq!(key(VirtualKeyCode::Left), Some(Key::ArrowLeft));
    assert_eq!(key(VirtualKeyCode::Other), None);
}

#[test]
fn command_key_depends_on_platform() {
    let state = ModifiersState { alt: true, ctrl: true, shift: false, logo: false };
    let elsewhere = modifiers(state, false);
    assert!(elsewhere.command && elsewhere.ctrl && elsewhere.alt && !elsewhere.mac_cmd);
    let mac = modifiers(state, true);
    assert!(!mac.command && !mac.mac_cmd);
    let logo = ModifiersState { alt: false, ctrl: false, shift: true, logo: true };
    let mac = modifiers(logo, true);
    assert!(mac.command && mac.mac_cmd && mac.shift);
    assert!(!modifiers(logo, false).command);
}

#[test]
fn mouse_buttons_map_to_pointer_buttons() {
    assert_eq!(pointer_button(MouseButton::Left), Some(PointerButton::Primary));
    assert_eq!(pointer_button(MouseButton::Right), Some(PointerButton::Secondary));
    assert_eq!(pointer_button(MouseButton::Middle), Some(PointerButton::Middle));
    assert_eq!(pointer_button(MouseButton::Other(4)), None);
}

#[test]
fn gui_cursors_map_to_window_cursors() {
    assert_eq!(cursor(GuiCursorIcon::NoCursor), None);
    assert_eq!(cursor(GuiCursorIcon::Default), Some(CursorIcon::Default));
    assert_eq!(cursor(GuiCursorIcon::PointingHand), Some(CursorIcon::Hand));
    assert_eq!(cursor(GuiCursorIcon::ResizeHorizontal), Some(CursorIcon::ColResize));
    assert_eq!(cursor(GuiCursorIcon::ResizeVertical), Some(CursorIcon::RowResize));
}

#[test]
fn typed_text_goes_to_gui_only_when_it_wants_keyboard() {
    let m = no_modifiers();
    assert_eq!(translate(WindowInput::Character('a'), true, false, m), (Some(GuiEvent::Text('a')), true));
    assert_eq!(translate(WindowInput::Character('a'), false, true, m), (None, false));
    assert_eq!(translate(WindowInput::Character('\u{8}'), true, false, m), (None, false));
    assert_eq!(translate(WindowInput::Character('\u{7f}'), true, false, m), (None, false));
}

#[test]
fn keys_go_to_gui_only_when_known() {
    let m = no_modifiers();
    let input = WindowInput::Keyboard { code: Some(VirtualKeyCode::Tab), pressed: true };
    assert_eq!(
        translate(input, true, false, m),
        (Some(GuiEvent::Key { key: Key::Tab, pressed: true, modifiers: m }), true)
    );
    assert_eq!(translate(input, false, false, m), (None, false));
    let unknown = WindowInput::Keyboard { code: Some(VirtualKeyCode::Other), pressed: false };
    assert_eq!(translate(unknown, true, true, m), (None, false));
    let missing = WindowInput::Keyboard { code: None, pressed: false };
    assert_eq!(translate(missing, true, true, m), (None, false));
}

#[test]
fn mouse_buttons_always_reach_gui() {
    let m = no_modifiers();
    let input = WindowInput::Mouse { button: MouseButton::Right, pressed: false };
    let event = GuiEvent::PointerButton { button: PointerButton::Secondary, pressed: false, modifiers: m };
    assert_eq!(translate(input, false, false, m), (Some(event), false));
    assert_eq!(translate(input, false, true, m), (Some(event), true));
    let other = WindowInput::Mouse { button: MouseButton::Other(9), pressed: true };
    assert_eq!(translate(other, true, true, m), (None, false));
}
