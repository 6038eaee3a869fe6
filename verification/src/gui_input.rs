//! Translation of window input into the input of the immediate-mode GUI,
//! and of the GUI's cursor requests back to window cursors.

use vstd::prelude::*;

verus! {

/// The window system's keys that the GUI understands; every other key is `Other`.
#[derive(Clone, Copy, PartialEq, Eq, Debug)]
pub enum VirtualKeyCode {
    Key1,
    Key2,
    Key3,
    Key4,
    Key5,
    Key6,
    Key7,
    Key8,
    Key9,
    Key0,
    A,
    B,
    C,
    D,
    E,
    F,
    G,
    H,
    I,
    J,
    K,
    L,
    M,
    N,
    O,
    P,
    Q,
    R,
    S,
    T,
    U,
    V,
    W,
    X,
    Y,
    Z,
    Escape,
    Insert,
    Home,
    Delete,
    End,
    PageDown,
    PageUp,
    Left,
    Up,
    Right,
    Down,
    Back,
    Return,
    Space,
    Numpad0,
    Numpad1,
    Numpad2,
    Numpad3,
    Numpad4,
    Numpad5,
    Numpad6,
    Numpad7,
    Numpad8,
    Numpad9,
    NumpadEnter,
    Tab,
    Other,
}

/// Keys as the GUI names them.
#[derive(Clone, Copy, PartialEq, Eq, Debug)]
pub enum Key {
    Num0,
    Num1,
    Num2,
    Num3,
    Num4,
    Num5,
    Num6,
    Num7,
    Num8,
    Num9,
    A,
    B,
    C,
    D,
    E,
    F,
    G,
    H,
    I,
    J,
    K,
    L,
    M,
    N,
    O,
    P,
    Q,
    R,
    S,
    T,
    U,
    V,
    W,
    X,
    Y,
    Z,
    Escape,
    Insert,
    Home,
    Delete,
    End,
    PageDown,
    PageUp,
    ArrowLeft,
    ArrowUp,
    ArrowRight,
    ArrowDown,
    Backspace,
    Enter,
    Space,
    Tab,
}

/// The GUI key of a window key, if it has one.
pub open spec fn spec_key(code: VirtualKeyCode) -> Option<Key> {
    match code {
        VirtualKeyCode::Key1 => Some(Key::Num1),
        VirtualKeyCode::Key2 => Some(Key::Num2),
        VirtualKeyCode::Key3 => Some(Key::Num3),
        VirtualKeyCode::Key4 => Some(Key::Num4),
        VirtualKeyCode::Key5 => Some(Key::Num5),
        VirtualKeyCode::Key6 => Some(Key::Num6),
        VirtualKeyCode::Key7 => Some(Key::Num7),
        VirtualKeyCode::Key8 => Some(Key::Num8),
        VirtualKeyCode::Key9 => Some(Key::Num9),
        VirtualKeyCode::Key0 => Some(Key::Num0),
        VirtualKeyCode::A => Some(Key::A),
        VirtualKeyCode::B => Some(Key::B),
        VirtualKeyCode::C => Some(Key::C),
        VirtualKeyCode::D => Some(Key::D),
        VirtualKeyCode::E => Some(Key::E),
        VirtualKeyCode::F => Some(Key::F),
        VirtualKeyCode::G => Some(Key::G),
        VirtualKeyCode::H => Some(Key::H),
        VirtualKeyCode::I => Some(Key::I),
        VirtualKeyCode::J => Some(Key::J),
        VirtualKeyCode::K => Some(Key::K),
        VirtualKeyCode::L => Some(Key::L),
        VirtualKeyCode::M => Some(Key::M),
        VirtualKeyCode::N => Some(Key::N),
        VirtualKeyCode::O => Some(Key::O),
        VirtualKeyCode::P => Some(Key::P),
        VirtualKeyCode::Q => Some(Key::Q),
        VirtualKeyCode::R => Some(Key::R),
        VirtualKeyCode::S => Some(Key::S),
        VirtualKeyCode::T => Some(Key::T),
        VirtualKeyCode::U => Some(Key::U),
        VirtualKeyCode::V => Some(Key::V),
        VirtualKeyCode::W => Some(Key::W),
        VirtualKeyCode::X => Some(Key::X),
        VirtualKeyCode::Y => Some(Key::Y),
        VirtualKeyCode::Z => Some(Key::Z),
        VirtualKeyCode::Escape => Some(Key::Escape),
        VirtualKeyCode::Insert => Some(Key::Insert),
        VirtualKeyCode::Home => Some(Key::Home),
        VirtualKeyCode::Delete => Some(Key::Delete),
        VirtualKeyCode::End => Some(Key::End),
        VirtualKeyCode::PageDown => Some(Key::PageDown),
        VirtualKeyCode::PageUp => Some(Key::PageUp),
        VirtualKeyCode::Left => Some(Key::ArrowLeft),
        VirtualKeyCode::Up => Some(Key::ArrowUp),
        VirtualKeyCode::Right => Some(Key::ArrowRight),
        VirtualKeyCode::Down => Some(Key::ArrowDown),
        VirtualKeyCode::Back => Some(Key::Backspace),
        VirtualKeyCode::Return => Some(Key::Enter),
        VirtualKeyCode::Space => Some(Key::Space),
        VirtualKeyCode::Numpad0 => Some(Key::Num0),
        VirtualKeyCode::Numpad1 => Some(Key::Num1),
        VirtualKeyCode::Numpad2 => Some(Key::Num2),
        VirtualKeyCode::Numpad3 => Some(Key::Num3),
        VirtualKeyCode::Numpad4 => Some(Key::Num4),
        VirtualKeyCode::Numpad5 => Some(Key::Num5),
        VirtualKeyCode::Numpad6 => Some(Key::Num6),
        VirtualKeyCode::Numpad7 => Some(Key::Num7),
        VirtualKeyCode::Numpad8 => Some(Key::Num8),
        VirtualKeyCode::Numpad9 => Some(Key::Num9),
        VirtualKeyCode::NumpadEnter => Some(Key::Enter),
        VirtualKeyCode::Tab => Some(Key::Tab),
        VirtualKeyCode::Other => None,
    }
}

/// The GUI key of a window key: digits and the numeric keypad give number
/// keys, letters give letters, arrows, editing keys, Enter (also the keypad
/// Enter), Space and Tab give their GUI keys.
pub fn key(code: VirtualKeyCode) -> (k: Option<Key>)
    ensures
        k == spec_key(code),
{
    match code {
        VirtualKeyCode::Key1 => Some(Key::Num1),
        VirtualKeyCode::Key2 => Some(Key::Num2),
        VirtualKeyCode::Key3 => Some(Key::Num3),
        VirtualKeyCode::Key4 => Some(Key::Num4),
        VirtualKeyCode::Key5 => Some(Key::Num5),
        VirtualKeyCode::Key6 => Some(Key::Num6),
        VirtualKeyCode::Key7 => Some(Key::Num7),
        VirtualKeyCode::Key8 => Some(Key::Num8),
        VirtualKeyCode::Key9 => Some(Key::Num9),
        VirtualKeyCode::Key0 => Some(Key::Num0),
        VirtualKeyCode::A => Some(Key::A),
        VirtualKeyCode::B => Some(Key::B),
        VirtualKeyCode::C => Some(Key::C),
        VirtualKeyCode::D => Some(Key::D),
        VirtualKeyCode::E => Some(Key::E),
        VirtualKeyCode::F => Some(Key::F),
        VirtualKeyCode::G => Some(Key::G),
        VirtualKeyCode::H => Some(Key::H),
        VirtualKeyCode::I => Some(Key::I),
        VirtualKeyCode::J => Some(Key::J),
        VirtualKeyCode::K => Some(Key::K),
        VirtualKeyCode::L => Some(Key::L),
        VirtualKeyCode::M => Some(Key::M),
        VirtualKeyCode::N => Some(Key::N),
        VirtualKeyCode::O => Some(Key::O),
        VirtualKeyCode::P => Some(Key::P),
        VirtualKeyCode::Q => Some(Key::Q),
        VirtualKeyCode::R => Some(Key::R),
        VirtualKeyCode::S => Some(Key::S),
        VirtualKeyCode::T => Some(Key::T),
        VirtualKeyCode::U => Some(Key::U),
        VirtualKeyCode::V => Some(Key::V),
        VirtualKeyCode::W => Some(Key::W),
        VirtualKeyCode::X => Some(Key::X),
        VirtualKeyCode::Y => Some(Key::Y),
        VirtualKeyCode::Z => Some(Key::Z),
        VirtualKeyCode::Escape => Some(Key::Escape),
        VirtualKeyCode::Insert => Some(Key::Insert),
        VirtualKeyCode::Home => Some(Key::Home),
        VirtualKeyCode::Delete => Some(Key::Delete),
        VirtualKeyCode::End => Some(Key::End),
        VirtualKeyCode::PageDown => Some(Key::PageDown),
        VirtualKeyCode::PageUp => Some(Key::PageUp),
        VirtualKeyCode::Left => Some(Key::ArrowLeft),
        VirtualKeyCode::Up => Some(Key::ArrowUp),
        VirtualKeyCode::Right => Some(Key::ArrowRight),
        VirtualKeyCode::Down => Some(Key::ArrowDown),
        VirtualKeyCode::Back => Some(Key::Backspace),
        VirtualKeyCode::Return => Some(Key::Enter),
        VirtualKeyCode::Space => Some(Key::Space),
        VirtualKeyCode::Numpad0 => Some(Key::Num0),
        VirtualKeyCode::Numpad1 => Some(Key::Num1),
        VirtualKeyCode::Numpad2 => Some(Key::Num2),
        VirtualKeyCode::Numpad3 => Some(Key::Num3),
        VirtualKeyCode::Numpad4 => Some(Key::Num4),
        VirtualKeyCode::Numpad5 => Some(Key::Num5),
        VirtualKeyCode::Numpad6 => Some(Key::Num6),
        VirtualKeyCode::Numpad7 => Some(Key::Num7),
        VirtualKeyCode::Numpad8 => Some(Key::Num8),
        VirtualKeyCode::Numpad9 => Some(Key::Num9),
        VirtualKeyCode::NumpadEnter => Some(Key::Enter),
        VirtualKeyCode::Tab => Some(Key::Tab),
        VirtualKeyCode::Other => None,
    }
}

/// Modifier keys held, as the window system reports them.
#[derive(Clone, Copy, PartialEq, Eq, Debug)]
pub struct ModifiersState {
    pub alt: bool,
    pub ctrl: bool,
    pub shift: bool,
    pub logo: bool,
}

/// Modifier keys as the GUI sees them.
#[derive(Clone, Copy, PartialEq, Eq, Debug)]
pub struct Modifiers {
    pub alt: bool,
    pub ctrl: bool,
    pub shift: bool,
    pub mac_cmd: bool,
    pub command: bool,
}

/// The GUI modifiers of a window modifier state. On macOS (`mac`) the logo
/// key is the command key; elsewhere Ctrl is.
pub fn modifiers(state: ModifiersState, mac: bool) -> (m: Modifiers)
    ensures
        m.alt == state.alt,
        m.ctrl == state.ctrl,
        m.shift == state.shift,
        m.mac_cmd == (mac && state.logo),
        m.command == if mac {
            state.logo
        } else {
            state.ctrl
        },
{
    Modifiers {
        alt: state.alt,
        ctrl: state.ctrl,
        shift: state.shift,
        mac_cmd: if mac {
            state.logo
        } else {
            false
        },
        command: if mac {
            state.logo
        } else {
            state.ctrl
        },
    }
}

/// Mouse buttons as the window system reports them.
#[derive(Clone, Copy, PartialEq, Eq, Debug)]
pub enum MouseButton {
    Left,
    Right,
    Middle,
    Other(u16),
}

/// Pointer buttons as the GUI names them.
#[derive(Clone, Copy, PartialEq, Eq, Debug)]
pub enum PointerButton {
    Primary,
    Secondary,
    Middle,
}

/// The GUI button of a mouse button: left is primary, right secondary,
/// middle middle; other buttons have none.
pub fn pointer_button(button: MouseButton) -> (b: Option<PointerButton>)
    ensures
        button == MouseButton::Left ==> b == Some(PointerButton::Primary),
        button == MouseButton::Right ==> b == Some(PointerButton::Secondary),
        button == MouseButton::Middle ==> b == Some(PointerButton::Middle),
        button is Other ==> b is None,
{
    match button {
        MouseButton::Left => Some(PointerButton::Primary),
        MouseButton::Right => Some(PointerButton::Secondary),
        MouseButton::Middle => Some(PointerButton::Middle),
        MouseButton::Other(_) => None,
    }
}

/// Cursors the GUI asks for.
#[derive(Clone, Copy, PartialEq, Eq, Debug)]
pub enum GuiCursorIcon {
    Default,
    NoCursor,
    ContextMenu,
    Help,
    PointingHand,
    Progress,
    Wait,
    Cell,
    Crosshair,
    Text,
    VerticalText,
    Alias,
    Copy,
    Move,
    NoDrop,
    NotAllowed,
    Grab,
    Grabbing,
    AllScroll,
    ResizeHorizontal,
    ResizeNeSw,
    ResizeNwSe,
    ResizeVertical,
    ZoomIn,
    ZoomOut,
}

/// Cursors of the window system.
#[derive(Clone, Copy, PartialEq, Eq, Debug)]
pub enum CursorIcon {
    Default,
    ContextMenu,
    Help,
    Hand,
    Progress,
    Wait,
    Cell,
    Crosshair,
    Text,
    VerticalText,
    Alias,
    Copy,
    Move,
    NoDrop,
    NotAllowed,
    Grab,
    Grabbing,
    AllScroll,
    ColResize,
    NeswResize,
    NwseResize,
    RowResize,
    ZoomIn,
    ZoomOut,
}

/// The window cursor for a GUI cursor request; `None` hides the cursor.
pub open spec fn spec_cursor(icon: GuiCursorIcon) -> Option<CursorIcon> {
    match icon {
        GuiCursorIcon::NoCursor => None,
        GuiCursorIcon::Default => Some(CursorIcon::Default),
        GuiCursorIcon::ContextMenu => Some(CursorIcon::ContextMenu),
        GuiCursorIcon::Help => Some(CursorIcon::Help),
        GuiCursorIcon::PointingHand => Some(CursorIcon::Hand),
        GuiCursorIcon::Progress => Some(CursorIcon::Progress),
        GuiCursorIcon::Wait => Some(CursorIcon::Wait),
        GuiCursorIcon::Cell => Some(CursorIcon::Cell),
        GuiCursorIcon::Crosshair => Some(CursorIcon::Crosshair),
        GuiCursorIcon::Text => Some(CursorIcon::Text),
        GuiCursorIcon::VerticalText => Some(CursorIcon::VerticalText),
        GuiCursorIcon::Alias => Some(CursorIcon::Alias),
        GuiCursorIcon::Copy => Some(CursorIcon::Copy),
        GuiCursorIcon::Move => Some(CursorIcon::Move),
        GuiCursorIcon::NoDrop => Some(CursorIcon::NoDrop),
        GuiCursorIcon::NotAllowed => Some(CursorIcon::NotAllowed),
        GuiCursorIcon::Grab => Some(CursorIcon::Grab),
        GuiCursorIcon::Grabbing => Some(CursorIcon::Grabbing),
        GuiCursorIcon::AllScroll => Some(CursorIcon::AllScroll),
        GuiCursorIcon::ResizeHorizontal => Some(CursorIcon::ColResize),
        GuiCursorIcon::ResizeNeSw => Some(CursorIcon::NeswResize),
        GuiCursorIcon::ResizeNwSe => Some(CursorIcon::NwseResize),
        GuiCursorIcon::ResizeVertical => Some(CursorIcon::RowResize),
        GuiCursorIcon::ZoomIn => Some(CursorIcon::ZoomIn),
        GuiCursorIcon::ZoomOut => Some(CursorIcon::ZoomOut),
    }
}

/// The window cursor for a GUI cursor request; `None` means the cursor is
/// hidden.
pub fn cursor(icon: GuiCursorIcon) -> (c: Option<CursorIcon>)
    ensures
        c == spec_cursor(icon),
{
    match icon {
        GuiCursorIcon::NoCursor => None,
        GuiCursorIcon::Default => Some(CursorIcon::Default),
        GuiCursorIcon::ContextMenu => Some(CursorIcon::ContextMenu),
        GuiCursorIcon::Help => Some(CursorIcon::Help),
        GuiCursorIcon::PointingHand => Some(CursorIcon::Hand),
        GuiCursorIcon::Progress => Some(CursorIcon::Progress),
        GuiCursorIcon::Wait => Some(CursorIcon::Wait),
        GuiCursorIcon::Cell => Some(CursorIcon::Cell),
        GuiCursorIcon::Crosshair => Some(CursorIcon::Crosshair),
        GuiCursorIcon::Text => Some(CursorIcon::Text),
        GuiCursorIcon::VerticalText => Some(CursorIcon::VerticalText),
        GuiCursorIcon::Alias => Some(CursorIcon::Alias),
        GuiCursorIcon::Copy => Some(CursorIcon::Copy),
        GuiCursorIcon::Move => Some(CursorIcon::Move),
        GuiCursorIcon::NoDrop => Some(CursorIcon::NoDrop),
        GuiCursorIcon::NotAllowed => Some(CursorIcon::NotAllowed),
        GuiCursorIcon::Grab => Some(CursorIcon::Grab),
        GuiCursorIcon::Grabbing => Some(CursorIcon::Grabbing),
        GuiCursorIcon::AllScroll => Some(CursorIcon::AllScroll),
        GuiCursorIcon::ResizeHorizontal => Some(CursorIcon::ColResize),
        GuiCursorIcon::ResizeNeSw => Some(CursorIcon::NeswResize),
        GuiCursorIcon::ResizeNwSe => Some(CursorIcon::NwseResize),
        GuiCursorIcon::ResizeVertical => Some(CursorIcon::RowResize),
        GuiCursorIcon::ZoomIn => Some(CursorIcon::ZoomIn),
        GuiCursorIcon::ZoomOut => Some(CursorIcon::ZoomOut),
    }
}

/// Window input that the GUI may take.
#[derive(Clone, Copy, PartialEq, Eq, Debug)]
pub enum WindowInput {
    Character(char),
    Keyboard { code: Option<VirtualKeyCode>, pressed: bool },
    Mouse { button: MouseButton, pressed: bool },
}

/// Input handed to the GUI; the pointer position of a button event is
/// added by the caller.
#[derive(Clone, Copy, PartialEq, Eq, Debug)]
pub enum GuiEvent {
    Text(char),
    Key { key: Key, pressed: bool, modifiers: Modifiers },
    PointerButton { button: PointerButton, pressed: bool, modifiers: Modifiers },
}

/// Whether a character is an ASCII control character.
pub open spec fn is_ascii_control(c: char) -> bool {
    c <= '\u{1f}' || c == '\u{7f}'
}

/// What the GUI makes of window input: the event passed to it, if any, and
/// whether the input is consumed (hidden from the rest of the client).
/// Typed characters that are not control characters and keys the GUI knows
/// go to it only while it wants keyboard input, and are then consumed;
/// mouse buttons it knows always go to it and are consumed while it wants
/// pointer input.
pub open spec fn spec_translate(
    input: WindowInput,
    wants_keyboard: bool,
    wants_pointer: bool,
    modifiers: Modifiers,
) -> (Option<GuiEvent>, bool) {
    match input {
        WindowInput::Character(c) => if wants_keyboard && !is_ascii_control(c) {
            (Some(GuiEvent::Text(c)), true)
        } else {
            (None, false)
        },
        WindowInput::Keyboard { code, pressed } => if wants_keyboard && code is Some && spec_key(
            code->0,
        ) is Some {
            (Some(GuiEvent::Key { key: spec_key(code->0)->0, pressed, modifiers }), true)
        } else {
            (None, false)
        },
        WindowInput::Mouse { button, pressed } => match button {
            MouseButton::Left => (
                Some(GuiEvent::PointerButton { button: PointerButton::Primary, pressed, modifiers }),
                wants_pointer,
            ),
            MouseButton::Right => (
                Some(
                    GuiEvent::PointerButton { button: PointerButton::Secondary, pressed, modifiers },
                ),
                wants_pointer,
            ),
            MouseButton::Middle => (
                Some(GuiEvent::PointerButton { button: PointerButton::Middle, pressed, modifiers }),
                wants_pointer,
            ),
            MouseButton::Other(_) => (None, false),
        },
    }
}

/// Translates window input for the GUI.
pub fn translate(
    input: WindowInput,
    wants_keyboard: bool,
    wants_pointer: bool,
    modifiers: Modifiers,
) -> (r: (Option<GuiEvent>, bool))
    ensures
        r == spec_translate(input, wants_keyboard, wants_pointer, modifiers),
{
    match input {
        WindowInput::Character(c) => {
            if wants_keyboard && !(c <= '\u{1f}' || c == '\u{7f}') {
                (Some(GuiEvent::Text(c)), true)
            } else {
                (None, false)
            }
        },
        WindowInput::Keyboard { code, pressed } => {
            if wants_keyboard {
                if let Some(code) = code {
                    if let Some(key) = key(code) {
                        return (Some(GuiEvent::Key { key, pressed, modifiers }), true);
                    }
                }
            }
            (None, false)
        },
        WindowInput::Mouse { button, pressed } => {
            match pointer_button(button) {
                Some(button) => (
                    Some(GuiEvent::PointerButton { button, pressed, modifiers }),
                    wants_pointer,
                ),
                None => (None, false),
            }
        },
    }
}

/// Only input that reaches the GUI can be consumed by it.
pub proof fn lemma_consumed_input_reaches_gui(
    input: WindowInput,
    wants_keyboard: bool,
    wants_pointer: bool,
    modifiers: Modifiers,
)
    ensures
        spec_translate(input, wants_keyboard, wants_pointer, modifiers).1 ==> spec_translate(
            input,
            wants_keyboard,
            wants_pointer,
            modifiers,
        ).0 is Some,
        !wants_keyboard && !(input is Mouse) ==> !spec_translate(
            input,
            wants_keyboard,
            wants_pointer,
            modifiers,
        ).1,
{
}

/// The GUI sees window input as it came: a typed character that is not a
/// control character is its text, a key the GUI knows keeps its press
/// state and carries exactly the modifiers held with it, and a mouse button
/// keeps its press state and modifiers; while the GUI does not want the
/// keyboard, keyboard input passes it by.
pub proof fn lemma_gui_events_carry_input(
    code: VirtualKeyCode,
    c: char,
    button: MouseButton,
    pressed: bool,
    wants_keyboard: bool,
    wants_pointer: bool,
    modifiers: Modifiers,
)
    ensures
        spec_key(code) matches Some(k) ==> spec_translate(
            WindowInput::Keyboard { code: Some(code), pressed },
            true,
            wants_pointer,
            modifiers,
        ) == (Some(GuiEvent::Key { key: k, pressed, modifiers }), true),
        !(c <= '\u{1f}' || c == '\u{7f}') ==> spec_translate(
            WindowInput::Character(c),
            true,
            wants_pointer,
            modifiers,
        ) == (Some(GuiEvent::Text(c)), true),
        !wants_keyboard ==> spec_translate(
            WindowInput::Keyboard { code: Some(code), pressed },
            wants_keyboard,
            wants_pointer,
            modifiers,
        ) == (None::<GuiEvent>, false) && spec_translate(
            WindowInput::Character(c),
            wants_keyboard,
            wants_pointer,
            modifiers,
        ) == (None::<GuiEvent>, false),
        !(button is Other) ==> ({
            let r = spec_translate(
                WindowInput::Mouse { button, pressed },
                wants_keyboard,
                wants_pointer,
                modifiers,
            );
            &&& r.0 matches Some(GuiEvent::PointerButton { button: b, pressed: p, modifiers: m })
            &&& r.0->0->PointerButton_pressed == pressed
            &&& r.0->0->PointerButton_modifiers == modifiers
            &&& r.1 == wants_pointer
        }),
{
}

} // verus!
