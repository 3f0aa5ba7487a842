//! The event vocabulary: simulated user actions as the accessibility query
//! engine produces them, native input events as the application under test
//! consumes them, and the key/button mappings between the two.

use vstd::prelude::*;

verus! {

/// The four independent modifier flags owned by a harness instance.
#[derive(Clone, Copy, Debug, PartialEq, Eq, Structural)]
pub struct ModifierState {
    pub shift: bool,
    pub control: bool,
    pub alt: bool,
    pub command: bool,
}

impl ModifierState {
    /// The state with no modifier held.
    pub fn no_modifiers() -> (r: ModifierState)
        ensures
            r == (ModifierState { shift: false, control: false, alt: false, command: false }),
    {
        ModifierState { shift: false, control: false, alt: false, command: false }
    }
}

/// A pointer position. Coordinates are carried as the raw bit patterns of the
/// platform's single-precision scalars: the harness never computes with
/// coordinates, it only stores the most recent one and stamps it onto later
/// button events, so an exact opaque representation suffices.
#[derive(Clone, Copy, Debug, PartialEq, Eq, Structural)]
pub struct PointerPos {
    pub x_bits: u32,
    pub y_bits: u32,
}

impl PointerPos {
    /// The origin, where the pointer rests before any move event.
    pub fn origin() -> (r: PointerPos)
        ensures
            r == (PointerPos { x_bits: 0, y_bits: 0 }),
    {
        PointerPos { x_bits: 0, y_bits: 0 }
    }
}

/// Whether a key or button went down or up.
#[derive(Clone, Copy, Debug, PartialEq, Eq, Structural)]
pub enum ElementState {
    Pressed,
    Released,
}

impl ElementState {
    /// True for the pressed half of the pair.
    pub fn is_pressed(self) -> (r: bool)
        ensures
            r == (self is Pressed),
    {
        match self {
            ElementState::Pressed => true,
            ElementState::Released => false,
        }
    }
}

/// Abstract key identifiers as the query engine reports them. The last four
/// stand for keys this platform's event model intentionally does not carry.
#[derive(Clone, Copy, Debug, PartialEq, Eq, Structural)]
pub enum Key {
    Alt,
    Command,
    Control,
    Shift,
    Enter,
    Space,
    Escape,
    Tab,
    Backspace,
    Delete,
    Home,
    End,
    PageUp,
    PageDown,
    ArrowDown,
    ArrowLeft,
    ArrowRight,
    ArrowUp,
    CapsLock,
    NumLock,
    PrintScreen,
    Unidentified,
}

/// Native key codes of the application's input protocol.
#[derive(Clone, Copy, Debug, PartialEq, Eq, Structural)]
pub enum NativeKey {
    Alt,
    Command,
    Control,
    Shift,
    Enter,
    Space,
    Escape,
    Tab,
    Backspace,
    Delete,
    Home,
    End,
    PageUp,
    PageDown,
    ArrowDown,
    ArrowLeft,
    ArrowRight,
    ArrowUp,
}

/// Abstract pointer buttons; `Other` stands for any button without a native
/// equivalent.
#[derive(Clone, Copy, Debug, PartialEq, Eq, Structural)]
pub enum Button {
    Left,
    Right,
    Middle,
    Back,
    Forward,
    Other,
}

/// Native pointer buttons of the application's input protocol.
#[derive(Clone, Copy, Debug, PartialEq, Eq, Structural)]
pub enum NativeButton {
    Primary,
    Secondary,
    Middle,
    Extra1,
    Extra2,
}

/// True of the four keys that drive the modifier flags.
pub open spec fn is_modifier_key(key: Key) -> bool {
    key == Key::Alt || key == Key::Command || key == Key::Control || key == Key::Shift
}

/// The modifier flags after a modifier key changes state; a non-modifier key
/// leaves them untouched. The flag is written whether or not the key also has
/// a native key code.
pub open spec fn modifiers_after_key(m: ModifierState, key: Key, pressed: bool) -> ModifierState {
    match key {
        Key::Alt => ModifierState { alt: pressed, ..m },
        Key::Command => ModifierState { command: pressed, ..m },
        Key::Control => ModifierState { control: pressed, ..m },
        Key::Shift => ModifierState { shift: pressed, ..m },
        _ => m,
    }
}

/// The key mapping: which abstract keys have a native key code. Keys without
/// one are intentionally unsupported and translate to nothing.
pub open spec fn key_to_native_spec(key: Key) -> Option<NativeKey> {
    match key {
        Key::Alt => Some(NativeKey::Alt),
        Key::Command => Some(NativeKey::Command),
        Key::Control => Some(NativeKey::Control),
        Key::Shift => Some(NativeKey::Shift),
        Key::Enter => Some(NativeKey::Enter),
        Key::Space => Some(NativeKey::Space),
        Key::Escape => Some(NativeKey::Escape),
        Key::Tab => Some(NativeKey::Tab),
        Key::Backspace => Some(NativeKey::Backspace),
        Key::Delete => Some(NativeKey::Delete),
        Key::Home => Some(NativeKey::Home),
        Key::End => Some(NativeKey::End),
        Key::PageUp => Some(NativeKey::PageUp),
        Key::PageDown => Some(NativeKey::PageDown),
        Key::ArrowDown => Some(NativeKey::ArrowDown),
        Key::ArrowLeft => Some(NativeKey::ArrowLeft),
        Key::ArrowRight => Some(NativeKey::ArrowRight),
        Key::ArrowUp => Some(NativeKey::ArrowUp),
        Key::CapsLock => None,
        Key::NumLock => None,
        Key::PrintScreen => None,
        Key::Unidentified => None,
    }
}

/// Executable key mapping; agrees with [`key_to_native_spec`] on every key.
pub fn key_to_native(key: Key) -> (r: Option<NativeKey>)
    ensures
        r == key_to_native_spec(key),
{
    match key {
        Key::Alt => Some(NativeKey::Alt),
        Key::Command => Some(NativeKey::Command),
        Key::Control => Some(NativeKey::Control),
        Key::Shift => Some(NativeKey::Shift),
        Key::Enter => Some(NativeKey::Enter),
        Key::Space => Some(NativeKey::Space),
        Key::Escape => Some(NativeKey::Escape),
        Key::Tab => Some(NativeKey::Tab),
        Key::Backspace => Some(NativeKey::Backspace),
        Key::Delete => Some(NativeKey::Delete),
        Key::Home => Some(NativeKey::Home),
        Key::End => Some(NativeKey::End),
        Key::PageUp => Some(NativeKey::PageUp),
        Key::PageDown => Some(NativeKey::PageDown),
        Key::ArrowDown => Some(NativeKey::ArrowDown),
        Key::ArrowLeft => Some(NativeKey::ArrowLeft),
        Key::ArrowRight => Some(NativeKey::ArrowRight),
        Key::ArrowUp => Some(NativeKey::ArrowUp),
        Key::CapsLock => None,
        Key::NumLock => None,
        Key::PrintScreen => None,
        Key::Unidentified => None,
    }
}

/// The button mapping: which abstract buttons have a native equivalent.
pub open spec fn button_to_native_spec(button: Button) -> Option<NativeButton> {
    match button {
        Button::Left => Some(NativeButton::Primary),
        Button::Right => Some(NativeButton::Secondary),
        Button::Middle => Some(NativeButton::Middle),
        Button::Back => Some(NativeButton::Extra1),
        Button::Forward => Some(NativeButton::Extra2),
        Button::Other => None,
    }
}

/// Executable button mapping; agrees with [`button_to_native_spec`].
pub fn button_to_native(button: Button) -> (r: Option<NativeButton>)
    ensures
        r == button_to_native_spec(button),
{
    match button {
        Button::Left => Some(NativeButton::Primary),
        Button::Right => Some(NativeButton::Secondary),
        Button::Middle => Some(NativeButton::Middle),
        Button::Back => Some(NativeButton::Extra1),
        Button::Forward => Some(NativeButton::Extra2),
        Button::Other => None,
    }
}

/// A native accessibility action request, already in the target protocol; the
/// translator passes it through unchanged.
#[derive(Clone, Copy, Debug, PartialEq, Eq, Structural)]
pub struct AccessActionRequest {
    pub target: u64,
    pub action: u64,
}

/// One simulated user action queued by the accessibility query engine,
/// consumed exactly once by the translator.
#[derive(Clone, Debug, PartialEq, Eq)]
pub enum SimulatedEvent {
    CursorMoved { pos: PointerPos },
    MouseInput { state: ElementState, button: Button },
    KeyInput { state: ElementState, key: Key },
    Ime(String),
    ActionRequest(AccessActionRequest),
}

/// One native input event of the application's protocol.
#[derive(Clone, Debug, PartialEq, Eq)]
pub enum NativeEvent {
    PointerMoved(PointerPos),
    PointerButton { button: NativeButton, modifiers: ModifierState, pos: PointerPos, pressed: bool },
    Key { key: NativeKey, modifiers: ModifierState, pressed: bool, repeat: bool },
    Text(String),
    AccessKitAction(AccessActionRequest),
}

} // verus!
