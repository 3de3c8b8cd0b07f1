//! Keys and mouse buttons, as the input library names them and as they
//! travel between the devices.

use vstd::prelude::*;

verus! {

/// A key, as the input library names it. The names follow a standard qwerty
/// layout; a key without a name is given by the number that the operating
/// system has for it.
#[derive(Debug, Clone, Copy, PartialEq, Eq)]
pub enum Key {
    Alt,
    AltGr,
    Backspace,
    CapsLock,
    ControlLeft,
    ControlRight,
    Delete,
    DownArrow,
    End,
    Escape,
    F1,
    F10,
    F11,
    F12,
    F2,
    F3,
    F4,
    F5,
    F6,
    F7,
    F8,
    F9,
    Home,
    LeftArrow,
    MetaLeft,
    MetaRight,
    PageDown,
    PageUp,
    Return,
    RightArrow,
    ShiftLeft,
    ShiftRight,
    Space,
    Tab,
    UpArrow,
    PrintScreen,
    ScrollLock,
    Pause,
    NumLock,
    BackQuote,
    Num1,
    Num2,
    Num3,
    Num4,
    Num5,
    Num6,
    Num7,
    Num8,
    Num9,
    Num0,
    Minus,
    Equal,
    KeyQ,
    KeyW,
    KeyE,
    KeyR,
    KeyT,
    KeyY,
    KeyU,
    KeyI,
    KeyO,
    KeyP,
    LeftBracket,
    RightBracket,
    KeyA,
    KeyS,
    KeyD,
    KeyF,
    KeyG,
    KeyH,
    KeyJ,
    KeyK,
    KeyL,
    SemiColon,
    Quote,
    BackSlash,
    IntlBackslash,
    KeyZ,
    KeyX,
    KeyC,
    KeyV,
    KeyB,
    KeyN,
    KeyM,
    Comma,
    Dot,
    Slash,
    Insert,
    KpReturn,
    KpMinus,
    KpPlus,
    KpMultiply,
    KpDivide,
    Kp0,
    Kp1,
    Kp2,
    Kp3,
    Kp4,
    Kp5,
    Kp6,
    Kp7,
    Kp8,
    Kp9,
    KpDelete,
    Function,
    Unknown(u32),
}

/// The code of a named key on the wire.
#[derive(Debug, Clone, Copy, PartialEq, Eq)]
pub enum KeyCode {
    UnknownKey,
    Alt,
    Altgr,
    Backspace,
    Capslock,
    Controlleft,
    Controlright,
    Delete,
    Downarrow,
    End,
    Escape,
    F1,
    F10,
    F11,
    F12,
    F2,
    F3,
    F4,
    F5,
    F6,
    F7,
    F8,
    F9,
    Home,
    Leftarrow,
    Metaleft,
    Metaright,
    Pagedown,
    Pageup,
    Return,
    Rightarrow,
    Shiftleft,
    Shiftright,
    Space,
    Tab,
    Uparrow,
    Printscreen,
    Scrolllock,
    Pause,
    Numlock,
    Backquote,
    Num1,
    Num2,
    Num3,
    Num4,
    Num5,
    Num6,
    Num7,
    Num8,
    Num9,
    Num0,
    Minus,
    Equal,
    Keyq,
    Keyw,
    Keye,
    Keyr,
    Keyt,
    Keyy,
    Keyu,
    Keyi,
    Keyo,
    Keyp,
    Leftbracket,
    Rightbracket,
    Keya,
    Keys,
    Keyd,
    Keyf,
    Keyg,
    Keyh,
    Keyj,
    Keyk,
    Keyl,
    Semicolon,
    Quote,
    Backslash,
    Intlbackslash,
    Keyz,
    Keyx,
    Keyc,
    Keyv,
    Keyb,
    Keyn,
    Keym,
    Comma,
    Dot,
    Slash,
    Insert,
    Kpreturn,
    Kpminus,
    Kpplus,
    Kpmultiply,
    Kpdivide,
    Kp0,
    Kp1,
    Kp2,
    Kp3,
    Kp4,
    Kp5,
    Kp6,
    Kp7,
    Kp8,
    Kp9,
    Kpdelete,
    Function,
}

/// What a key message holds: the code of a named key, or the number of a key
/// without a name.
#[derive(Debug, Clone, Copy, PartialEq, Eq)]
pub enum KeyValue {
    Code(KeyCode),
    Other(u32),
}

/// A key on the wire. A message may come without a value.
#[derive(Debug, Clone, Copy, PartialEq, Eq)]
pub struct KeyMessage {
    pub key: Option<KeyValue>,
}

/// A mouse button, as the input library names it.
#[derive(Debug, Clone, Copy, PartialEq, Eq)]
pub enum Button {
    Left,
    Right,
    Middle,
    Unknown(u8),
}

/// The code of a named mouse button on the wire.
#[derive(Debug, Clone, Copy, PartialEq, Eq)]
pub enum MouseButtons {
    UnknownButton,
    Left,
    Middle,
    Right,
}

/// What a mouse button message holds: the code of a named button, or the
/// number of a button without a name.
#[derive(Debug, Clone, Copy, PartialEq, Eq)]
pub enum ButtonValue {
    Button(MouseButtons),
    Other(u32),
}

/// A mouse button on the wire. A message may come without a value.
#[derive(Debug, Clone, Copy, PartialEq, Eq)]
pub struct MouseButton {
    pub button: Option<ButtonValue>,
}

/// The value that stands for `key` on the wire.
pub open spec fn key_value(key: Key) -> KeyValue {
    match key {
        Key::Alt => KeyValue::Code(KeyCode::Alt),
        Key::AltGr => KeyValue::Code(KeyCode::Altgr),
        Key::Backspace => KeyValue::Code(KeyCode::Backspace),
        Key::CapsLock => KeyValue::Code(KeyCode::Capslock),
        Key::ControlLeft => KeyValue::Code(KeyCode::Controlleft),
        Key::ControlRight => KeyValue::Code(KeyCode::Controlright),
        Key::Delete => KeyValue::Code(KeyCode::Delete),
        Key::DownArrow => KeyValue::Code(KeyCode::Downarrow),
        Key::End => KeyValue::Code(KeyCode::End),
        Key::Escape => KeyValue::Code(KeyCode::Escape),
        Key::F1 => KeyValue::Code(KeyCode::F1),
        Key::F10 => KeyValue::Code(KeyCode::F10),
        Key::F11 => KeyValue::Code(KeyCode::F11),
        Key::F12 => KeyValue::Code(KeyCode::F12),
        Key::F2 => KeyValue::Code(KeyCode::F2),
        Key::F3 => KeyValue::Code(KeyCode::F3),
        Key::F4 => KeyValue::Code(KeyCode::F4),
        Key::F5 => KeyValue::Code(KeyCode::F5),
        Key::F6 => KeyValue::Code(KeyCode::F6),
        Key::F7 => KeyValue::Code(KeyCode::F7),
        Key::F8 => KeyValue::Code(KeyCode::F8),
        Key::F9 => KeyValue::Code(KeyCode::F9),
        Key::Home => KeyValue::Code(KeyCode::Home),
        Key::LeftArrow => KeyValue::Code(KeyCode::Leftarrow),
        Key::MetaLeft => KeyValue::Code(KeyCode::Metaleft),
        Key::MetaRight => KeyValue::Code(KeyCode::Metaright),
        Key::PageDown => KeyValue::Code(KeyCode::Pagedown),
        Key::PageUp => KeyValue::Code(KeyCode::Pageup),
        Key::Return => KeyValue::Code(KeyCode::Return),
        Key::RightArrow => KeyValue::Code(KeyCode::Rightarrow),
        Key::ShiftLeft => KeyValue::Code(KeyCode::Shiftleft),
        Key::ShiftRight => KeyValue::Code(KeyCode::Shiftright),
        Key::Space => KeyValue::Code(KeyCode::Space),
        Key::Tab => KeyValue::Code(KeyCode::Tab),
        Key::UpArrow => KeyValue::Code(KeyCode::Uparrow),
        Key::PrintScreen => KeyValue::Code(KeyCode::Printscreen),
        Key::ScrollLock => KeyValue::Code(KeyCode::Scrolllock),
        Key::Pause => KeyValue::Code(KeyCode::Pause),
        Key::NumLock => KeyValue::Code(KeyCode::Numlock),
        Key::BackQuote => KeyValue::Code(KeyCode::Backquote),
        Key::Num1 => KeyValue::Code(KeyCode::Num1),
        Key::Num2 => KeyValue::Code(KeyCode::Num2),
        Key::Num3 => KeyValue::Code(KeyCode::Num3),
        Key::Num4 => KeyValue::Code(KeyCode::Num4),
        Key::Num5 => KeyValue::Code(KeyCode::Num5),
        Key::Num6 => KeyValue::Code(KeyCode::Num6),
        Key::Num7 => KeyValue::Code(KeyCode::Num7),
        Key::Num8 => KeyValue::Code(KeyCode::Num8),
        Key::Num9 => KeyValue::Code(KeyCode::Num9),
        Key::Num0 => KeyValue::Code(KeyCode::Num0),
        Key::Minus => KeyValue::Code(KeyCode::Minus),
        Key::Equal => KeyValue::Code(KeyCode::Equal),
        Key::KeyQ => KeyValue::Code(KeyCode::Keyq),
        Key::KeyW => KeyValue::Code(KeyCode::Keyw),
        Key::KeyE => KeyValue::Code(KeyCode::Keye),
        Key::KeyR => KeyValue::Code(KeyCode::Keyr),
        Key::KeyT => KeyValue::Code(KeyCode::Keyt),
        Key::KeyY => KeyValue::Code(KeyCode::Keyy),
        Key::KeyU => KeyValue::Code(KeyCode::Keyu),
        Key::KeyI => KeyValue::Code(KeyCode::Keyi),
        Key::KeyO => KeyValue::Code(KeyCode::Keyo),
        Key::KeyP => KeyValue::Code(KeyCode::Keyp),
        Key::LeftBracket => KeyValue::Code(KeyCode::Leftbracket),
        Key::RightBracket => KeyValue::Code(KeyCode::Rightbracket),
        Key::KeyA => KeyValue::Code(KeyCode::Keya),
        Key::KeyS => KeyValue::Code(KeyCode::Keys),
        Key::KeyD => KeyValue::Code(KeyCode::Keyd),
        Key::KeyF => KeyValue::Code(KeyCode::Keyf),
        Key::KeyG => KeyValue::Code(KeyCode::Keyg),
        Key::KeyH => KeyValue::Code(KeyCode::Keyh),
        Key::KeyJ => KeyValue::Code(KeyCode::Keyj),
        Key::KeyK => KeyValue::Code(KeyCode::Keyk),
        Key::KeyL => KeyValue::Code(KeyCode::Keyl),
        Key::SemiColon => KeyValue::Code(KeyCode::Semicolon),
        Key::Quote => KeyValue::Code(KeyCode::Quote),
        Key::BackSlash => KeyValue::Code(KeyCode::Backslash),
        Key::IntlBackslash => KeyValue::Code(KeyCode::Intlbackslash),
        Key::KeyZ => KeyValue::Code(KeyCode::Keyz),
        Key::KeyX => KeyValue::Code(KeyCode::Keyx),
        Key::KeyC => KeyValue::Code(KeyCode::Keyc),
        Key::KeyV => KeyValue::Code(KeyCode::Keyv),
        Key::KeyB => KeyValue::Code(KeyCode::Keyb),
        Key::KeyN => KeyValue::Code(KeyCode::Keyn),
        Key::KeyM => KeyValue::Code(KeyCode::Keym),
        Key::Comma => KeyValue::Code(KeyCode::Comma),
        Key::Dot => KeyValue::Code(KeyCode::Dot),
        Key::Slash => KeyValue::Code(KeyCode::Slash),
        Key::Insert => KeyValue::Code(KeyCode::Insert),
        Key::KpReturn => KeyValue::Code(KeyCode::Kpreturn),
        Key::KpMinus => KeyValue::Code(KeyCode::Kpminus),
        Key::KpPlus => KeyValue::Code(KeyCode::Kpplus),
        Key::KpMultiply => KeyValue::Code(KeyCode::Kpmultiply),
        Key::KpDivide => KeyValue::Code(KeyCode::Kpdivide),
        Key::Kp0 => KeyValue::Code(KeyCode::Kp0),
        Key::Kp1 => KeyValue::Code(KeyCode::Kp1),
        Key::Kp2 => KeyValue::Code(KeyCode::Kp2),
        Key::Kp3 => KeyValue::Code(KeyCode::Kp3),
        Key::Kp4 => KeyValue::Code(KeyCode::Kp4),
        Key::Kp5 => KeyValue::Code(KeyCode::Kp5),
        Key::Kp6 => KeyValue::Code(KeyCode::Kp6),
        Key::Kp7 => KeyValue::Code(KeyCode::Kp7),
        Key::Kp8 => KeyValue::Code(KeyCode::Kp8),
        Key::Kp9 => KeyValue::Code(KeyCode::Kp9),
        Key::KpDelete => KeyValue::Code(KeyCode::Kpdelete),
        Key::Function => KeyValue::Code(KeyCode::Function),
        Key::Unknown(number) => KeyValue::Other(number),
    }
}

/// The value that stands for `button` on the wire.
pub open spec fn button_value(button: Button) -> ButtonValue {
    match button {
        Button::Left => ButtonValue::Button(MouseButtons::Left),
        Button::Right => ButtonValue::Button(MouseButtons::Right),
        Button::Middle => ButtonValue::Button(MouseButtons::Middle),
        Button::Unknown(number) => ButtonValue::Other(number as u32),
    }
}

/// The key for which `code` stands, if it stands for one.
pub open spec fn code_key(code: KeyCode) -> Option<Key> {
    match code {
        KeyCode::UnknownKey => None,
        KeyCode::Alt => Some(Key::Alt),
        KeyCode::Altgr => Some(Key::AltGr),
        KeyCode::Backspace => Some(Key::Backspace),
        KeyCode::Capslock => Some(Key::CapsLock),
        KeyCode::Controlleft => Some(Key::ControlLeft),
        KeyCode::Controlright => Some(Key::ControlRight),
        KeyCode::Delete => Some(Key::Delete),
        KeyCode::Downarrow => Some(Key::DownArrow),
        KeyCode::End => Some(Key::End),
        KeyCode::Escape => Some(Key::Escape),
        KeyCode::F1 => Some(Key::F1),
        KeyCode::F10 => Some(Key::F10),
        KeyCode::F11 => Some(Key::F11),
        KeyCode::F12 => Some(Key::F12),
        KeyCode::F2 => Some(Key::F2),
        KeyCode::F3 => Some(Key::F3),
        KeyCode::F4 => Some(Key::F4),
        KeyCode::F5 => Some(Key::F5),
        KeyCode::F6 => Some(Key::F6),
        KeyCode::F7 => Some(Key::F7),
        KeyCode::F8 => Some(Key::F8),
        KeyCode::F9 => Some(Key::F9),
        KeyCode::Home => Some(Key::Home),
        KeyCode::Leftarrow => Some(Key::LeftArrow),
        KeyCode::Metaleft => Some(Key::MetaLeft),
        KeyCode::Metaright => Some(Key::MetaRight),
        KeyCode::Pagedown => Some(Key::PageDown),
        KeyCode::Pageup => Some(Key::PageUp),
        KeyCode::Return => Some(Key::Return),
        KeyCode::Rightarrow => Some(Key::RightArrow),
        KeyCode::Shiftleft => Some(Key::ShiftLeft),
        KeyCode::Shiftright => Some(Key::ShiftRight),
        KeyCode::Space => Some(Key::Space),
        KeyCode::Tab => Some(Key::Tab),
        KeyCode::Uparrow => Some(Key::UpArrow),
        KeyCode::Printscreen => Some(Key::PrintScreen),
        KeyCode::Scrolllock => Some(Key::ScrollLock),
        KeyCode::Pause => Some(Key::Pause),
        KeyCode::Numlock => Some(Key::NumLock),
        KeyCode::Backquote => Some(Key::BackQuote),
        KeyCode::Num1 => Some(Key::Num1),
        KeyCode::Num2 => Some(Key::Num2),
        KeyCode::Num3 => Some(Key::Num3),
        KeyCode::Num4 => Some(Key::Num4),
        KeyCode::Num5 => Some(Key::Num5),
        KeyCode::Num6 => Some(Key::Num6),
        KeyCode::Num7 => Some(Key::Num7),
        KeyCode::Num8 => Some(Key::Num8),
        KeyCode::Num9 => Some(Key::Num9),
        KeyCode::Num0 => Some(Key::Num0),
        KeyCode::Minus => Some(Key::Minus),
        KeyCode::Equal => Some(Key::Equal),
        KeyCode::Keyq => Some(Key::KeyQ),
        KeyCode::Keyw => Some(Key::KeyW),
        KeyCode::Keye => Some(Key::KeyE),
        KeyCode::Keyr => Some(Key::KeyR),
        KeyCode::Keyt => Some(Key::KeyT),
        KeyCode::Keyy => Some(Key::KeyY),
        KeyCode::Keyu => Some(Key::KeyU),
        KeyCode::Keyi => Some(Key::KeyI),
        KeyCode::Keyo => Some(Key::KeyO),
        KeyCode::Keyp => Some(Key::KeyP),
        KeyCode::Leftbracket => Some(Key::LeftBracket),
        KeyCode::Rightbracket => Some(Key::RightBracket),
        KeyCode::Keya => Some(Key::KeyA),
        KeyCode::Keys => Some(Key::KeyS),
        KeyCode::Keyd => Some(Key::KeyD),
        KeyCode::Keyf => Some(Key::KeyF),
        KeyCode::Keyg => Some(Key::KeyG),
        KeyCode::Keyh => Some(Key::KeyH),
        KeyCode::Keyj => Some(Key::KeyJ),
        KeyCode::Keyk => Some(Key::KeyK),
        KeyCode::Keyl => Some(Key::KeyL),
        KeyCode::Semicolon => Some(Key::SemiColon),
        KeyCode::Quote => Some(Key::Quote),
        KeyCode::Backslash => Some(Key::BackSlash),
        KeyCode::Intlbackslash => Some(Key::IntlBackslash),
        KeyCode::Keyz => Some(Key::KeyZ),
        KeyCode::Keyx => Some(Key::KeyX),
        KeyCode::Keyc => Some(Key::KeyC),
        KeyCode::Keyv => Some(Key::KeyV),
        KeyCode::Keyb => Some(Key::KeyB),
        KeyCode::Keyn => Some(Key::KeyN),
        KeyCode::Keym => Some(Key::KeyM),
        KeyCode::Comma => Some(Key::Comma),
        KeyCode::Dot => Some(Key::Dot),
        KeyCode::Slash => Some(Key::Slash),
        KeyCode::Insert => Some(Key::Insert),
        KeyCode::Kpreturn => Some(Key::KpReturn),
        KeyCode::Kpminus => Some(Key::KpMinus),
        KeyCode::Kpplus => Some(Key::KpPlus),
        KeyCode::Kpmultiply => Some(Key::KpMultiply),
        KeyCode::Kpdivide => Some(Key::KpDivide),
        KeyCode::Kp0 => Some(Key::Kp0),
        KeyCode::Kp1 => Some(Key::Kp1),
        KeyCode::Kp2 => Some(Key::Kp2),
        KeyCode::Kp3 => Some(Key::Kp3),
        KeyCode::Kp4 => Some(Key::Kp4),
        KeyCode::Kp5 => Some(Key::Kp5),
        KeyCode::Kp6 => Some(Key::Kp6),
        KeyCode::Kp7 => Some(Key::Kp7),
        KeyCode::Kp8 => Some(Key::Kp8),
        KeyCode::Kp9 => Some(Key::Kp9),
        KeyCode::Kpdelete => Some(Key::KpDelete),
        KeyCode::Function => Some(Key::Function),
    }
}

/// The key that `message` holds, if it holds one.
pub open spec fn key_of(message: KeyMessage) -> Option<Key> {
    match message.key {
        Some(KeyValue::Code(code)) => code_key(code),
        Some(KeyValue::Other(number)) => Some(Key::Unknown(number)),
        None => None,
    }
}

/// The mouse button that `message` holds, if it holds one: a button without
/// a name has a number below 256.
pub open spec fn button_of(message: MouseButton) -> Option<Button> {
    match message.button {
        Some(ButtonValue::Button(MouseButtons::Left)) => Some(Button::Left),
        Some(ButtonValue::Button(MouseButtons::Middle)) => Some(Button::Middle),
        Some(ButtonValue::Button(MouseButtons::Right)) => Some(Button::Right),
        Some(ButtonValue::Button(MouseButtons::UnknownButton)) => None,
        Some(ButtonValue::Other(number)) => if number <= 255 {
            Some(Button::Unknown(number as u8))
        } else {
            None
        },
        None => None,
    }
}

/// Every key can be read back from its message, and a message from which a
/// key is read is the message of that key.
pub proof fn lemma_key_round_trip(key: Key, message: KeyMessage)
    ensures
        key_of(KeyMessage { key: Some(key_value(key)) }) == Some(key),
        key_of(message) == Some(key) ==> message.key == Some(key_value(key)),
{
}

/// Every mouse button can be read back from its message, and a message from
/// which a button is read is the message of that button.
pub proof fn lemma_button_round_trip(button: Button, message: MouseButton)
    ensures
        button_of(MouseButton { button: Some(button_value(button)) }) == Some(button),
        button_of(message) == Some(button) ==> message.button == Some(button_value(button)),
{
}

/// Writes a mouse button as a message.
pub fn mouse_rdev_to_msg(button: Button) -> (message: MouseButton)
    ensures
        message.button == Some(button_value(button)),
{
    MouseButton {
        button: Some(
            match button {
                Button::Left => ButtonValue::Button(MouseButtons::Left),
                Button::Right => ButtonValue::Button(MouseButtons::Right),
                Button::Middle => ButtonValue::Button(MouseButtons::Middle),
                Button::Unknown(number) => ButtonValue::Other(number as u32),
            },
        ),
    }
}

/// Reads a mouse button from a message: the button whose value the message
/// holds. There is none if the message holds no value, the code of no
/// button, or a number that no button can have.
pub fn mouse_msg_to_rdev(message: &MouseButton) -> (button: Option<Button>)
    ensures
        button == button_of(*message),
{
    match message.button {
        Some(ButtonValue::Button(MouseButtons::Left)) => Some(Button::Left),
        Some(ButtonValue::Button(MouseButtons::Middle)) => Some(Button::Middle),
        Some(ButtonValue::Button(MouseButtons::Right)) => Some(Button::Right),
        Some(ButtonValue::Button(MouseButtons::UnknownButton)) => None,
        Some(ButtonValue::Other(number)) => if number <= 255 {
            Some(Button::Unknown(number as u8))
        } else {
            None
        },
        None => None,
    }
}

/// Writes a key as a message.
pub fn rdev_to_msg(key: &Key) -> (message: KeyMessage)
    ensures
        message.key == Some(key_value(*key)),
{
    KeyMessage {
        key: Some(
            match key {
                Key::Alt => KeyValue::Code(KeyCode::Alt),
                Key::AltGr => KeyValue::Code(KeyCode::Altgr),
                Key::Backspace => KeyValue::Code(KeyCode::Backspace),
                Key::CapsLock => KeyValue::Code(KeyCode::Capslock),
                Key::ControlLeft => KeyValue::Code(KeyCode::Controlleft),
                Key::ControlRight => KeyValue::Code(KeyCode::Controlright),
                Key::Delete => KeyValue::Code(KeyCode::Delete),
                Key::DownArrow => KeyValue::Code(KeyCode::Downarrow),
                Key::End => KeyValue::Code(KeyCode::End),
                Key::Escape => KeyValue::Code(KeyCode::Escape),
                Key::F1 => KeyValue::Code(KeyCode::F1),
                Key::F10 => KeyValue::Code(KeyCode::F10),
                Key::F11 => KeyValue::Code(KeyCode::F11),
                Key::F12 => KeyValue::Code(KeyCode::F12),
                Key::F2 => KeyValue::Code(KeyCode::F2),
                Key::F3 => KeyValue::Code(KeyCode::F3),
                Key::F4 => KeyValue::Code(KeyCode::F4),
                Key::F5 => KeyValue::Code(KeyCode::F5),
                Key::F6 => KeyValue::Code(KeyCode::F6),
                Key::F7 => KeyValue::Code(KeyCode::F7),
                Key::F8 => KeyValue::Code(KeyCode::F8),
                Key::F9 => KeyValue::Code(KeyCode::F9),
                Key::Home => KeyValue::Code(KeyCode::Home),
                Key::LeftArrow => KeyValue::Code(KeyCode::Leftarrow),
                Key::MetaLeft => KeyValue::Code(KeyCode::Metaleft),
                Key::MetaRight => KeyValue::Code(KeyCode::Metaright),
                Key::PageDown => KeyValue::Code(KeyCode::Pagedown),
                Key::PageUp => KeyValue::Code(KeyCode::Pageup),
                Key::Return => KeyValue::Code(KeyCode::Return),
                Key::RightArrow => KeyValue::Code(KeyCode::Rightarrow),
                Key::ShiftLeft => KeyValue::Code(KeyCode::Shiftleft),
                Key::ShiftRight => KeyValue::Code(KeyCode::Shiftright),
                Key::Space => KeyValue::Code(KeyCode::Space),
                Key::Tab => KeyValue::Code(KeyCode::Tab),
                Key::UpArrow => KeyValue::Code(KeyCode::Uparrow),
                Key::PrintScreen => KeyValue::Code(KeyCode::Printscreen),
                Key::ScrollLock => KeyValue::Code(KeyCode::Scrolllock),
                Key::Pause => KeyValue::Code(KeyCode::Pause),
                Key::NumLock => KeyValue::Code(KeyCode::Numlock),
                Key::BackQuote => KeyValue::Code(KeyCode::Backquote),
                Key::Num1 => KeyValue::Code(KeyCode::Num1),
                Key::Num2 => KeyValue::Code(KeyCode::Num2),
                Key::Num3 => KeyValue::Code(KeyCode::Num3),
                Key::Num4 => KeyValue::Code(KeyCode::Num4),
                Key::Num5 => KeyValue::Code(KeyCode::Num5),
                Key::Num6 => KeyValue::Code(KeyCode::Num6),
                Key::Num7 => KeyValue::Code(KeyCode::Num7),
                Key::Num8 => KeyValue::Code(KeyCode::Num8),
                Key::Num9 => KeyValue::Code(KeyCode::Num9),
                Key::Num0 => KeyValue::Code(KeyCode::Num0),
                Key::Minus => KeyValue::Code(KeyCode::Minus),
                Key::Equal => KeyValue::Code(KeyCode::Equal),
                Key::KeyQ => KeyValue::Code(KeyCode::Keyq),
                Key::KeyW => KeyValue::Code(KeyCode::Keyw),
                Key::KeyE => KeyValue::Code(KeyCode::Keye),
                Key::KeyR => KeyValue::Code(KeyCode::Keyr),
                Key::KeyT => KeyValue::Code(KeyCode::Keyt),
                Key::KeyY => KeyValue::Code(KeyCode::Keyy),
                Key::KeyU => KeyValue::Code(KeyCode::Keyu),
                Key::KeyI => KeyValue::Code(KeyCode::Keyi),
                Key::KeyO => KeyValue::Code(KeyCode::Keyo),
                Key::KeyP => KeyValue::Code(KeyCode::Keyp),
                Key::LeftBracket => KeyValue::Code(KeyCode::Leftbracket),
                Key::RightBracket => KeyValue::Code(KeyCode::Rightbracket),
                Key::KeyA => KeyValue::Code(KeyCode::Keya),
                Key::KeyS => KeyValue::Code(KeyCode::Keys),
                Key::KeyD => KeyValue::Code(KeyCode::Keyd),
                Key::KeyF => KeyValue::Code(KeyCode::Keyf),
                Key::KeyG => KeyValue::Code(KeyCode::Keyg),
                Key::KeyH => KeyValue::Code(KeyCode::Keyh),
                Key::KeyJ => KeyValue::Code(KeyCode::Keyj),
                Key::KeyK => KeyValue::Code(KeyCode::Keyk),
                Key::KeyL => KeyValue::Code(KeyCode::Keyl),
                Key::SemiColon => KeyValue::Code(KeyCode::Semicolon),
                Key::Quote => KeyValue::Code(KeyCode::Quote),
                Key::BackSlash => KeyValue::Code(KeyCode::Backslash),
                Key::IntlBackslash => KeyValue::Code(KeyCode::Intlbackslash),
                Key::KeyZ => KeyValue::Code(KeyCode::Keyz),
                Key::KeyX => KeyValue::Code(KeyCode::Keyx),
                Key::KeyC => KeyValue::Code(KeyCode::Keyc),
                Key::KeyV => KeyValue::Code(KeyCode::Keyv),
                Key::KeyB => KeyValue::Code(KeyCode::Keyb),
                Key::KeyN => KeyValue::Code(KeyCode::Keyn),
                Key::KeyM => KeyValue::Code(KeyCode::Keym),
                Key::Comma => KeyValue::Code(KeyCode::Comma),
                Key::Dot => KeyValue::Code(KeyCode::Dot),
                Key::Slash => KeyValue::Code(KeyCode::Slash),
                Key::Insert => KeyValue::Code(KeyCode::Insert),
                Key::KpReturn => KeyValue::Code(KeyCode::Kpreturn),
                Key::KpMinus => KeyValue::Code(KeyCode::Kpminus),
                Key::KpPlus => KeyValue::Code(KeyCode::Kpplus),
                Key::KpMultiply => KeyValue::Code(KeyCode::Kpmultiply),
                Key::KpDivide => KeyValue::Code(KeyCode::Kpdivide),
                Key::Kp0 => KeyValue::Code(KeyCode::Kp0),
                Key::Kp1 => KeyValue::Code(KeyCode::Kp1),
                Key::Kp2 => KeyValue::Code(KeyCode::Kp2),
                Key::Kp3 => KeyValue::Code(KeyCode::Kp3),
                Key::Kp4 => KeyValue::Code(KeyCode::Kp4),
                Key::Kp5 => KeyValue::Code(KeyCode::Kp5),
                Key::Kp6 => KeyValue::Code(KeyCode::Kp6),
                Key::Kp7 => KeyValue::Code(KeyCode::Kp7),
                Key::Kp8 => KeyValue::Code(KeyCode::Kp8),
                Key::Kp9 => KeyValue::Code(KeyCode::Kp9),
                Key::KpDelete => KeyValue::Code(KeyCode::Kpdelete),
                Key::Function => KeyValue::Code(KeyCode::Function),
                Key::Unknown(number) => KeyValue::Other(*number),
            },
        ),
    }
}

/// Reads a key from a message: the key whose value the message holds. There
/// is none if the message holds no value or the code of no key.
pub fn msg_to_rdev(message: &KeyMessage) -> (key: Option<Key>)
    ensures
        key == key_of(*message),
{
    match message.key {
        Some(KeyValue::Code(code)) => match code {
            KeyCode::UnknownKey => None,
            KeyCode::Alt => Some(Key::Alt),
            KeyCode::Altgr => Some(Key::AltGr),
            KeyCode::Backspace => Some(Key::Backspace),
            KeyCode::Capslock => Some(Key::CapsLock),
            KeyCode::Controlleft => Some(Key::ControlLeft),
            KeyCode::Controlright => Some(Key::ControlRight),
            KeyCode::Delete => Some(Key::Delete),
            KeyCode::Downarrow => Some(Key::DownArrow),
            KeyCode::End => Some(Key::End),
            KeyCode::Escape => Some(Key::Escape),
            KeyCode::F1 => Some(Key::F1),
            KeyCode::F10 => Some(Key::F10),
            KeyCode::F11 => Some(Key::F11),
            KeyCode::F12 => Some(Key::F12),
            KeyCode::F2 => Some(Key::F2),
            KeyCode::F3 => Some(Key::F3),
            KeyCode::F4 => Some(Key::F4),
            KeyCode::F5 => Some(Key::F5),
            KeyCode::F6 => Some(Key::F6),
            KeyCode::F7 => Some(Key::F7),
            KeyCode::F8 => Some(Key::F8),
            KeyCode::F9 => Some(Key::F9),
            KeyCode::Home => Some(Key::Home),
            KeyCode::Leftarrow => Some(Key::LeftArrow),
            KeyCode::Metaleft => Some(Key::MetaLeft),
            KeyCode::Metaright => Some(Key::MetaRight),
            KeyCode::Pagedown => Some(Key::PageDown),
            KeyCode::Pageup => Some(Key::PageUp),
            KeyCode::Return => Some(Key::Return),
            KeyCode::Rightarrow => Some(Key::RightArrow),
            KeyCode::Shiftleft => Some(Key::ShiftLeft),
            KeyCode::Shiftright => Some(Key::ShiftRight),
            KeyCode::Space => Some(Key::Space),
            KeyCode::Tab => Some(Key::Tab),
            KeyCode::Uparrow => Some(Key::UpArrow),
            KeyCode::Printscreen => Some(Key::PrintScreen),
            KeyCode::Scrolllock => Some(Key::ScrollLock),
            KeyCode::Pause => Some(Key::Pause),
            KeyCode::Numlock => Some(Key::NumLock),
            KeyCode::Backquote => Some(Key::BackQuote),
            KeyCode::Num1 => Some(Key::Num1),
            KeyCode::Num2 => Some(Key::Num2),
            KeyCode::Num3 => Some(Key::Num3),
            KeyCode::Num4 => Some(Key::Num4),
            KeyCode::Num5 => Some(Key::Num5),
            KeyCode::Num6 => Some(Key::Num6),
            KeyCode::Num7 => Some(Key::Num7),
            KeyCode::Num8 => Some(Key::Num8),
            KeyCode::Num9 => Some(Key::Num9),
            KeyCode::Num0 => Some(Key::Num0),
            KeyCode::Minus => Some(Key::Minus),
            KeyCode::Equal => Some(Key::Equal),
            KeyCode::Keyq => Some(Key::KeyQ),
            KeyCode::Keyw => Some(Key::KeyW),
            KeyCode::Keye => Some(Key::KeyE),
            KeyCode::Keyr => Some(Key::KeyR),
            KeyCode::Keyt => Some(Key::KeyT),
            KeyCode::Keyy => Some(Key::KeyY),
            KeyCode::Keyu => Some(Key::KeyU),
            KeyCode::Keyi => Some(Key::KeyI),
            KeyCode::Keyo => Some(Key::KeyO),
            KeyCode::Keyp => Some(Key::KeyP),
            KeyCode::Leftbracket => Some(Key::LeftBracket),
            KeyCode::Rightbracket => Some(Key::RightBracket),
            KeyCode::Keya => Some(Key::KeyA),
            KeyCode::Keys => Some(Key::KeyS),
            KeyCode::Keyd => Some(Key::KeyD),
            KeyCode::Keyf => Some(Key::KeyF),
            KeyCode::Keyg => Some(Key::KeyG),
            KeyCode::Keyh => Some(Key::KeyH),
            KeyCode::Keyj => Some(Key::KeyJ),
            KeyCode::Keyk => Some(Key::KeyK),
            KeyCode::Keyl => Some(Key::KeyL),
            KeyCode::Semicolon => Some(Key::SemiColon),
            KeyCode::Quote => Some(Key::Quote),
            KeyCode::Backslash => Some(Key::BackSlash),
            KeyCode::Intlbackslash => Some(Key::IntlBackslash),
            KeyCode::Keyz => Some(Key::KeyZ),
            KeyCode::Keyx => Some(Key::KeyX),
            KeyCode::Keyc => Some(Key::KeyC),
            KeyCode::Keyv => Some(Key::KeyV),
            KeyCode::Keyb => Some(Key::KeyB),
            KeyCode::Keyn => Some(Key::KeyN),
            KeyCode::Keym => Some(Key::KeyM),
            KeyCode::Comma => Some(Key::Comma),
            KeyCode::Dot => Some(Key::Dot),
            KeyCode::Slash => Some(Key::Slash),
            KeyCode::Insert => Some(Key::Insert),
            KeyCode::Kpreturn => Some(Key::KpReturn),
            KeyCode::Kpminus => Some(Key::KpMinus),
            KeyCode::Kpplus => Some(Key::KpPlus),
            KeyCode::Kpmultiply => Some(Key::KpMultiply),
            KeyCode::Kpdivide => Some(Key::KpDivide),
            KeyCode::Kp0 => Some(Key::Kp0),
            KeyCode::Kp1 => Some(Key::Kp1),
            KeyCode::Kp2 => Some(Key::Kp2),
            KeyCode::Kp3 => Some(Key::Kp3),
            KeyCode::Kp4 => Some(Key::Kp4),
            KeyCode::Kp5 => Some(Key::Kp5),
            KeyCode::Kp6 => Some(Key::Kp6),
            KeyCode::Kp7 => Some(Key::Kp7),
            KeyCode::Kp8 => Some(Key::Kp8),
            KeyCode::Kp9 => Some(Key::Kp9),
            KeyCode::Kpdelete => Some(Key::KpDelete),
            KeyCode::Function => Some(Key::Function),
        },
        Some(KeyValue::Other(number)) => Some(Key::Unknown(number)),
        None => None,
    }
}

/// An input event other than a move of the mouse, as the input library
/// reports and replays it.
#[derive(Debug, Clone, Copy, PartialEq, Eq)]
pub enum InputAction {
    KeyPress(Key),
    KeyRelease(Key),
    ButtonPress(Button),
    ButtonRelease(Button),
    /// A turn of the wheel: up or right where positive, down or left where
    /// negative.
    Wheel { delta_x: i64, delta_y: i64 },
}

/// An input event on the wire. What a move of the mouse holds is left open:
/// it is only handed on.
#[derive(Debug, Clone, Copy, PartialEq, Eq)]
pub enum UserInput<M> {
    MouseMove(M),
    MousePress(MouseButton),
    MouseRelease(MouseButton),
    KeyPress(KeyMessage),
    KeyRelease(KeyMessage),
    Wheel { dx: i32, dy: i32 },
}

/// What a simulator does with an input event that it received.
#[derive(Debug, Clone, Copy, PartialEq, Eq)]
pub enum Simulation<M> {
    /// Move the mouse by what the event holds.
    MoveBy(M),
    /// Replay the action.
    Act(InputAction),
    /// The event names a key or a button that the input library does not
    /// know: nothing is replayed.
    Unknown,
}

/// The message that stands for `action`: see [`translate_other_events`].
pub open spec fn input_of<M>(action: InputAction) -> UserInput<M> {
    match action {
        InputAction::KeyPress(key) => UserInput::KeyPress(KeyMessage { key: Some(key_value(key)) }),
        InputAction::KeyRelease(key) => UserInput::KeyRelease(KeyMessage { key: Some(key_value(key)) }),
        InputAction::ButtonPress(button) => UserInput::MousePress(MouseButton { button: Some(button_value(button)) }),
        InputAction::ButtonRelease(button) => UserInput::MouseRelease(
            MouseButton { button: Some(button_value(button)) },
        ),
        InputAction::Wheel { delta_x, delta_y } => UserInput::Wheel { dx: delta_x as i32, dy: delta_y as i32 },
    }
}

/// The turns of a wheel in `action`, if it is one, fit into 32 bits.
pub open spec fn wheel_fits(action: InputAction) -> bool {
    action matches InputAction::Wheel { delta_x, delta_y } ==> i32::MIN <= delta_x <= i32::MAX && i32::MIN
        <= delta_y <= i32::MAX
}

/// Writes an input event other than a move of the mouse as a message. The
/// turns of a wheel are cut down to 32 bits.
pub fn translate_other_events<M>(event: InputAction) -> (message: UserInput<M>)
    ensures
        message == input_of::<M>(event),
{
    match event {
        InputAction::KeyPress(key) => UserInput::KeyPress(rdev_to_msg(&key)),
        InputAction::KeyRelease(key) => UserInput::KeyRelease(rdev_to_msg(&key)),
        InputAction::ButtonPress(button) => UserInput::MousePress(mouse_rdev_to_msg(button)),
        InputAction::ButtonRelease(button) => UserInput::MouseRelease(mouse_rdev_to_msg(button)),
        InputAction::Wheel { delta_x, delta_y } => UserInput::Wheel {
            dx: #[verifier::truncate]
            (delta_x as i32),
            dy: #[verifier::truncate]
            (delta_y as i32),
        },
    }
}

/// What a simulator does with `event`: see [`simulate_input_event`].
pub open spec fn simulation_of<M>(event: UserInput<M>) -> Simulation<M> {
    match event {
        UserInput::MouseMove(by) => Simulation::MoveBy(by),
        UserInput::MousePress(button) => match button_of(button) {
            Some(button) => Simulation::Act(InputAction::ButtonPress(button)),
            None => Simulation::Unknown,
        },
        UserInput::MouseRelease(button) => match button_of(button) {
            Some(button) => Simulation::Act(InputAction::ButtonRelease(button)),
            None => Simulation::Unknown,
        },
        UserInput::KeyPress(key) => match key_of(key) {
            Some(key) => Simulation::Act(InputAction::KeyPress(key)),
            None => Simulation::Unknown,
        },
        UserInput::KeyRelease(key) => match key_of(key) {
            Some(key) => Simulation::Act(InputAction::KeyRelease(key)),
            None => Simulation::Unknown,
        },
        UserInput::Wheel { dx, dy } => Simulation::Act(InputAction::Wheel { delta_x: dx as i64, delta_y: dy as i64 }),
    }
}

/// What was written as a message is replayed as it was, as long as the
/// turns of a wheel fit into 32 bits.
pub proof fn lemma_input_round_trip<M>(action: InputAction)
    requires
        wheel_fits(action),
    ensures
        simulation_of(input_of::<M>(action)) == Simulation::<M>::Act(action),
{
    match action {
        InputAction::KeyPress(key) => lemma_key_round_trip(key, KeyMessage { key: None }),
        InputAction::KeyRelease(key) => lemma_key_round_trip(key, KeyMessage { key: None }),
        InputAction::ButtonPress(button) => lemma_button_round_trip(button, MouseButton { button: None }),
        InputAction::ButtonRelease(button) => lemma_button_round_trip(button, MouseButton { button: None }),
        InputAction::Wheel { .. } => {},
    }
}

/// Decides what a simulator does with `event`: a move of the mouse is made,
/// a key, a button or the wheel is replayed as the message names it, and a
/// message that names no key or button is skipped.
pub fn simulate_input_event<M>(event: UserInput<M>) -> (simulation: Simulation<M>)
    ensures
        simulation == simulation_of(event),
{
    match event {
        UserInput::MouseMove(by) => Simulation::MoveBy(by),
        UserInput::MousePress(button) => match mouse_msg_to_rdev(&button) {
            Some(button) => Simulation::Act(InputAction::ButtonPress(button)),
            None => Simulation::Unknown,
        },
        UserInput::MouseRelease(button) => match mouse_msg_to_rdev(&button) {
            Some(button) => Simulation::Act(InputAction::ButtonRelease(button)),
            None => Simulation::Unknown,
        },
        UserInput::KeyRelease(key) => match msg_to_rdev(&key) {
            Some(key) => Simulation::Act(InputAction::KeyRelease(key)),
            None => Simulation::Unknown,
        },
        UserInput::KeyPress(key) => match msg_to_rdev(&key) {
            Some(key) => Simulation::Act(InputAction::KeyPress(key)),
            None => Simulation::Unknown,
        },
        UserInput::Wheel { dx, dy } => Simulation::Act(InputAction::Wheel { delta_x: dx as i64, delta_y: dy as i64 }),
    }
}

} // verus!
