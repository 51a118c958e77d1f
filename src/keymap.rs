use vstd::prelude::*;

verus! {

/// A physical key position, named after the key it carries on a US layout.
///
/// Only the keys that have a set-1 scancode are listed; every other key is
/// reported as [`PhysicalKey::Unidentified`].
#[derive(Clone, Copy, Debug, PartialEq, Eq, Structural)]
pub enum KeyCode {
    Backquote,
    Backslash,
    Backspace,
    BracketLeft,
    BracketRight,
    Comma,
    Digit0,
    Digit1,
    Digit2,
    Digit3,
    Digit4,
    Digit5,
    Digit6,
    Digit7,
    Digit8,
    Digit9,
    Equal,
    KeyA,
    KeyB,
    KeyC,
    KeyD,
    KeyE,
    KeyF,
    KeyG,
    KeyH,
    KeyI,
    KeyJ,
    KeyK,
    KeyL,
    KeyM,
    KeyN,
    KeyO,
    KeyP,
    KeyQ,
    KeyR,
    KeyS,
    KeyT,
    KeyU,
    KeyV,
    KeyW,
    KeyX,
    KeyY,
    KeyZ,
    Minus,
    Period,
    Quote,
    Semicolon,
    Slash,
    AltLeft,
    AltRight,
    CapsLock,
    ContextMenu,
    ControlLeft,
    ControlRight,
    Enter,
    ShiftLeft,
    ShiftRight,
    Space,
    Tab,
    Convert,
    Delete,
    End,
    Home,
    Insert,
    PageDown,
    PageUp,
    ArrowDown,
    ArrowLeft,
    ArrowRight,
    ArrowUp,
    NumLock,
    Numpad0,
    Numpad1,
    Numpad2,
    Numpad3,
    Numpad4,
    Numpad5,
    Numpad6,
    Numpad7,
    Numpad8,
    Numpad9,
    NumpadAdd,
    NumpadComma,
    NumpadDecimal,
    NumpadDivide,
    NumpadEnter,
    NumpadEqual,
    NumpadMultiply,
    NumpadSubtract,
    Escape,
    F1,
    F2,
    F3,
    F4,
    F5,
    F6,
    F7,
    F8,
    F9,
    F10,
    F11,
    F12,
    F13,
    F14,
    F15,
    F16,
    F17,
    F18,
    F19,
    F20,
    F21,
    F22,
    F23,
    F24,
    ScrollLock,
    Pause,
}

/// A key as the windowing layer reports it.
#[derive(Clone, Copy, Debug, PartialEq, Eq, Structural)]
pub enum PhysicalKey {
    Code(KeyCode),
    Unidentified,
}

/// The set-1 make code of a key. Codes at or above `0xe000` are extended:
/// they are sent as the prefix byte `0xe0` followed by the low byte.
pub open spec fn base_code(k: KeyCode) -> u32 {
    match k {
        KeyCode::Backquote => 0x0029,
        KeyCode::Backslash => 0x002b,
        KeyCode::Backspace => 0x000e,
        KeyCode::BracketLeft => 0x001a,
        KeyCode::BracketRight => 0x001b,
        KeyCode::Comma => 0x0033,
        KeyCode::Digit0 => 0x000b,
        KeyCode::Digit1 => 0x0002,
        KeyCode::Digit2 => 0x0003,
        KeyCode::Digit3 => 0x0004,
        KeyCode::Digit4 => 0x0005,
        KeyCode::Digit5 => 0x0006,
        KeyCode::Digit6 => 0x0007,
        KeyCode::Digit7 => 0x0008,
        KeyCode::Digit8 => 0x0009,
        KeyCode::Digit9 => 0x000a,
        KeyCode::Equal => 0x000d,
        KeyCode::KeyA => 0x001e,
        KeyCode::KeyB => 0x0030,
        KeyCode::KeyC => 0x002e,
        KeyCode::KeyD => 0x0020,
        KeyCode::KeyE => 0x0012,
        KeyCode::KeyF => 0x0021,
        KeyCode::KeyG => 0x0022,
        KeyCode::KeyH => 0x0023,
        KeyCode::KeyI => 0x0017,
        KeyCode::KeyJ => 0x0024,
        KeyCode::KeyK => 0x0025,
        KeyCode::KeyL => 0x0026,
        KeyCode::KeyM => 0x0032,
        KeyCode::KeyN => 0x0031,
        KeyCode::KeyO => 0x0018,
        KeyCode::KeyP => 0x0019,
        KeyCode::KeyQ => 0x0010,
        KeyCode::KeyR => 0x0013,
        KeyCode::KeyS => 0x001f,
        KeyCode::KeyT => 0x0014,
        KeyCode::KeyU => 0x0016,
        KeyCode::KeyV => 0x002f,
        KeyCode::KeyW => 0x0011,
        KeyCode::KeyX => 0x002d,
        KeyCode::KeyY => 0x0015,
        KeyCode::KeyZ => 0x002c,
        KeyCode::Minus => 0x000c,
        KeyCode::Period => 0x0034,
        KeyCode::Quote => 0x0028,
        KeyCode::Semicolon => 0x0027,
        KeyCode::Slash => 0x0035,
        KeyCode::AltLeft => 0x0038,
        KeyCode::AltRight => 0xe038,
        KeyCode::CapsLock => 0x003a,
        KeyCode::ContextMenu => 0xe05d,
        KeyCode::ControlLeft => 0x001d,
        KeyCode::ControlRight => 0xe01d,
        KeyCode::Enter => 0x001c,
        KeyCode::ShiftLeft => 0x002a,
        KeyCode::ShiftRight => 0x0036,
        KeyCode::Space => 0x0039,
        KeyCode::Tab => 0x000f,
        KeyCode::Convert => 0x0079,
        KeyCode::Delete => 0xe053,
        KeyCode::End => 0xe04f,
        KeyCode::Home => 0xe047,
        KeyCode::Insert => 0xe052,
        KeyCode::PageDown => 0xe051,
        KeyCode::PageUp => 0xe049,
        KeyCode::ArrowDown => 0xe050,
        KeyCode::ArrowLeft => 0xe04b,
        KeyCode::ArrowRight => 0xe04d,
        KeyCode::ArrowUp => 0xe048,
        KeyCode::NumLock => 0xe045,
        KeyCode::Numpad0 => 0x0052,
        KeyCode::Numpad1 => 0x004f,
        KeyCode::Numpad2 => 0x0050,
        KeyCode::Numpad3 => 0x0051,
        KeyCode::Numpad4 => 0x004b,
        KeyCode::Numpad5 => 0x004c,
        KeyCode::Numpad6 => 0x004d,
        KeyCode::Numpad7 => 0x0047,
        KeyCode::Numpad8 => 0x0048,
        KeyCode::Numpad9 => 0x0049,
        KeyCode::NumpadAdd => 0x004e,
        KeyCode::NumpadComma => 0x007e,
        KeyCode::NumpadDecimal => 0x0053,
        KeyCode::NumpadDivide => 0xe035,
        KeyCode::NumpadEnter => 0xe01c,
        KeyCode::NumpadEqual => 0x0059,
        KeyCode::NumpadMultiply => 0x0037,
        KeyCode::NumpadSubtract => 0x004a,
        KeyCode::Escape => 0x0001,
        KeyCode::F1 => 0x003b,
        KeyCode::F2 => 0x003c,
        KeyCode::F3 => 0x003d,
        KeyCode::F4 => 0x003e,
        KeyCode::F5 => 0x003f,
        KeyCode::F6 => 0x0040,
        KeyCode::F7 => 0x0041,
        KeyCode::F8 => 0x0042,
        KeyCode::F9 => 0x0043,
        KeyCode::F10 => 0x0044,
        KeyCode::F11 => 0x0057,
        KeyCode::F12 => 0x0058,
        KeyCode::F13 => 0x0064,
        KeyCode::F14 => 0x0065,
        KeyCode::F15 => 0x0066,
        KeyCode::F16 => 0x0067,
        KeyCode::F17 => 0x0068,
        KeyCode::F18 => 0x0069,
        KeyCode::F19 => 0x006a,
        KeyCode::F20 => 0x006b,
        KeyCode::F21 => 0x006c,
        KeyCode::F22 => 0x006d,
        KeyCode::F23 => 0x006e,
        KeyCode::F24 => 0x0076,
        KeyCode::ScrollLock => 0x0046,
        KeyCode::Pause => 0x0045,
    }
}

/// The scancode of a physical key, if it has one.
pub open spec fn scancode_of(key: PhysicalKey) -> Option<u32> {
    match key {
        PhysicalKey::Code(k) => Some(base_code(k)),
        PhysicalKey::Unidentified => None,
    }
}

/// A make code that the translation below can carry: one byte below `0x80`,
/// or an extended code whose low byte is below `0x80`.
pub open spec fn is_make_code(c: u32) -> bool {
    c < 0x80 || (0xe000 <= c && c < 0xe080)
}

fn key_base_code(k: KeyCode) -> (r: u32)
    ensures
        r == base_code(k),
{
    match k {
        KeyCode::Backquote => 0x0029,
        KeyCode::Backslash => 0x002b,
        KeyCode::Backspace => 0x000e,
        KeyCode::BracketLeft => 0x001a,
        KeyCode::BracketRight => 0x001b,
        KeyCode::Comma => 0x0033,
        KeyCode::Digit0 => 0x000b,
        KeyCode::Digit1 => 0x0002,
        KeyCode::Digit2 => 0x0003,
        KeyCode::Digit3 => 0x0004,
        KeyCode::Digit4 => 0x0005,
        KeyCode::Digit5 => 0x0006,
        KeyCode::Digit6 => 0x0007,
        KeyCode::Digit7 => 0x0008,
        KeyCode::Digit8 => 0x0009,
        KeyCode::Digit9 => 0x000a,
        KeyCode::Equal => 0x000d,
        KeyCode::KeyA => 0x001e,
        KeyCode::KeyB => 0x0030,
        KeyCode::KeyC => 0x002e,
        KeyCode::KeyD => 0x0020,
        KeyCode::KeyE => 0x0012,
        KeyCode::KeyF => 0x0021,
        KeyCode::KeyG => 0x0022,
        KeyCode::KeyH => 0x0023,
        KeyCode::KeyI => 0x0017,
        KeyCode::KeyJ => 0x0024,
        KeyCode::KeyK => 0x0025,
        KeyCode::KeyL => 0x0026,
        KeyCode::KeyM => 0x0032,
        KeyCode::KeyN => 0x0031,
        KeyCode::KeyO => 0x0018,
        KeyCode::KeyP => 0x0019,
        KeyCode::KeyQ => 0x0010,
        KeyCode::KeyR => 0x0013,
        KeyCode::KeyS => 0x001f,
        KeyCode::KeyT => 0x0014,
        KeyCode::KeyU => 0x0016,
        KeyCode::KeyV => 0x002f,
        KeyCode::KeyW => 0x0011,
        KeyCode::KeyX => 0x002d,
        KeyCode::KeyY => 0x0015,
        KeyCode::KeyZ => 0x002c,
        KeyCode::Minus => 0x000c,
        KeyCode::Period => 0x0034,
        KeyCode::Quote => 0x0028,
        KeyCode::Semicolon => 0x0027,
        KeyCode::Slash => 0x0035,
        KeyCode::AltLeft => 0x0038,
        KeyCode::AltRight => 0xe038,
        KeyCode::CapsLock => 0x003a,
        KeyCode::ContextMenu => 0xe05d,
        KeyCode::ControlLeft => 0x001d,
        KeyCode::ControlRight => 0xe01d,
        KeyCode::Enter => 0x001c,
        KeyCode::ShiftLeft => 0x002a,
        KeyCode::ShiftRight => 0x0036,
        KeyCode::Space => 0x0039,
        KeyCode::Tab => 0x000f,
        KeyCode::Convert => 0x0079,
        KeyCode::Delete => 0xe053,
        KeyCode::End => 0xe04f,
        KeyCode::Home => 0xe047,
        KeyCode::Insert => 0xe052,
        KeyCode::PageDown => 0xe051,
        KeyCode::PageUp => 0xe049,
        KeyCode::ArrowDown => 0xe050,
        KeyCode::ArrowLeft => 0xe04b,
        KeyCode::ArrowRight => 0xe04d,
        KeyCode::ArrowUp => 0xe048,
        KeyCode::NumLock => 0xe045,
        KeyCode::Numpad0 => 0x0052,
        KeyCode::Numpad1 => 0x004f,
        KeyCode::Numpad2 => 0x0050,
        KeyCode::Numpad3 => 0x0051,
        KeyCode::Numpad4 => 0x004b,
        KeyCode::Numpad5 => 0x004c,
        KeyCode::Numpad6 => 0x004d,
        KeyCode::Numpad7 => 0x0047,
        KeyCode::Numpad8 => 0x0048,
        KeyCode::Numpad9 => 0x0049,
        KeyCode::NumpadAdd => 0x004e,
        KeyCode::NumpadComma => 0x007e,
        KeyCode::NumpadDecimal => 0x0053,
        KeyCode::NumpadDivide => 0xe035,
        KeyCode::NumpadEnter => 0xe01c,
        KeyCode::NumpadEqual => 0x0059,
        KeyCode::NumpadMultiply => 0x0037,
        KeyCode::NumpadSubtract => 0x004a,
        KeyCode::Escape => 0x0001,
        KeyCode::F1 => 0x003b,
        KeyCode::F2 => 0x003c,
        KeyCode::F3 => 0x003d,
        KeyCode::F4 => 0x003e,
        KeyCode::F5 => 0x003f,
        KeyCode::F6 => 0x0040,
        KeyCode::F7 => 0x0041,
        KeyCode::F8 => 0x0042,
        KeyCode::F9 => 0x0043,
        KeyCode::F10 => 0x0044,
        KeyCode::F11 => 0x0057,
        KeyCode::F12 => 0x0058,
        KeyCode::F13 => 0x0064,
        KeyCode::F14 => 0x0065,
        KeyCode::F15 => 0x0066,
        KeyCode::F16 => 0x0067,
        KeyCode::F17 => 0x0068,
        KeyCode::F18 => 0x0069,
        KeyCode::F19 => 0x006a,
        KeyCode::F20 => 0x006b,
        KeyCode::F21 => 0x006c,
        KeyCode::F22 => 0x006d,
        KeyCode::F23 => 0x006e,
        KeyCode::F24 => 0x0076,
        KeyCode::ScrollLock => 0x0046,
        KeyCode::Pause => 0x0045,
    }
}

/// Looks up the set-1 scancode of a physical key.
pub fn physicalkey_to_scancode(physical_key: PhysicalKey) -> (r: Option<u32>)
    ensures
        r == scancode_of(physical_key),
        r matches Some(c) ==> is_make_code(c),
{
    match physical_key {
        PhysicalKey::Code(k) => {
            proof {
                lemma_base_code_is_make_code(k);
            }
            Some(key_base_code(k))
        }
        PhysicalKey::Unidentified => None,
    }
}

/// Byte that announces an extended scancode.
pub const EXTENDED_PREFIX: u8 = 0xe0;

/// Added to a make code to form the code sent when the key is released.
pub const RELEASE_OFFSET: u32 = 0x80;

/// The bytes that one key event puts on the input queue: the scancode, with
/// `0x80` added on release; an extended code goes out as the prefix `0xe0`
/// followed by its low byte.
pub open spec fn key_event_bytes(code: u32, released: bool) -> Seq<u8> {
    let s: int = if released { code + 0x80 } else { code as int };
    if s >= 0xe000 {
        seq![0xe0u8, (s - 0xe000) as u8]
    } else {
        seq![s as u8]
    }
}

/// The bytes of one key event on a key with scancode `code`.
pub fn scancode_bytes(code: u32, released: bool) -> (r: Vec<u8>)
    requires
        is_make_code(code),
    ensures
        r@ == key_event_bytes(code, released),
{
    let mut scancode = code;
    if released {
        scancode = scancode + RELEASE_OFFSET;
    }
    let mut out: Vec<u8> = Vec::new();
    if scancode >= 0xe000 {
        out.push(EXTENDED_PREFIX);
        scancode = scancode - 0xe000;
    }
    out.push(scancode as u8);
    out
}

/// The bytes that a press or release of `key` queues; none for a key
/// without a scancode.
pub open spec fn key_bytes(key: PhysicalKey, released: bool) -> Seq<u8> {
    match scancode_of(key) {
        Some(c) => key_event_bytes(c, released),
        None => Seq::empty(),
    }
}

/// Translates a key press or release into the scancode bytes to queue.
pub fn translate_key(key: PhysicalKey, released: bool) -> (r: Vec<u8>)
    ensures
        r@ == key_bytes(key, released),
{
    match physicalkey_to_scancode(key) {
        Some(code) => scancode_bytes(code, released),
        None => Vec::new(),
    }
}

/// Every mapped key: a release sends the make code plus `0x80`, and an
/// extended key (code at or above `0xe000`) sends `0xe0` as a byte of its own
/// before the make code modulo `0x100` (plus `0x80` on release).
pub proof fn lemma_key_translation(k: KeyCode)
    ensures
        base_code(k) < 0xe000 ==> key_bytes(PhysicalKey::Code(k), false) == seq![
            base_code(k) as u8,
        ] && key_bytes(PhysicalKey::Code(k), true) == seq![(base_code(k) + 0x80) as u8],
        base_code(k) >= 0xe000 ==> key_bytes(PhysicalKey::Code(k), false) == seq![
            0xe0u8,
            (base_code(k) % 0x100) as u8,
        ] && key_bytes(PhysicalKey::Code(k), true) == seq![
            0xe0u8,
            ((base_code(k) % 0x100) + 0x80) as u8,
        ],
{
    lemma_base_code_is_make_code(k);
}

proof fn lemma_base_code_is_make_code(k: KeyCode)
    ensures
        is_make_code(base_code(k)),
{
}

} // verus!
