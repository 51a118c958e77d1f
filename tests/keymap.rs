use webterm::input::{key_events, scroll_event, AppEvent, MouseInput};
use webterm::keymap::{physicalkey_to_scancode, scancode_bytes, translate_key, KeyCode, PhysicalKey};

#[test]
fn scancode_of_plain_keys() {
    assert_eq!(physicalkey_to_scancode(PhysicalKey::Code(KeyCode::KeyA)), Some(0x1e));
    assert_eq!(physicalkey_to_scancode(PhysicalKey::Code(KeyCode::Escape)), Some(0x01));
    assert_eq!(physicalkey_to_scancode(PhysicalKey::Code(KeyCode::F24)), Some(0x76));
    assert_eq!(physicalkey_to_scancode(PhysicalKey::Code(KeyCode::Pause)), Some(0x45));
}

#[test]
fn scancode_of_extended_keys() {
    assert_eq!(physicalkey_to_scancode(PhysicalKey::Code(KeyCode::ArrowUp)), Some(0xe048));
    assert_eq!(physicalkey_to_scancode(PhysicalKey::Code(KeyCode::ControlRight)), Some(0xe01d));
    assert_eq!(physicalkey_to_scancode(PhysicalKey::Code(KeyCode::ContextMenu)), Some(0xe05d));
}

#[test]
fn unidentified_key_has_no_scancode() {
    assert_eq!(physicalkey_to_scancode(PhysicalKey::Unidentified), None);
    assert!(translate_key(PhysicalKey::Unidentified, false).is_empty());
    assert!(key_events(PhysicalKey::Unidentified, true).is_empty());
}

#[test]
fn press_sends_make_code() {
    assert_eq!(translate_key(PhysicalKey::Code(KeyCode::KeyL), false), vec![0x26]);
    assert_eq!(scancode_bytes(0x1c, false), vec![0x1c]);
}

#[test]
fn release_adds_0x80() {
    assert_eq!(translate_key(PhysicalKey::Code(KeyCode::KeyL), true), vec![0xa6]);
    assert_eq!(translate_key(PhysicalKey::Code(KeyCode::Numpad0), true), vec![0xd2]);
}

#[test]
fn extended_key_sends_prefix_then_low_byte() {
    assert_eq!(translate_key(PhysicalKey::Code(KeyCode::ArrowUp), false), vec![0xe0, 0x48]);
    assert_eq!(translate_key(PhysicalKey::Code(KeyCode::ArrowUp), true), vec![0xe0, 0xc8]);
    assert_eq!(translate_key(PhysicalKey::Code(KeyCode::NumpadEnter), true), vec![0xe0, 0x9c]);
}

#[test]
fn key_events_wrap_each_byte() {
    assert_eq!(
        key_events(PhysicalKey::Code(KeyCode::Delete), true),
        vec![AppEvent::Keyboard(0xe0), AppEvent::Keyboard(0xd3)]
    );
    assert_eq!(
        key_events(PhysicalKey::Code(KeyCode::Space), false),
        vec![AppEvent::Keyboard(0x39)]
    );
}

#[test]
fn scroll_is_one_line_by_sign() {
    assert_eq!(scroll_event(true), AppEvent::Mouse(MouseInput::Scroll(1)));
    assert_eq!(scroll_event(false), AppEvent::Mouse(MouseInput::Scroll(-1)));
}
