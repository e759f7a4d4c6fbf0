use imgui_support::keymap::{
    to_imgui_key, KeyCode, VK_BACKQUOTE, VK_DOWN, VK_ESCAPE, VK_F1, VK_F12, VK_NUMPAD5,
    VK_NUMPAD_EQ, VK_RETURN, VK_SPACE, VK_TAB, VK_Z, VK_0, VK_9, VK_A,
};

#[test]
fn named_keys_translate() {
    assert_eq!(to_imgui_key(VK_TAB), Some(KeyCode::Tab));
    assert_eq!(to_imgui_key(VK_RETURN), Some(KeyCode::Enter));
    assert_eq!(to_imgui_key(VK_ESCAPE), Some(KeyCode::Escape));
    assert_eq!(to_imgui_key(VK_SPACE), Some(KeyCode::Space));
    assert_eq!(to_imgui_key(VK_DOWN), Some(KeyCode::DownArrow));
}

#[test]
fn digit_and_letter_rows_translate() {
    assert_eq!(to_imgui_key(VK_0), Some(KeyCode::Alpha0));
    assert_eq!(to_imgui_key(VK_9), Some(KeyCode::Alpha9));
    assert_eq!(to_imgui_key(VK_A), Some(KeyCode::A));
    assert_eq!(to_imgui_key(VK_Z), Some(KeyCode::Z));
}

#[test]
fn function_and_keypad_rows_translate() {
    assert_eq!(to_imgui_key(VK_F1), Some(KeyCode::F1));
    assert_eq!(to_imgui_key(VK_F12), Some(KeyCode::F12));
    assert_eq!(to_imgui_key(VK_NUMPAD5), Some(KeyCode::Keypad5));
    assert_eq!(to_imgui_key(VK_NUMPAD_EQ), Some(KeyCode::KeypadEqual));
    assert_eq!(to_imgui_key(VK_BACKQUOTE), Some(KeyCode::GraveAccent));
}

#[test]
fn unnamed_codes_translate_to_nothing() {
    assert_eq!(to_imgui_key(0x00), None);
    assert_eq!(to_imgui_key(0x07), None);
    assert_eq!(to_imgui_key(0xFF), None);
    // 0x6C sits in the gap between the keypad add and subtract codes.
    assert_eq!(to_imgui_key(0x6C), None);
}
