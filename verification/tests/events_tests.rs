use imgui_support::events::{
    click_event, flag_set, io_commands, key_event, wheel_event, Action, Event, IoCommand,
    Modifiers, MouseButton, KEY_FLAG_CONTROL, KEY_FLAG_OPTION_ALT, KEY_FLAG_SHIFT, KEY_FLAG_UP,
    MOUSE_STATUS_UP,
};
use imgui_support::geometry::Rect;
use imgui_support::keymap::{VK_A, VK_TAB};
use imgui_support::keymap::KeyCode;

#[test]
fn click_event_distinguishes_press_and_release() {
    assert_eq!(
        click_event(MouseButton::Left, MOUSE_STATUS_UP),
        Event::MouseButton(MouseButton::Left, Action::Release)
    );
    assert_eq!(
        click_event(MouseButton::Right, 1),
        Event::MouseButton(MouseButton::Right, Action::Press)
    );
}

#[test]
fn wheel_event_picks_the_axis() {
    assert_eq!(wheel_event(0, 3), Event::Scroll(0, 3));
    assert_eq!(wheel_event(1, -2), Event::Scroll(-2, 0));
}

#[test]
fn flag_set_tests_single_bits() {
    let flags = KEY_FLAG_SHIFT | KEY_FLAG_UP;
    assert!(flag_set(flags, KEY_FLAG_SHIFT));
    assert!(flag_set(flags, KEY_FLAG_UP));
    assert!(!flag_set(flags, KEY_FLAG_CONTROL));
}

#[test]
fn key_event_reads_flags_and_translates_the_key() {
    let e = key_event(b'a', KEY_FLAG_CONTROL | KEY_FLAG_SHIFT, VK_A);
    assert_eq!(
        e,
        Event::Key(
            Some(KeyCode::A),
            'a',
            Action::Press,
            Modifiers { control: true, option: false, shift: true }
        )
    );
    let r = key_event(b'a', KEY_FLAG_UP, VK_A);
    assert_eq!(
        r,
        Event::Key(
            Some(KeyCode::A),
            'a',
            Action::Release,
            Modifiers { control: false, option: false, shift: false }
        )
    );
}

#[test]
fn key_event_keeps_unknown_keys_as_characters_only() {
    let e = key_event(b'!', 0, 0xFF);
    assert_eq!(e, Event::Key(None, '!', Action::Press, Modifiers::default()));
}

#[test]
fn io_commands_for_a_plain_key_press() {
    let panel = Rect::new(0, 100, 100, 0);
    let e = Event::Key(Some(KeyCode::Tab), '\t', Action::Press, Modifiers::default());
    let cmds = io_commands(&e, &panel);
    assert_eq!(
        cmds,
        vec![
            IoCommand::KeyEvent(KeyCode::Tab, true),
            IoCommand::InputChar('\t'),
            IoCommand::ModCtrl(false),
            IoCommand::ModAlt(false),
            IoCommand::ModShift(false),
        ]
    );
}

#[test]
fn io_commands_suppress_characters_with_control_held() {
    let panel = Rect::new(0, 100, 100, 0);
    let m = Modifiers { control: true, option: false, shift: false };
    let e = Event::Key(Some(KeyCode::A), 'a', Action::Press, m);
    let cmds = io_commands(&e, &panel);
    assert_eq!(
        cmds,
        vec![
            IoCommand::KeyEvent(KeyCode::A, true),
            IoCommand::ModCtrl(true),
            IoCommand::ModAlt(false),
            IoCommand::ModShift(false),
        ]
    );
}

#[test]
fn io_commands_suppress_the_delete_character() {
    let panel = Rect::new(0, 100, 100, 0);
    let e = Event::Key(None, '\u{7f}', Action::Press, Modifiers::default());
    let cmds = io_commands(&e, &panel);
    assert_eq!(
        cmds,
        vec![IoCommand::ModCtrl(false), IoCommand::ModAlt(false), IoCommand::ModShift(false)]
    );
}

#[test]
fn io_commands_suppress_characters_on_release() {
    let panel = Rect::new(0, 100, 100, 0);
    let e = Event::Key(Some(KeyCode::A), 'a', Action::Release, Modifiers::default());
    let cmds = io_commands(&e, &panel);
    assert_eq!(
        cmds,
        vec![
            IoCommand::KeyEvent(KeyCode::A, false),
            IoCommand::ModCtrl(false),
            IoCommand::ModAlt(false),
            IoCommand::ModShift(false),
        ]
    );
}

#[test]
fn io_commands_translate_cursor_positions() {
    let panel = Rect::new(100, 500, 400, 200);
    let e = Event::CursorPos(150, 450);
    assert_eq!(io_commands(&e, &panel), vec![IoCommand::PointerPos(50, 50)]);
}

#[test]
fn io_commands_report_the_pointer_leaving() {
    let panel = Rect::new(100, 500, 400, 200);
    let e = Event::CursorPos(450, 450);
    assert_eq!(io_commands(&e, &panel), vec![IoCommand::PointerLeft]);
}

#[test]
fn io_commands_forward_scroll_and_buttons() {
    let panel = Rect::new(0, 100, 100, 0);
    assert_eq!(io_commands(&Event::Scroll(2, -1), &panel), vec![IoCommand::Wheel(2, -1)]);
    assert_eq!(
        io_commands(&Event::MouseButton(MouseButton::Left, Action::Press), &panel),
        vec![IoCommand::Button(MouseButton::Left, true)]
    );
    assert_eq!(
        io_commands(&Event::MouseButton(MouseButton::Right, Action::Release), &panel),
        vec![IoCommand::Button(MouseButton::Right, false)]
    );
}

#[test]
fn modifiers_default_is_none_held() {
    assert_eq!(Modifiers::default(), Modifiers { control: false, option: false, shift: false });
}

#[test]
fn key_event_uses_the_tab_key() {
    let e = key_event(9, 0, VK_TAB);
    assert_eq!(e, Event::Key(Some(KeyCode::Tab), '\t', Action::Press, Modifiers::default()));
}
