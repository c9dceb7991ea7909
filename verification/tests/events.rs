use gdi_backend::drawer::Drawer;
use gdi_backend::input::{
    Key, MouseButton, Response, MSG_CHAR, MSG_KEYDOWN, MSG_KEYUP, MSG_LBUTTONDOWN, MSG_LBUTTONUP,
    MSG_MBUTTONDOWN, MSG_MOUSEMOVE, MSG_MOUSEWHEEL, MSG_PAINT, MSG_RBUTTONDOWN, MSG_SYSKEYDOWN,
    MSG_SYSKEYUP, VK_BACK, VK_C, VK_DELETE, VK_END, VK_HOME, VK_LEFT, VK_R, VK_RETURN, VK_RIGHT,
    VK_SHIFT, VK_TAB, VK_V, VK_X, VK_Z, WHEEL_NOTCH,
};
use gdi_backend::wide::{clipboard_copy, clipboard_paste, decode_wide, encode_wide};

fn events(msg: u32, wparam: u64, lparam: u64, ctrl: bool) -> (bool, Vec<Response>) {
    let mut drawer = Drawer::new(100, 100);
    drawer.handle_event(msg, wparam, lparam, ctrl)
}

const UP_BIT: u64 = 1 << 31;

#[test]
fn plain_keys_map_to_down_up_pairs() {
    let table = [
        (VK_SHIFT, Key::Shift),
        (VK_DELETE, Key::Delete),
        (VK_RETURN, Key::Enter),
        (VK_TAB, Key::Tab),
        (VK_BACK, Key::Backspace),
    ];
    for (vk, key) in table {
        let (consumed, down) = events(MSG_KEYDOWN, vk, 0, false);
        assert!(consumed);
        assert_eq!(down, vec![Response::Key { key, down: true }]);
        let (consumed_up, up) = events(MSG_KEYUP, vk, UP_BIT, false);
        assert!(consumed_up);
        assert_eq!(up, vec![Response::Key { key, down: false }]);
    }
}

#[test]
fn arrows_use_word_variants_while_control_is_held() {
    let (_, plain) = events(MSG_KEYDOWN, VK_LEFT, 0, false);
    assert_eq!(plain, vec![Response::Key { key: Key::Left, down: true }]);
    let (_, word) = events(MSG_KEYDOWN, VK_LEFT, 0, true);
    assert_eq!(word, vec![Response::Key { key: Key::WordLeft, down: true }]);
    let (_, plain_r) = events(MSG_KEYDOWN, VK_RIGHT, 0, false);
    assert_eq!(plain_r, vec![Response::Key { key: Key::Right, down: true }]);
    let (_, word_r) = events(MSG_KEYUP, VK_RIGHT, UP_BIT, true);
    assert_eq!(word_r, vec![Response::Key { key: Key::WordRight, down: false }]);
}

#[test]
fn home_and_end_fire_text_and_scroll_boundaries_together() {
    let (_, home) = events(MSG_KEYDOWN, VK_HOME, 0, false);
    assert_eq!(
        home,
        vec![
            Response::Key { key: Key::TextStart, down: true },
            Response::Key { key: Key::ScrollStart, down: true },
        ]
    );
    let (_, end) = events(MSG_KEYDOWN, VK_END, 0, false);
    assert_eq!(
        end,
        vec![
            Response::Key { key: Key::TextEnd, down: true },
            Response::Key { key: Key::ScrollEnd, down: true },
        ]
    );
}

#[test]
fn edit_shortcuts_need_control() {
    let table = [
        (VK_C, Key::Copy),
        (VK_V, Key::Paste),
        (VK_X, Key::Cut),
        (VK_Z, Key::Undo),
        (VK_R, Key::Redo),
    ];
    for (vk, key) in table {
        let (consumed, with_ctrl) = events(MSG_KEYDOWN, vk, 0, true);
        assert!(consumed);
        assert_eq!(with_ctrl, vec![Response::Key { key, down: true }]);
        let (consumed_plain, plain) = events(MSG_KEYDOWN, vk, 0, false);
        assert!(!consumed_plain);
        assert!(plain.is_empty());
    }
}

#[test]
fn system_key_messages_use_the_same_mapping() {
    let (consumed, down) = events(MSG_SYSKEYDOWN, VK_TAB, 0, false);
    assert!(consumed);
    assert_eq!(down, vec![Response::Key { key: Key::Tab, down: true }]);
    let (consumed_up, up) = events(MSG_SYSKEYUP, VK_TAB, UP_BIT, false);
    assert!(consumed_up);
    assert_eq!(up, vec![Response::Key { key: Key::Tab, down: false }]);
}

#[test]
fn unrecognized_keys_are_not_consumed() {
    let (consumed, responses) = events(MSG_KEYDOWN, 0x7B, 0, false);
    assert!(!consumed);
    assert!(responses.is_empty());
}

#[test]
fn printable_characters_are_forwarded() {
    let (consumed, responses) = events(MSG_CHAR, 0x41, 0, false);
    assert!(consumed);
    assert_eq!(responses, vec![Response::Unicode { code: 0x41 }]);
    let (control_char, none) = events(MSG_CHAR, 8, 0, false);
    assert!(!control_char);
    assert!(none.is_empty());
}

#[test]
fn buttons_carry_coordinates_and_capture() {
    let lparam = 5u64 | (7u64 << 16);
    let (consumed, down) = events(MSG_LBUTTONDOWN, 0, lparam, false);
    assert!(consumed);
    assert_eq!(
        down,
        vec![
            Response::Button { button: MouseButton::Left, x: 5, y: 7, down: true },
            Response::CapturePointer,
        ]
    );
    let (_, up) = events(MSG_LBUTTONUP, 0, lparam, false);
    assert_eq!(
        up,
        vec![
            Response::Button { button: MouseButton::Left, x: 5, y: 7, down: false },
            Response::ReleasePointer,
        ]
    );
    let (_, right) = events(MSG_RBUTTONDOWN, 0, lparam, false);
    assert_eq!(right[0], Response::Button { button: MouseButton::Right, x: 5, y: 7, down: true });
    let (_, middle) = events(MSG_MBUTTONDOWN, 0, lparam, false);
    assert_eq!(
        middle[0],
        Response::Button { button: MouseButton::Middle, x: 5, y: 7, down: true }
    );
}

#[test]
fn motion_reports_pixel_coordinates() {
    let lparam = 300u64 | (200u64 << 16);
    let (consumed, responses) = events(MSG_MOUSEMOVE, 0, lparam, false);
    assert!(consumed);
    assert_eq!(responses, vec![Response::Motion { x: 300, y: 200 }]);
}

#[test]
fn one_wheel_notch_normalizes_to_one() {
    let wparam = 120u64 << 16;
    let (consumed, responses) = events(MSG_MOUSEWHEEL, wparam, 0, false);
    assert!(consumed);
    match responses.as_slice() {
        [Response::Scroll { delta }] => {
            assert_eq!(*delta, 120);
            assert_eq!(*delta as f32 / WHEEL_NOTCH as f32, 1.0f32);
        }
        other => panic!("expected one scroll response, got {:?}", other),
    }
}

#[test]
fn downward_wheel_deltas_are_negative() {
    let wparam = (0x10000u64 - 120) << 16;
    let (_, responses) = events(MSG_MOUSEWHEEL, wparam, 0, false);
    assert_eq!(responses, vec![Response::Scroll { delta: -120 }]);
}

#[test]
fn paint_requests_presentation() {
    let (consumed, responses) = events(MSG_PAINT, 0, 0, false);
    assert!(consumed);
    assert_eq!(responses, vec![Response::Present]);
}

#[test]
fn unhandled_messages_fall_through() {
    let (consumed, responses) = events(0x0086, 1, 2, false);
    assert!(!consumed);
    assert!(responses.is_empty());
}

#[test]
fn encode_wide_covers_both_unit_widths() {
    assert_eq!(encode_wide("A"), vec![0x41]);
    assert_eq!(encode_wide("héllo"), vec![0x68, 0xE9, 0x6C, 0x6C, 0x6F]);
    assert_eq!(encode_wide("\u{1D11E}"), vec![0xD834, 0xDD1E]);
    assert_eq!(encode_wide(""), Vec::<u16>::new());
}

#[test]
fn decode_wide_rejects_lone_surrogates() {
    assert_eq!(decode_wide(&[0x41, 0x42]), Some(vec!['A', 'B']));
    assert_eq!(decode_wide(&[0xD834, 0xDD1E]), Some(vec!['\u{1D11E}']));
    assert!(decode_wide(&[0xD834]).is_none());
    assert!(decode_wide(&[0xDD1E, 0xD834]).is_none());
    assert!(decode_wide(&[0x41, 0xD800, 0x42]).is_none());
}

#[test]
fn clipboard_round_trips_text() {
    for text in ["hello", "héllo", "two words\nand a line"] {
        let payload = clipboard_copy(text);
        assert_eq!(*payload.last().unwrap(), 0);
        let pasted = clipboard_paste(&payload).unwrap();
        let expected: Vec<char> = text.chars().collect();
        assert_eq!(pasted, expected);
    }
}

#[test]
fn clipboard_round_trips_a_long_text() {
    let text: String = "x".repeat(10_000);
    let payload = clipboard_copy(&text);
    assert_eq!(payload.len(), 10_001);
    let pasted = clipboard_paste(&payload).unwrap();
    assert_eq!(pasted.len(), 10_000);
    assert!(pasted.iter().all(|c| *c == 'x'));
}

#[test]
fn empty_clipboard_pastes_nothing() {
    let payload = clipboard_copy("");
    assert_eq!(payload, vec![0]);
    assert!(clipboard_paste(&payload).is_none());
    assert!(clipboard_paste(&Vec::new()).is_none());
}
