//! The input translator: native window messages, given as a message code
//! and two machine words, become the GUI library's logical input events.
//! Unrecognized messages are reported as not consumed so the platform's
//! default handling applies.

use vstd::prelude::*;

verus! {

/// Native message code: the surface was resized.
pub const MSG_SIZE: u32 = 0x0005;

/// Native message code: the window must repaint.
pub const MSG_PAINT: u32 = 0x000F;

/// Native message code: a key went down.
pub const MSG_KEYDOWN: u32 = 0x0100;

/// Native message code: a key went up.
pub const MSG_KEYUP: u32 = 0x0101;

/// Native message code: translated character input.
pub const MSG_CHAR: u32 = 0x0102;

/// Native message code: a key went down while the alternate menu key was
/// held.
pub const MSG_SYSKEYDOWN: u32 = 0x0104;

/// Native message code: a key went up while the alternate menu key was
/// held.
pub const MSG_SYSKEYUP: u32 = 0x0105;

/// Native message code: the pointer moved.
pub const MSG_MOUSEMOVE: u32 = 0x0200;

/// Native message code: left button down.
pub const MSG_LBUTTONDOWN: u32 = 0x0201;

/// Native message code: left button up.
pub const MSG_LBUTTONUP: u32 = 0x0202;

/// Native message code: right button down.
pub const MSG_RBUTTONDOWN: u32 = 0x0204;

/// Native message code: right button up.
pub const MSG_RBUTTONUP: u32 = 0x0205;

/// Native message code: middle button down.
pub const MSG_MBUTTONDOWN: u32 = 0x0207;

/// Native message code: middle button up.
pub const MSG_MBUTTONUP: u32 = 0x0208;

/// Native message code: the wheel turned; the signed delta sits in the high
/// word of the first parameter.
pub const MSG_MOUSEWHEEL: u32 = 0x020A;

/// Virtual key code for either shift key.
pub const VK_SHIFT: u64 = 0x10;

/// Virtual key code for the left shift key.
pub const VK_LSHIFT: u64 = 0xA0;

/// Virtual key code for the right shift key.
pub const VK_RSHIFT: u64 = 0xA1;

/// Virtual key code for the delete key.
pub const VK_DELETE: u64 = 0x2E;

/// Virtual key code for the return key.
pub const VK_RETURN: u64 = 0x0D;

/// Virtual key code for the tab key.
pub const VK_TAB: u64 = 0x09;

/// Virtual key code for the left arrow.
pub const VK_LEFT: u64 = 0x25;

/// Virtual key code for the right arrow.
pub const VK_RIGHT: u64 = 0x27;

/// Virtual key code for backspace.
pub const VK_BACK: u64 = 0x08;

/// Virtual key code for the home key.
pub const VK_HOME: u64 = 0x24;

/// Virtual key code for the end key.
pub const VK_END: u64 = 0x23;

/// Virtual key code for page down.
pub const VK_NEXT: u64 = 0x22;

/// Virtual key code for page up.
pub const VK_PRIOR: u64 = 0x21;

/// Virtual key code for the letter C.
pub const VK_C: u64 = 0x43;

/// Virtual key code for the letter V.
pub const VK_V: u64 = 0x56;

/// Virtual key code for the letter X.
pub const VK_X: u64 = 0x58;

/// Virtual key code for the letter Z.
pub const VK_Z: u64 = 0x5A;

/// Virtual key code for the letter R.
pub const VK_R: u64 = 0x52;

/// The magnitude of one native wheel notch; a wheel delta divided by this
/// gives the normalized scroll value.
pub const WHEEL_NOTCH: i32 = 120;

/// A logical key of the GUI library's input model.
#[derive(Clone, Copy, Debug, PartialEq, Eq, Structural)]
pub enum Key {
    /// Shift modifier.
    Shift,
    /// Forward delete.
    Delete,
    /// Return / enter.
    Enter,
    /// Tab.
    Tab,
    /// Backspace.
    Backspace,
    /// Caret left one character.
    Left,
    /// Caret right one character.
    Right,
    /// Caret left one word (control held).
    WordLeft,
    /// Caret right one word (control held).
    WordRight,
    /// Caret to the start of the text.
    TextStart,
    /// Caret to the end of the text.
    TextEnd,
    /// Scroll to the top.
    ScrollStart,
    /// Scroll to the bottom.
    ScrollEnd,
    /// Scroll up one page.
    ScrollUp,
    /// Scroll down one page.
    ScrollDown,
    /// Copy the selection.
    Copy,
    /// Paste over the selection.
    Paste,
    /// Cut the selection.
    Cut,
    /// Undo the last edit.
    Undo,
    /// Redo the undone edit.
    Redo,
}

/// A mouse button of the GUI library's input model.
#[derive(Clone, Copy, Debug, PartialEq, Eq, Structural)]
pub enum MouseButton {
    /// The primary button.
    Left,
    /// The wheel button.
    Middle,
    /// The secondary button.
    Right,
}

/// One call the backend makes in response to a native event: an input
/// injection into the GUI library, a pointer-capture change, or a request
/// to present the canvas.
#[derive(Clone, Copy, Debug, PartialEq, Eq, Structural)]
pub enum Response {
    /// Inject a logical key transition.
    Key { key: Key, down: bool },
    /// Inject one character of text input.
    Unicode { code: u32 },
    /// Inject a button transition at pixel coordinates.
    Button { button: MouseButton, x: i32, y: i32, down: bool },
    /// Capture the pointer so a drag continues outside the window.
    CapturePointer,
    /// Release the captured pointer.
    ReleasePointer,
    /// Inject a wheel delta; the normalized scroll value is `delta` divided
    /// by [`WHEEL_NOTCH`].
    Scroll { delta: i32 },
    /// Inject pointer motion at pixel coordinates.
    Motion { x: i32, y: i32 },
    /// Copy the off-screen canvas to the visible surface.
    Present,
}

/// The x pixel coordinate packed into the low word of the second message
/// parameter.
pub open spec fn spec_x(lparam: u64) -> i32 {
    (lparam % 0x10000) as i32
}

/// The y pixel coordinate packed into the high word of the second message
/// parameter.
pub open spec fn spec_y(lparam: u64) -> i32 {
    ((lparam / 0x10000) % 0x10000) as i32
}

/// The new surface width a resize message reports (low word).
pub open spec fn spec_size_w(lparam: u64) -> u16 {
    (lparam % 0x10000) as u16
}

/// The new surface height a resize message reports (high word).
pub open spec fn spec_size_h(lparam: u64) -> u16 {
    ((lparam / 0x10000) % 0x10000) as u16
}

/// Whether a key message is a press: bit 31 of the second parameter is the
/// previous key state, clear on a press and on key repeat.
pub open spec fn spec_key_down(lparam: u64) -> bool {
    (lparam / 0x8000_0000) % 2 == 0
}

/// The signed wheel delta in the high word of the first parameter.
pub open spec fn spec_wheel_delta(wparam: u64) -> i32 {
    let hi = (wparam / 0x10000) % 0x10000;
    if hi >= 0x8000 {
        (hi - 0x10000) as i32
    } else {
        hi as i32
    }
}

/// The key mapping table: which logical key events one virtual key produces.
/// Home and End each fire a text-boundary and a scroll-boundary event
/// together; the arrow keys map to their word-boundary variants while
/// control is held; the edit shortcuts fire only with control held. An
/// unrecognized key produces nothing.
pub open spec fn key_responses(vk: u64, down: bool, ctrl: bool) -> Seq<Response> {
    if vk == VK_SHIFT || vk == VK_LSHIFT || vk == VK_RSHIFT {
        seq![Response::Key { key: Key::Shift, down }]
    } else if vk == VK_DELETE {
        seq![Response::Key { key: Key::Delete, down }]
    } else if vk == VK_RETURN {
        seq![Response::Key { key: Key::Enter, down }]
    } else if vk == VK_TAB {
        seq![Response::Key { key: Key::Tab, down }]
    } else if vk == VK_LEFT {
        if ctrl {
            seq![Response::Key { key: Key::WordLeft, down }]
        } else {
            seq![Response::Key { key: Key::Left, down }]
        }
    } else if vk == VK_RIGHT {
        if ctrl {
            seq![Response::Key { key: Key::WordRight, down }]
        } else {
            seq![Response::Key { key: Key::Right, down }]
        }
    } else if vk == VK_BACK {
        seq![Response::Key { key: Key::Backspace, down }]
    } else if vk == VK_HOME {
        seq![
            Response::Key { key: Key::TextStart, down },
            Response::Key { key: Key::ScrollStart, down },
        ]
    } else if vk == VK_END {
        seq![
            Response::Key { key: Key::TextEnd, down },
            Response::Key { key: Key::ScrollEnd, down },
        ]
    } else if vk == VK_NEXT {
        seq![Response::Key { key: Key::ScrollDown, down }]
    } else if vk == VK_PRIOR {
        seq![Response::Key { key: Key::ScrollUp, down }]
    } else if vk == VK_C && ctrl {
        seq![Response::Key { key: Key::Copy, down }]
    } else if vk == VK_V && ctrl {
        seq![Response::Key { key: Key::Paste, down }]
    } else if vk == VK_X && ctrl {
        seq![Response::Key { key: Key::Cut, down }]
    } else if vk == VK_Z && ctrl {
        seq![Response::Key { key: Key::Undo, down }]
    } else if vk == VK_R && ctrl {
        seq![Response::Key { key: Key::Redo, down }]
    } else {
        Seq::empty()
    }
}

/// The responses one native event produces. A resize produces none here:
/// its whole effect is the canvas reallocation, which the backend applies
/// itself.
pub open spec fn event_responses(msg: u32, wparam: u64, lparam: u64, ctrl: bool) -> Seq<
    Response,
> {
    if msg == MSG_SIZE {
        Seq::empty()
    } else if msg == MSG_PAINT {
        seq![Response::Present]
    } else if msg == MSG_KEYDOWN || msg == MSG_KEYUP || msg == MSG_SYSKEYDOWN || msg
        == MSG_SYSKEYUP {
        key_responses(wparam, spec_key_down(lparam), ctrl)
    } else if msg == MSG_CHAR {
        if wparam >= 32 {
            seq![Response::Unicode { code: (wparam % 0x1_0000_0000) as u32 }]
        } else {
            Seq::empty()
        }
    } else if msg == MSG_LBUTTONDOWN {
        seq![
            Response::Button {
                button: MouseButton::Left,
                x: spec_x(lparam),
                y: spec_y(lparam),
                down: true,
            },
            Response::CapturePointer,
        ]
    } else if msg == MSG_LBUTTONUP {
        seq![
            Response::Button {
                button: MouseButton::Left,
                x: spec_x(lparam),
                y: spec_y(lparam),
                down: false,
            },
            Response::ReleasePointer,
        ]
    } else if msg == MSG_RBUTTONDOWN {
        seq![
            Response::Button {
                button: MouseButton::Right,
                x: spec_x(lparam),
                y: spec_y(lparam),
                down: true,
            },
            Response::CapturePointer,
        ]
    } else if msg == MSG_RBUTTONUP {
        seq![
            Response::Button {
                button: MouseButton::Right,
                x: spec_x(lparam),
                y: spec_y(lparam),
                down: false,
            },
            Response::ReleasePointer,
        ]
    } else if msg == MSG_MBUTTONDOWN {
        seq![
            Response::Button {
                button: MouseButton::Middle,
                x: spec_x(lparam),
                y: spec_y(lparam),
                down: true,
            },
            Response::CapturePointer,
        ]
    } else if msg == MSG_MBUTTONUP {
        seq![
            Response::Button {
                button: MouseButton::Middle,
                x: spec_x(lparam),
                y: spec_y(lparam),
                down: false,
            },
            Response::ReleasePointer,
        ]
    } else if msg == MSG_MOUSEWHEEL {
        seq![Response::Scroll { delta: spec_wheel_delta(wparam) }]
    } else if msg == MSG_MOUSEMOVE {
        seq![Response::Motion { x: spec_x(lparam), y: spec_y(lparam) }]
    } else {
        Seq::empty()
    }
}

/// Whether the backend consumes the event. A resize is handled (the canvas
/// is reallocated) yet reported as not consumed, so the platform's default
/// processing still runs, exactly as the reference behavior has it; a key
/// event is consumed only when the key mapping recognizes it; character
/// input is consumed only for printable codes (32 and above).
pub open spec fn event_consumed(msg: u32, wparam: u64, lparam: u64, ctrl: bool) -> bool {
    if msg == MSG_PAINT {
        true
    } else if msg == MSG_KEYDOWN || msg == MSG_KEYUP || msg == MSG_SYSKEYDOWN || msg
        == MSG_SYSKEYUP {
        key_responses(wparam, spec_key_down(lparam), ctrl).len() > 0
    } else if msg == MSG_CHAR {
        wparam >= 32
    } else if msg == MSG_LBUTTONDOWN || msg == MSG_LBUTTONUP || msg == MSG_RBUTTONDOWN || msg
        == MSG_RBUTTONUP || msg == MSG_MBUTTONDOWN || msg == MSG_MBUTTONUP || msg
        == MSG_MOUSEWHEEL || msg == MSG_MOUSEMOVE {
        true
    } else {
        false
    }
}

/// Translates one native event into the calls to make against the GUI
/// library, and says whether the event was consumed.
pub fn translate_event(msg: u32, wparam: u64, lparam: u64, ctrl: bool) -> (out: (
    bool,
    Vec<Response>,
))
    ensures
        out.0 == event_consumed(msg, wparam, lparam, ctrl),
        out.1@ == event_responses(msg, wparam, lparam, ctrl),
{
    let mut responses: Vec<Response> = Vec::new();
    let mut consumed = false;
    if msg == MSG_PAINT {
        responses.push(Response::Present);
        consumed = true;
    } else if msg == MSG_KEYDOWN || msg == MSG_KEYUP || msg == MSG_SYSKEYDOWN || msg
        == MSG_SYSKEYUP {
        let down = (lparam / 0x8000_0000) % 2 == 0;
        push_key_responses(&mut responses, wparam, down, ctrl);
        consumed = responses.len() > 0;
    } else if msg == MSG_CHAR {
        if wparam >= 32 {
            responses.push(Response::Unicode { code: (wparam % 0x1_0000_0000) as u32 });
            consumed = true;
        }
    } else if msg == MSG_LBUTTONDOWN || msg == MSG_RBUTTONDOWN || msg == MSG_MBUTTONDOWN {
        let button = if msg == MSG_LBUTTONDOWN {
            MouseButton::Left
        } else if msg == MSG_RBUTTONDOWN {
            MouseButton::Right
        } else {
            MouseButton::Middle
        };
        responses.push(
            Response::Button { button, x: coord_x(lparam), y: coord_y(lparam), down: true },
        );
        responses.push(Response::CapturePointer);
        consumed = true;
    } else if msg == MSG_LBUTTONUP || msg == MSG_RBUTTONUP || msg == MSG_MBUTTONUP {
        let button = if msg == MSG_LBUTTONUP {
            MouseButton::Left
        } else if msg == MSG_RBUTTONUP {
            MouseButton::Right
        } else {
            MouseButton::Middle
        };
        responses.push(
            Response::Button { button, x: coord_x(lparam), y: coord_y(lparam), down: false },
        );
        responses.push(Response::ReleasePointer);
        consumed = true;
    } else if msg == MSG_MOUSEWHEEL {
        let hi: u64 = (wparam / 0x10000) % 0x10000;
        let delta: i32 = if hi >= 0x8000 {
            (hi as i32) - 0x10000
        } else {
            hi as i32
        };
        responses.push(Response::Scroll { delta });
        consumed = true;
    } else if msg == MSG_MOUSEMOVE {
        responses.push(Response::Motion { x: coord_x(lparam), y: coord_y(lparam) });
        consumed = true;
    }
    proof {
        assert(responses@ =~= event_responses(msg, wparam, lparam, ctrl));
    }
    (consumed, responses)
}

/// The x pixel coordinate from the second message parameter.
fn coord_x(lparam: u64) -> (out: i32)
    ensures
        out == spec_x(lparam),
{
    (lparam % 0x10000) as i32
}

/// The y pixel coordinate from the second message parameter.
fn coord_y(lparam: u64) -> (out: i32)
    ensures
        out == spec_y(lparam),
{
    ((lparam / 0x10000) % 0x10000) as i32
}

/// Appends the key mapping's responses for one key transition.
fn push_key_responses(responses: &mut Vec<Response>, vk: u64, down: bool, ctrl: bool)
    ensures
        final(responses)@ == old(responses)@ + key_responses(vk, down, ctrl),
{
    let ghost prior = responses@;
    if vk == VK_SHIFT || vk == VK_LSHIFT || vk == VK_RSHIFT {
        responses.push(Response::Key { key: Key::Shift, down });
    } else if vk == VK_DELETE {
        responses.push(Response::Key { key: Key::Delete, down });
    } else if vk == VK_RETURN {
        responses.push(Response::Key { key: Key::Enter, down });
    } else if vk == VK_TAB {
        responses.push(Response::Key { key: Key::Tab, down });
    } else if vk == VK_LEFT {
        if ctrl {
            responses.push(Response::Key { key: Key::WordLeft, down });
        } else {
            responses.push(Response::Key { key: Key::Left, down });
        }
    } else if vk == VK_RIGHT {
        if ctrl {
            responses.push(Response::Key { key: Key::WordRight, down });
        } else {
            responses.push(Response::Key { key: Key::Right, down });
        }
    } else if vk == VK_BACK {
        responses.push(Response::Key { key: Key::Backspace, down });
    } else if vk == VK_HOME {
        responses.push(Response::Key { key: Key::TextStart, down });
        responses.push(Response::Key { key: Key::ScrollStart, down });
    } else if vk == VK_END {
        responses.push(Response::Key { key: Key::TextEnd, down });
        responses.push(Response::Key { key: Key::ScrollEnd, down });
    } else if vk == VK_NEXT {
        responses.push(Response::Key { key: Key::ScrollDown, down });
    } else if vk == VK_PRIOR {
        responses.push(Response::Key { key: Key::ScrollUp, down });
    } else if vk == VK_C && ctrl {
        responses.push(Response::Key { key: Key::Copy, down });
    } else if vk == VK_V && ctrl {
        responses.push(Response::Key { key: Key::Paste, down });
    } else if vk == VK_X && ctrl {
        responses.push(Response::Key { key: Key::Cut, down });
    } else if vk == VK_Z && ctrl {
        responses.push(Response::Key { key: Key::Undo, down });
    } else if vk == VK_R && ctrl {
        responses.push(Response::Key { key: Key::Redo, down });
    }
    proof {
        assert(responses@ =~= prior + key_responses(vk, down, ctrl));
    }
}

/// The key-pair law: for each of the shift, delete, enter, tab and
/// backspace keys, a down transition followed by an up transition produces
/// exactly the matching logical key down then up; and the left and right
/// arrows map to their word-boundary variants exactly while control is
/// held.
pub proof fn lemma_key_pairs(down: bool, ctrl: bool)
    ensures
        key_responses(VK_SHIFT, down, ctrl) == seq![Response::Key { key: Key::Shift, down }],
        key_responses(VK_DELETE, down, ctrl) == seq![Response::Key { key: Key::Delete, down }],
        key_responses(VK_RETURN, down, ctrl) == seq![Response::Key { key: Key::Enter, down }],
        key_responses(VK_TAB, down, ctrl) == seq![Response::Key { key: Key::Tab, down }],
        key_responses(VK_BACK, down, ctrl) == seq![
            Response::Key { key: Key::Backspace, down },
        ],
        key_responses(VK_LEFT, down, true) == seq![Response::Key { key: Key::WordLeft, down }],
        key_responses(VK_LEFT, down, false) == seq![Response::Key { key: Key::Left, down }],
        key_responses(VK_RIGHT, down, true) == seq![
            Response::Key { key: Key::WordRight, down },
        ],
        key_responses(VK_RIGHT, down, false) == seq![Response::Key { key: Key::Right, down }],
{
}

} // verus!
