use window::global_input::{
    async_key_down, encode_wheel_delta, global_event, handle_mouse_msg, hook_repost,
    is_hook_message, modifiers_from_states, scroll_key, synthetic_code, HookRepost,
    USER_LBUTTONDOWN, USER_LBUTTONUP, USER_MOUSEWHEEL, USER_RBUTTONDOWN, USER_XBUTTONDBLCLK,
    USER_XBUTTONDOWN, USER_XBUTTONUP,
};
use window::message::{
    WM_CLOSE, WM_LBUTTONDBLCLK, WM_LBUTTONDOWN, WM_LBUTTONUP, WM_MOUSEWHEEL, WM_RBUTTONDOWN,
    WM_USER, WM_XBUTTONDBLCLK, WM_XBUTTONDOWN, WM_XBUTTONUP,
};
use window::{
    Event, GlobalMouseButtonState, GlobalMouseState, Key, Modifiers, MSLLHOOKSTRUCT, MSG, POINT,
    RECT,
};

fn no_modifiers() -> Modifiers {
    Modifiers { control: false, shift: false, alt: false, win: false }
}

fn hook_at(x: i32, y: i32, mouse_data: u32) -> MSLLHOOKSTRUCT {
    MSLLHOOKSTRUCT { pt: POINT { x, y }, mouseData: mouse_data, flags: 0, time: 0, dwExtraInfo: 0 }
}

fn message(code: u32, w_param: usize) -> MSG {
    let mut m = MSG::new();
    m.message = code;
    m.w_param = w_param;
    m
}

fn pixel(x: i32, y: i32) -> RECT {
    RECT::new(x, y, x + 1, y + 1)
}

/// Runs one native hook event through both stages, as the hook and the
/// polling thread would.
fn deliver(state: &mut GlobalMouseState, raw: u32, hook: MSLLHOOKSTRUCT) -> Option<Event> {
    match hook_repost(0, raw as usize, Some(hook)) {
        HookRepost::Post { message: code, w_param } => {
            global_event(state, &message(code, w_param), 1, Some(hook), no_modifiers())
        }
        HookRepost::Forward => None,
    }
}

#[test]
fn click_reported_once_per_cycle() {
    let mut b = GlobalMouseButtonState::new();
    assert!(!b.clicked());
    b.pressed(pixel(1, 2));
    assert!(!b.clicked());
    b.released(pixel(3, 4));
    assert!(b.clicked());
    assert!(!b.clicked());
    b.pressed(pixel(5, 6));
    assert!(!b.clicked());
    b.released(pixel(7, 8));
    assert!(b.clicked());
}

#[test]
fn observing_press_keeps_release_and_back() {
    let mut b = GlobalMouseButtonState::new();
    b.pressed(pixel(0, 0));
    b.released(pixel(1, 1));
    b.pressed = true;
    assert!(b.is_pressed());
    assert!(!b.is_pressed());
    assert!(b.released);
    assert!(b.is_released());
    assert!(!b.is_released());

    let mut c = GlobalMouseButtonState::new();
    c.pressed(pixel(0, 0));
    c.released = true;
    assert!(c.is_released());
    assert!(c.pressed);
    assert!(c.is_pressed());
}

#[test]
fn release_without_press_changes_nothing() {
    let mut b = GlobalMouseButtonState::new();
    b.released(pixel(3, 4));
    assert_eq!(b, GlobalMouseButtonState::new());
    assert!(!b.is_released());
    assert!(!b.clicked());
    b.pressed(pixel(1, 1));
    b.released(pixel(2, 2));
    assert!(b.clicked());
    b.released(pixel(5, 5));
    assert!(!b.clicked());
    assert_eq!(b.release_position, Some(pixel(2, 2)));
}

#[test]
fn observed_press_still_allows_release() {
    let mut b = GlobalMouseButtonState::new();
    b.pressed(pixel(1, 1));
    assert!(b.is_pressed());
    assert!(b.held);
    b.released(pixel(2, 2));
    assert!(!b.held);
    assert!(b.is_released());
}

#[test]
fn wheel_ignores_cursor_at_edge() {
    let mut state = GlobalMouseState::new();
    let r = handle_mouse_msg(
        &mut state,
        &message(USER_MOUSEWHEEL, (-120isize) as usize),
        1,
        Some(hook_at(i32::MAX, i32::MAX, 0)),
        no_modifiers(),
    );
    assert_eq!(r, Some(Event::Input(Key::ScrollDown, no_modifiers())));
}

#[test]
fn press_and_release_record_positions() {
    let mut b = GlobalMouseButtonState::new();
    b.pressed(pixel(10, 20));
    assert_eq!(b.inital_position, pixel(10, 20));
    assert_eq!(b.release_position, None);
    b.released(pixel(30, 40));
    assert_eq!(b.release_position, Some(pixel(30, 40)));
    assert_eq!(b.inital_position, pixel(10, 20));
}

#[test]
fn new_states_are_idle() {
    let b = GlobalMouseButtonState::new();
    assert!(!b.pressed && !b.released);
    assert_eq!(b, GlobalMouseButtonState::default());
    let s = GlobalMouseState::new();
    assert_eq!(s.left_mouse, b);
    assert_eq!(s.mouse_5, b);
    assert_eq!(s, GlobalMouseState::default());
}

#[test]
fn wheel_notch_up_scrolls_up() {
    let w = encode_wheel_delta(120 << 16);
    assert_eq!(w, 120);
    assert_eq!(scroll_key(w), Key::ScrollUp);
}

#[test]
fn wheel_notch_down_scrolls_down() {
    let w = encode_wheel_delta(((-120i16) as u16 as u32) << 16);
    assert_eq!(w, (-120isize) as usize);
    assert_eq!(scroll_key(w), Key::ScrollDown);
}

#[test]
fn wheel_zero_scrolls_up() {
    assert_eq!(scroll_key(encode_wheel_delta(0)), Key::ScrollUp);
    assert_eq!(scroll_key(encode_wheel_delta(0x0000_ffff)), Key::ScrollUp);
}

#[test]
fn wheel_through_both_stages() {
    let mut state = GlobalMouseState::new();
    let up = deliver(&mut state, WM_MOUSEWHEEL, hook_at(0, 0, 120 << 16));
    assert_eq!(up, Some(Event::Input(Key::ScrollUp, no_modifiers())));
    let down = deliver(&mut state, WM_MOUSEWHEEL, hook_at(0, 0, 0xff88 << 16));
    assert_eq!(down, Some(Event::Input(Key::ScrollDown, no_modifiers())));
    assert_eq!(state, GlobalMouseState::new());
}

#[test]
fn wheel_event_carries_modifiers() {
    let mut state = GlobalMouseState::new();
    let m = Modifiers { control: true, shift: false, alt: true, win: false };
    let r = handle_mouse_msg(
        &mut state,
        &message(USER_MOUSEWHEEL, 120),
        1,
        Some(hook_at(0, 0, 0)),
        m,
    );
    assert_eq!(r, Some(Event::Input(Key::ScrollUp, Modifiers { control: true, shift: false, alt: true, win: false })));
}

#[test]
fn extended_button_one_is_fourth_button() {
    let mut state = GlobalMouseState::new();
    let r = deliver(&mut state, WM_XBUTTONDOWN, hook_at(5, 6, 1 << 16));
    assert_eq!(r, None);
    assert!(state.mouse_4.pressed);
    assert_eq!(state.mouse_4.inital_position, pixel(5, 6));
    assert_eq!(state.mouse_5, GlobalMouseButtonState::new());
    deliver(&mut state, WM_XBUTTONUP, hook_at(7, 8, 1 << 16));
    assert!(state.mouse_4.released);
    assert!(state.mouse_4.clicked());
}

#[test]
fn extended_button_two_is_fifth_button() {
    let mut state = GlobalMouseState::new();
    let r = deliver(&mut state, WM_XBUTTONDOWN, hook_at(5, 6, 2 << 16));
    assert_eq!(r, None);
    assert!(state.mouse_5.pressed);
    assert_eq!(state.mouse_4, GlobalMouseButtonState::new());
}

#[test]
fn extended_button_other_is_dropped() {
    let mut state = GlobalMouseState::new();
    assert_eq!(deliver(&mut state, WM_XBUTTONDOWN, hook_at(5, 6, 3 << 16)), None);
    assert_eq!(deliver(&mut state, WM_XBUTTONUP, hook_at(5, 6, 0)), None);
    assert_eq!(state, GlobalMouseState::new());
}

#[test]
fn hook_order_is_kept() {
    let mut state = GlobalMouseState::new();
    deliver(&mut state, WM_LBUTTONDOWN, hook_at(1, 1, 0));
    deliver(&mut state, WM_LBUTTONUP, hook_at(2, 2, 0));
    deliver(&mut state, WM_RBUTTONDOWN, hook_at(3, 3, 0));
    assert!(!state.left_mouse.pressed);
    assert!(state.left_mouse.released);
    assert_eq!(state.left_mouse.inital_position, pixel(1, 1));
    assert_eq!(state.left_mouse.release_position, Some(pixel(2, 2)));
    assert!(state.right_mouse.pressed);
    assert_eq!(state.right_mouse.inital_position, pixel(3, 3));
    assert_eq!(state.middle_mouse, GlobalMouseButtonState::new());
}

#[test]
fn reversed_order_leaves_button_down() {
    let mut state = GlobalMouseState::new();
    deliver(&mut state, WM_LBUTTONUP, hook_at(2, 2, 0));
    assert_eq!(state, GlobalMouseState::new());
    deliver(&mut state, WM_LBUTTONDOWN, hook_at(1, 1, 0));
    assert!(state.left_mouse.pressed);
    assert!(state.left_mouse.held);
    assert!(!state.left_mouse.released);
}

#[test]
fn double_clicks_change_nothing() {
    let mut state = GlobalMouseState::new();
    assert_eq!(deliver(&mut state, WM_LBUTTONDBLCLK, hook_at(1, 1, 0)), None);
    assert_eq!(deliver(&mut state, WM_XBUTTONDBLCLK, hook_at(1, 1, 1 << 16)), None);
    assert_eq!(state, GlobalMouseState::new());
}

#[test]
fn hook_reposts_buttons_with_private_codes() {
    assert_eq!(
        hook_repost(0, WM_LBUTTONDOWN as usize, None),
        HookRepost::Post { message: USER_LBUTTONDOWN, w_param: WM_LBUTTONDOWN as usize }
    );
    assert_eq!(synthetic_code(WM_LBUTTONUP), Some(USER_LBUTTONUP));
    assert_eq!(synthetic_code(WM_RBUTTONDOWN), Some(USER_RBUTTONDOWN));
    assert_eq!(synthetic_code(WM_XBUTTONDOWN), Some(USER_XBUTTONDOWN));
    assert_eq!(synthetic_code(WM_XBUTTONUP), Some(USER_XBUTTONUP));
    assert_eq!(synthetic_code(WM_XBUTTONDBLCLK), Some(USER_XBUTTONDBLCLK));
    assert_eq!(synthetic_code(0x0200), None);
}

#[test]
fn hook_forwards_the_rest() {
    assert_eq!(hook_repost(-1, WM_LBUTTONDOWN as usize, None), HookRepost::Forward);
    assert_eq!(hook_repost(0, 0x0200, Some(hook_at(0, 0, 0))), HookRepost::Forward);
    assert_eq!(hook_repost(0, WM_MOUSEWHEEL as usize, None), HookRepost::Forward);
    assert_eq!(
        hook_repost(0, WM_MOUSEWHEEL as usize, Some(hook_at(0, 0, 240 << 16))),
        HookRepost::Post { message: USER_MOUSEWHEEL, w_param: 240 }
    );
}

#[test]
fn empty_retrieval_and_missing_data_yield_nothing() {
    let mut state = GlobalMouseState::new();
    let m = message(USER_LBUTTONDOWN, 0);
    assert_eq!(handle_mouse_msg(&mut state, &m, 0, Some(hook_at(1, 1, 0)), no_modifiers()), None);
    assert_eq!(handle_mouse_msg(&mut state, &m, 1, None, no_modifiers()), None);
    assert_eq!(state, GlobalMouseState::new());
}

#[test]
fn ordinary_messages_are_not_hook_messages() {
    let mut state = GlobalMouseState::new();
    assert!(!is_hook_message(WM_USER));
    assert!(is_hook_message(WM_USER + 1));
    let r = global_event(&mut state, &message(WM_CLOSE, 0), 1, Some(hook_at(0, 0, 0)), no_modifiers());
    assert_eq!(r, None);
    assert_eq!(state, GlobalMouseState::new());
}

#[test]
fn key_states() {
    assert!(async_key_down(i16::MIN));
    assert!(async_key_down(-1));
    assert!(!async_key_down(1));
    assert!(!async_key_down(0));
    let m = modifiers_from_states(0x80, 0, 0x81u16 as i16, 0, 0xff80u16 as i16);
    assert_eq!(m, Modifiers { control: true, shift: false, alt: true, win: true });
    let n = modifiers_from_states(0x7f, 0x100, 0, 0, 0);
    assert_eq!(n, no_modifiers());
}

#[test]
fn key_into_makes_input_event() {
    assert_eq!(
        Key::Char('a').into(no_modifiers()),
        Some(Event::Input(Key::Char('a'), no_modifiers()))
    );
}
