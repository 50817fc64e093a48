use crate::event::{Event, Key, Modifiers};
use crate::geometry::{HIWORD, POINT, RECT};
use crate::message::{
    MSG, WM_LBUTTONDBLCLK, WM_LBUTTONDOWN, WM_LBUTTONUP, WM_MBUTTONDBLCLK, WM_MBUTTONDOWN,
    WM_MBUTTONUP, WM_MOUSEWHEEL, WM_RBUTTONDBLCLK, WM_RBUTTONDOWN, WM_RBUTTONUP, WM_USER,
    WM_XBUTTONDBLCLK, WM_XBUTTONDOWN, WM_XBUTTONUP,
};
use vstd::prelude::*;

verus! {

/// The low-level mouse hook's id for `SetWindowsHookExA`.
pub const WH_MOUSE_LL: i32 = 14;

/// One notch of the mouse wheel.
pub const WHEEL_DELTA: i16 = 120;

pub const USER_MOUSEWHEEL: u32 = WM_USER + 1;
pub const USER_LBUTTONDOWN: u32 = WM_USER + 2;
pub const USER_LBUTTONUP: u32 = WM_USER + 3;
pub const USER_LBUTTONDBLCLK: u32 = WM_USER + 4;
pub const USER_RBUTTONDOWN: u32 = WM_USER + 5;
pub const USER_RBUTTONUP: u32 = WM_USER + 6;
pub const USER_RBUTTONDBLCLK: u32 = WM_USER + 7;
pub const USER_MBUTTONDOWN: u32 = WM_USER + 8;
pub const USER_MBUTTONUP: u32 = WM_USER + 9;
pub const USER_MBUTTONDBLCLK: u32 = WM_USER + 10;
pub const USER_XBUTTONDOWN: u32 = WM_USER + 11;
pub const USER_XBUTTONUP: u32 = WM_USER + 12;
pub const USER_XBUTTONDBLCLK: u32 = WM_USER + 13;

/// What the low-level mouse hook hands its callback.
#[derive(Debug, Default, Clone, Copy)]
pub struct MSLLHOOKSTRUCT {
    pub pt: POINT,
    pub mouseData: u32,
    pub flags: u32,
    pub time: u32,
    pub dwExtraInfo: usize,
}

/// Press and release of one mouse button, seen through the global hook.
#[derive(Debug, Copy, Clone, PartialEq, Eq)]
pub struct GlobalMouseButtonState {
    /// A press that has not been observed yet.
    pub pressed: bool,
    /// A release that has not been observed yet.
    pub released: bool,
    /// The button is down: pressed and not released since.
    pub held: bool,
    pub inital_position: RECT,
    pub release_position: Option<RECT>,
}

impl GlobalMouseButtonState {
    /// Neither pressed nor released, at the origin.
    pub open spec fn new_spec() -> GlobalMouseButtonState {
        GlobalMouseButtonState {
            pressed: false,
            released: false,
            held: false,
            inital_position: RECT { left: 0, top: 0, right: 0, bottom: 0 },
            release_position: None,
        }
    }

    /// A pending release ended a hold, so a press came before it, and it
    /// carries the place where it happened.
    pub open spec fn wf(self) -> bool {
        self.released ==> !self.held && self.release_position is Some
    }

    /// The state after the button went down at `pos`.
    pub open spec fn on_press(self, pos: RECT) -> GlobalMouseButtonState {
        GlobalMouseButtonState {
            pressed: true,
            released: false,
            held: true,
            inital_position: pos,
            release_position: None,
        }
    }

    /// The state after the button came up at `pos`. A release with no
    /// press before it since the last release changes nothing.
    pub open spec fn on_release(self, pos: RECT) -> GlobalMouseButtonState {
        if self.held {
            GlobalMouseButtonState {
                pressed: false,
                released: true,
                held: false,
                release_position: Some(pos),
                ..self
            }
        } else {
            self
        }
    }

    /// The state once a press has been observed.
    pub open spec fn press_observed(self) -> GlobalMouseButtonState {
        GlobalMouseButtonState { pressed: false, ..self }
    }

    /// The state once a release has been observed.
    pub open spec fn release_observed(self) -> GlobalMouseButtonState {
        GlobalMouseButtonState { released: false, ..self }
    }

    /// The state once a click has been observed: a pending release is
    /// consumed together with any pending press.
    pub open spec fn click_observed(self) -> GlobalMouseButtonState {
        if self.released {
            GlobalMouseButtonState { pressed: false, released: false, ..self }
        } else {
            self
        }
    }

    pub fn new() -> (r: GlobalMouseButtonState)
        ensures
            r == GlobalMouseButtonState::new_spec(),
            r.wf(),
    {
        GlobalMouseButtonState {
            pressed: false,
            released: false,
            held: false,
            inital_position: RECT { left: 0, top: 0, right: 0, bottom: 0 },
            release_position: None,
        }
    }

    /// Whether a press is pending; reading it consumes it.
    pub fn is_pressed(&mut self) -> (r: bool)
        ensures
            r == old(self).pressed,
            *final(self) == old(self).press_observed(),
            old(self).wf() ==> final(self).wf(),
    {
        if self.pressed {
            self.pressed = false;
            true
        } else {
            false
        }
    }

    /// Whether a release is pending; reading it consumes it.
    pub fn is_released(&mut self) -> (r: bool)
        ensures
            r == old(self).released,
            *final(self) == old(self).release_observed(),
            old(self).wf() ==> final(self).wf(),
    {
        if self.released {
            self.released = false;
            true
        } else {
            false
        }
    }

    /// Whether a press has been followed by a release since the last click.
    pub fn clicked(&mut self) -> (r: bool)
        ensures
            r == old(self).released,
            *final(self) == old(self).click_observed(),
            old(self).wf() ==> final(self).wf(),
    {
        if self.released {
            self.pressed = false;
            self.released = false;
            true
        } else {
            false
        }
    }

    /// Records that the button went down at `pos`.
    pub fn pressed(&mut self, pos: RECT)
        ensures
            *final(self) == old(self).on_press(pos),
            final(self).wf(),
    {
        self.pressed = true;
        self.released = false;
        self.held = true;
        self.inital_position = pos;
        self.release_position = None;
    }

    /// Records that the button came up at `pos`, where it was held.
    pub fn released(&mut self, pos: RECT)
        ensures
            *final(self) == old(self).on_release(pos),
            old(self).wf() ==> final(self).wf(),
    {
        if self.held {
            self.pressed = false;
            self.released = true;
            self.held = false;
            self.release_position = Some(pos);
        }
    }
}

impl Default for GlobalMouseButtonState {
    fn default() -> (r: GlobalMouseButtonState)
        ensures
            r == GlobalMouseButtonState::new_spec(),
    {
        GlobalMouseButtonState::new()
    }
}

/// The buttons that the global hook follows.
#[derive(Debug, Clone, Copy, PartialEq, Eq, Structural)]
pub enum MouseButton {
    Left,
    Right,
    Middle,
    Mouse4,
    Mouse5,
}

/// The state of every button that the global hook follows.
#[derive(Debug, Clone, Copy, PartialEq, Eq)]
pub struct GlobalMouseState {
    pub left_mouse: GlobalMouseButtonState,
    pub right_mouse: GlobalMouseButtonState,
    pub middle_mouse: GlobalMouseButtonState,
    pub mouse_4: GlobalMouseButtonState,
    pub mouse_5: GlobalMouseButtonState,
}

impl GlobalMouseState {
    pub open spec fn button(self, b: MouseButton) -> GlobalMouseButtonState {
        match b {
            MouseButton::Left => self.left_mouse,
            MouseButton::Right => self.right_mouse,
            MouseButton::Middle => self.middle_mouse,
            MouseButton::Mouse4 => self.mouse_4,
            MouseButton::Mouse5 => self.mouse_5,
        }
    }

    pub open spec fn with_button(self, b: MouseButton, s: GlobalMouseButtonState) -> GlobalMouseState {
        match b {
            MouseButton::Left => GlobalMouseState { left_mouse: s, ..self },
            MouseButton::Right => GlobalMouseState { right_mouse: s, ..self },
            MouseButton::Middle => GlobalMouseState { middle_mouse: s, ..self },
            MouseButton::Mouse4 => GlobalMouseState { mouse_4: s, ..self },
            MouseButton::Mouse5 => GlobalMouseState { mouse_5: s, ..self },
        }
    }

    pub open spec fn wf(self) -> bool {
        &&& self.left_mouse.wf()
        &&& self.right_mouse.wf()
        &&& self.middle_mouse.wf()
        &&& self.mouse_4.wf()
        &&& self.mouse_5.wf()
    }

    pub fn new() -> (r: GlobalMouseState)
        ensures
            forall|b: MouseButton| #[trigger] r.button(b) == GlobalMouseButtonState::new_spec(),
            r.wf(),
    {
        GlobalMouseState {
            left_mouse: GlobalMouseButtonState::new(),
            right_mouse: GlobalMouseButtonState::new(),
            middle_mouse: GlobalMouseButtonState::new(),
            mouse_4: GlobalMouseButtonState::new(),
            mouse_5: GlobalMouseButtonState::new(),
        }
    }

    /// Records that button `b` went down at `pos`.
    pub fn press(&mut self, b: MouseButton, pos: RECT)
        ensures
            *final(self) == old(self).with_button(b, old(self).button(b).on_press(pos)),
    {
        match b {
            MouseButton::Left => self.left_mouse.pressed(pos),
            MouseButton::Right => self.right_mouse.pressed(pos),
            MouseButton::Middle => self.middle_mouse.pressed(pos),
            MouseButton::Mouse4 => self.mouse_4.pressed(pos),
            MouseButton::Mouse5 => self.mouse_5.pressed(pos),
        }
    }

    /// Records that button `b` came up at `pos`.
    pub fn release(&mut self, b: MouseButton, pos: RECT)
        ensures
            *final(self) == old(self).with_button(b, old(self).button(b).on_release(pos)),
    {
        match b {
            MouseButton::Left => self.left_mouse.released(pos),
            MouseButton::Right => self.right_mouse.released(pos),
            MouseButton::Middle => self.middle_mouse.released(pos),
            MouseButton::Mouse4 => self.mouse_4.released(pos),
            MouseButton::Mouse5 => self.mouse_5.released(pos),
        }
    }
}

impl Default for GlobalMouseState {
    fn default() -> (r: GlobalMouseState)
        ensures
            forall|b: MouseButton| #[trigger] r.button(b) == GlobalMouseButtonState::new_spec(),
    {
        GlobalMouseState::new()
    }
}

/// A 16-bit word read as a two's complement number.
pub open spec fn signed16(v: int) -> int {
    let lo = v % 0x1_0000;
    if lo < 0x8000 {
        lo
    } else {
        lo - 0x1_0000
    }
}

/// The wheel movement carried in the high word of the hook's `mouseData`,
/// in units where one notch is `WHEEL_DELTA`.
pub open spec fn wheel_delta(mouse_data: u32) -> int {
    signed16((mouse_data / 0x1_0000) as int)
}

/// The wheel delta as decoded from a reposted message's `w_param`.
pub open spec fn decoded_delta(w_param: usize) -> int {
    signed16(w_param as int)
}

/// The scroll direction of a wheel delta; no movement counts as up.
pub open spec fn scroll_key_of(delta: int) -> Key {
    if delta >= 0 {
        Key::ScrollUp
    } else {
        Key::ScrollDown
    }
}

/// The private code that the hook reposts for a native button message.
pub open spec fn synthetic_message(raw: u32) -> Option<u32> {
    if raw == WM_LBUTTONDOWN {
        Some(USER_LBUTTONDOWN)
    } else if raw == WM_LBUTTONUP {
        Some(USER_LBUTTONUP)
    } else if raw == WM_LBUTTONDBLCLK {
        Some(USER_LBUTTONDBLCLK)
    } else if raw == WM_RBUTTONDOWN {
        Some(USER_RBUTTONDOWN)
    } else if raw == WM_RBUTTONUP {
        Some(USER_RBUTTONUP)
    } else if raw == WM_RBUTTONDBLCLK {
        Some(USER_RBUTTONDBLCLK)
    } else if raw == WM_MBUTTONDOWN {
        Some(USER_MBUTTONDOWN)
    } else if raw == WM_MBUTTONUP {
        Some(USER_MBUTTONUP)
    } else if raw == WM_MBUTTONDBLCLK {
        Some(USER_MBUTTONDBLCLK)
    } else if raw == WM_XBUTTONDOWN {
        Some(USER_XBUTTONDOWN)
    } else if raw == WM_XBUTTONUP {
        Some(USER_XBUTTONUP)
    } else if raw == WM_XBUTTONDBLCLK {
        Some(USER_XBUTTONDBLCLK)
    } else {
        None
    }
}

/// What the hook callback does with one native mouse event, besides
/// handing it on to the next hook.
#[derive(Debug, Clone, Copy, PartialEq, Eq, Structural)]
pub enum HookRepost {
    /// Nothing is posted.
    Forward,
    /// `message` is posted to the polling thread with this `w_param` and the
    /// callback's own `l_param`.
    Post { message: u32, w_param: usize },
}

/// The repost for a hook callback with `code` and native message `w_param`;
/// `hook` is the callback's data, where it could be read.
pub open spec fn repost_for(code: i32, w_param: usize, hook: Option<MSLLHOOKSTRUCT>) -> HookRepost {
    let raw = w_param as u32;
    if code < 0 {
        HookRepost::Forward
    } else if raw == WM_MOUSEWHEEL {
        match hook {
            Some(h) => HookRepost::Post {
                message: USER_MOUSEWHEEL,
                w_param: wheel_delta(h.mouseData) as usize,
            },
            None => HookRepost::Forward,
        }
    } else {
        match synthetic_message(raw) {
            Some(m) => HookRepost::Post { message: m, w_param },
            None => HookRepost::Forward,
        }
    }
}

/// The button and direction (down when `true`) of a reposted button
/// message. Extended buttons are told apart by the high word of
/// `mouse_data`: 1 is the fourth button, 2 the fifth, anything else none.
/// Double clicks change no state.
pub open spec fn button_transition(message: u32, mouse_data: u32) -> Option<(MouseButton, bool)> {
    let aux = mouse_data / 0x1_0000;
    if message == USER_LBUTTONDOWN {
        Some((MouseButton::Left, true))
    } else if message == USER_LBUTTONUP {
        Some((MouseButton::Left, false))
    } else if message == USER_RBUTTONDOWN {
        Some((MouseButton::Right, true))
    } else if message == USER_RBUTTONUP {
        Some((MouseButton::Right, false))
    } else if message == USER_MBUTTONDOWN {
        Some((MouseButton::Middle, true))
    } else if message == USER_MBUTTONUP {
        Some((MouseButton::Middle, false))
    } else if message == USER_XBUTTONDOWN || message == USER_XBUTTONUP {
        let down = message == USER_XBUTTONDOWN;
        if aux == 1 {
            Some((MouseButton::Mouse4, down))
        } else if aux == 2 {
            Some((MouseButton::Mouse5, down))
        } else {
            None
        }
    } else {
        None
    }
}

/// The one-pixel rectangle at the cursor position of a hook event.
pub open spec fn hook_position(h: MSLLHOOKSTRUCT) -> RECT {
    RECT {
        left: h.pt.x,
        top: h.pt.y,
        right: (h.pt.x + 1) as i32,
        bottom: (h.pt.y + 1) as i32,
    }
}

/// The cursor position of a hook event leaves room for the one-pixel
/// rectangle that a button message records; a wheel message records none.
pub open spec fn position_fits(message: u32, hook: Option<MSLLHOOKSTRUCT>) -> bool {
    message != USER_MOUSEWHEEL ==> (hook matches Some(h) ==> h.pt.x < i32::MAX && h.pt.y
        < i32::MAX)
}

/// The button state and event after a message retrieved with `result`
/// (zero: nothing retrieved) on the polling thread.
pub open spec fn hook_message_effect(
    state: GlobalMouseState,
    message: u32,
    w_param: usize,
    result: i32,
    hook: Option<MSLLHOOKSTRUCT>,
    modifiers: Modifiers,
) -> (GlobalMouseState, Option<Event>) {
    if result == 0 || hook is None {
        (state, None)
    } else if message == USER_MOUSEWHEEL {
        (state, Some(Event::Input(scroll_key_of(decoded_delta(w_param)), modifiers)))
    } else {
        let pos = hook_position(hook->0);
        match button_transition(message, hook->0.mouseData) {
            Some((b, true)) => (state.with_button(b, state.button(b).on_press(pos)), None),
            Some((b, false)) => (state.with_button(b, state.button(b).on_release(pos)), None),
            None => (state, None),
        }
    }
}

/// Whether a retrieved message is one that the hook reposted.
pub fn is_hook_message(message: u32) -> (r: bool)
    ensures
        r == (message > WM_USER),
{
    message > WM_USER
}

/// The wheel delta is the high word of `mouse_data` read as an `i16`, and
/// it survives being sign-extended into a `usize` and cut back to 16 bits.
pub proof fn lemma_wheel_encoding(mouse_data: u32)
    ensures
        wheel_delta(mouse_data) == ((mouse_data >> 16u32) as i16) as int,
        decoded_delta(wheel_delta(mouse_data) as usize) == wheel_delta(mouse_data),
{
    let delta: i16 = (mouse_data >> 16u32) as i16;
    assert(delta == signed16((mouse_data / 0x1_0000) as int)) by (bit_vector)
        requires
            delta == (mouse_data >> 16u32) as i16,
    ;
    let r: usize = delta as usize;
    assert(signed16(r as int) == delta) by (bit_vector)
        requires
            r == delta as usize,
    ;
}

/// The value that carries a wheel delta across threads in `w_param`: the
/// high word of `mouse_data`, sign-extended.
pub fn encode_wheel_delta(mouse_data: u32) -> (r: usize)
    ensures
        r == wheel_delta(mouse_data) as usize,
        decoded_delta(r) == wheel_delta(mouse_data),
{
    proof {
        lemma_wheel_encoding(mouse_data);
    }
    let delta = (mouse_data >> 16u32) as i16;
    delta as usize
}

/// The scroll key for a reposted wheel message's `w_param`.
pub fn scroll_key(w_param: usize) -> (r: Key)
    ensures
        r == scroll_key_of(decoded_delta(w_param)),
{
    let delta = w_param as i16;
    assert(delta == signed16(w_param as int)) by (bit_vector)
        requires
            delta == w_param as i16,
    ;
    if delta >= 0 {
        Key::ScrollUp
    } else {
        Key::ScrollDown
    }
}

/// The private code for a native button message, if it is one.
pub fn synthetic_code(raw: u32) -> (r: Option<u32>)
    ensures
        r == synthetic_message(raw),
{
    if raw == WM_LBUTTONDOWN {
        Some(USER_LBUTTONDOWN)
    } else if raw == WM_LBUTTONUP {
        Some(USER_LBUTTONUP)
    } else if raw == WM_LBUTTONDBLCLK {
        Some(USER_LBUTTONDBLCLK)
    } else if raw == WM_RBUTTONDOWN {
        Some(USER_RBUTTONDOWN)
    } else if raw == WM_RBUTTONUP {
        Some(USER_RBUTTONUP)
    } else if raw == WM_RBUTTONDBLCLK {
        Some(USER_RBUTTONDBLCLK)
    } else if raw == WM_MBUTTONDOWN {
        Some(USER_MBUTTONDOWN)
    } else if raw == WM_MBUTTONUP {
        Some(USER_MBUTTONUP)
    } else if raw == WM_MBUTTONDBLCLK {
        Some(USER_MBUTTONDBLCLK)
    } else if raw == WM_XBUTTONDOWN {
        Some(USER_XBUTTONDOWN)
    } else if raw == WM_XBUTTONUP {
        Some(USER_XBUTTONUP)
    } else if raw == WM_XBUTTONDBLCLK {
        Some(USER_XBUTTONDBLCLK)
    } else {
        None
    }
}

/// The decision of the low-level mouse hook callback: which private
/// message, if any, to post to the polling thread for one native event.
/// A wheel event carries its delta in `w_param`, since the hook's data is
/// only valid during the callback; a button event keeps its parameters.
pub fn hook_repost(code: i32, w_param: usize, hook: Option<MSLLHOOKSTRUCT>) -> (r: HookRepost)
    ensures
        r == repost_for(code, w_param, hook),
{
    if code < 0 {
        return HookRepost::Forward;
    }
    let raw = w_param as u32;
    if raw == WM_MOUSEWHEEL {
        match hook {
            Some(h) => HookRepost::Post {
                message: USER_MOUSEWHEEL,
                w_param: encode_wheel_delta(h.mouseData),
            },
            None => HookRepost::Forward,
        }
    } else {
        match synthetic_code(raw) {
            Some(m) => HookRepost::Post { message: m, w_param },
            None => HookRepost::Forward,
        }
    }
}

/// The button and direction of a reposted button message.
pub fn button_of(message: u32, mouse_data: u32) -> (r: Option<(MouseButton, bool)>)
    ensures
        r == button_transition(message, mouse_data),
{
    let aux = HIWORD(mouse_data);
    if message == USER_LBUTTONDOWN {
        Some((MouseButton::Left, true))
    } else if message == USER_LBUTTONUP {
        Some((MouseButton::Left, false))
    } else if message == USER_RBUTTONDOWN {
        Some((MouseButton::Right, true))
    } else if message == USER_RBUTTONUP {
        Some((MouseButton::Right, false))
    } else if message == USER_MBUTTONDOWN {
        Some((MouseButton::Middle, true))
    } else if message == USER_MBUTTONUP {
        Some((MouseButton::Middle, false))
    } else if message == USER_XBUTTONDOWN || message == USER_XBUTTONUP {
        let down = message == USER_XBUTTONDOWN;
        if aux == 1 {
            Some((MouseButton::Mouse4, down))
        } else if aux == 2 {
            Some((MouseButton::Mouse5, down))
        } else {
            None
        }
    } else {
        None
    }
}

/// Translates a message that the hook reposted, retrieved on the polling
/// thread with `result` (zero: nothing retrieved). A wheel message becomes
/// a scroll event stamped with `modifiers`; a button message updates
/// `state` and produces no event. `hook` is the hook data that the message
/// points at, `None` where its pointer is null.
pub fn handle_mouse_msg(
    state: &mut GlobalMouseState,
    msg: &MSG,
    result: i32,
    hook: Option<MSLLHOOKSTRUCT>,
    modifiers: Modifiers,
) -> (r: Option<Event>)
    requires
        result != -1,
        position_fits(msg.message, hook),
    ensures
        (*final(state), r) == hook_message_effect(
            *old(state),
            msg.message,
            msg.w_param,
            result,
            hook,
            modifiers,
        ),
{
    if result == 0 {
        return None;
    }
    let h = match hook {
        Some(h) => h,
        None => {
            return None;
        },
    };
    if msg.message == USER_MOUSEWHEEL {
        return Some(Event::Input(scroll_key(msg.w_param), modifiers));
    }
    let pos = RECT { left: h.pt.x, top: h.pt.y, right: h.pt.x + 1, bottom: h.pt.y + 1 };
    match button_of(msg.message, h.mouseData) {
        Some((b, true)) => state.press(b, pos),
        Some((b, false)) => state.release(b, pos),
        None => {},
    }
    None
}

/// One step of polling for global events: a message retrieved with
/// `result` is translated when the hook reposted it and yields nothing
/// otherwise. A `result` of -1 reports a broken queue and is the caller's
/// to treat as fatal.
pub fn global_event(
    state: &mut GlobalMouseState,
    msg: &MSG,
    result: i32,
    hook: Option<MSLLHOOKSTRUCT>,
    modifiers: Modifiers,
) -> (r: Option<Event>)
    requires
        result != -1,
        position_fits(msg.message, hook),
    ensures
        msg.message > WM_USER ==> (*final(state), r) == hook_message_effect(
            *old(state),
            msg.message,
            msg.w_param,
            result,
            hook,
            modifiers,
        ),
        msg.message <= WM_USER ==> *final(state) == *old(state) && r is None,
{
    if is_hook_message(msg.message) {
        handle_mouse_msg(state, msg, result, hook, modifiers)
    } else {
        None
    }
}

/// Whether a key state as `GetAsyncKeyState` reports it says the key is
/// down (its most significant bit).
pub fn async_key_down(key_state: i16) -> (r: bool)
    ensures
        r == (key_state < 0),
{
    let r = (key_state & (0x8000u16 as i16)) != 0;
    assert(r == (key_state < 0)) by (bit_vector)
        requires
            r == ((key_state & (0x8000u16 as i16)) != 0),
    ;
    r
}

/// Whether a key state as `GetKeyState` reports it says the key is down
/// (bit 7 of the low byte).
pub open spec fn toggled_down(key_state: i16) -> bool {
    (key_state as int) % 0x100 >= 0x80
}

/// The modifier snapshot from the key states of control, shift, alt and
/// the two windows keys.
pub fn modifiers_from_states(control: i16, shift: i16, alt: i16, left_win: i16, right_win: i16) -> (r: Modifiers)
    ensures
        r == (Modifiers {
            control: toggled_down(control),
            shift: toggled_down(shift),
            alt: toggled_down(alt),
            win: toggled_down(left_win) || toggled_down(right_win),
        }),
{
    Modifiers {
        control: key_down(control),
        shift: key_down(shift),
        alt: key_down(alt),
        win: key_down(left_win) || key_down(right_win),
    }
}

fn key_down(key_state: i16) -> (r: bool)
    ensures
        r == toggled_down(key_state),
{
    let r = key_state & 0x80 > 0;
    assert(r == ((key_state as int) % 0x100 >= 0x80)) by (bit_vector)
        requires
            r == (key_state & 0x80 > 0),
    ;
    r
}

/// One call on a button's state: a press or a release at a position, or
/// one of the three observations.
pub enum ButtonCall {
    Press(RECT),
    Release(RECT),
    ObservePress,
    ObserveRelease,
    ObserveClick,
}

/// The state after one call.
pub open spec fn after_call(s: GlobalMouseButtonState, c: ButtonCall) -> GlobalMouseButtonState {
    match c {
        ButtonCall::Press(pos) => s.on_press(pos),
        ButtonCall::Release(pos) => s.on_release(pos),
        ButtonCall::ObservePress => s.press_observed(),
        ButtonCall::ObserveRelease => s.release_observed(),
        ButtonCall::ObserveClick => s.click_observed(),
    }
}

/// The state after each of `calls` in turn.
pub open spec fn after_calls(s: GlobalMouseButtonState, calls: Seq<ButtonCall>) -> GlobalMouseButtonState
    decreases calls.len(),
{
    if calls.len() == 0 {
        s
    } else {
        after_call(after_calls(s, calls.drop_last()), calls.last())
    }
}

/// From a new state, whatever calls are made, a pending release (and a
/// held button) always has a press before it in the history, and the
/// state stays well formed.
pub proof fn lemma_release_needs_press(calls: Seq<ButtonCall>)
    ensures
        after_calls(GlobalMouseButtonState::new_spec(), calls).wf(),
        after_calls(GlobalMouseButtonState::new_spec(), calls).released ==> exists|i: int|
            0 <= i < calls.len() && #[trigger] calls[i] is Press,
        after_calls(GlobalMouseButtonState::new_spec(), calls).held ==> exists|i: int|
            0 <= i < calls.len() && #[trigger] calls[i] is Press,
    decreases calls.len(),
{
    if calls.len() > 0 {
        let prev = calls.drop_last();
        let last = calls.len() - 1;
        lemma_release_needs_press(prev);
        let p = after_calls(GlobalMouseButtonState::new_spec(), prev);
        if p.held || p.released {
            let i = choose|i: int| 0 <= i < prev.len() && #[trigger] prev[i] is Press;
            assert(calls[i] == prev[i]);
        }
        if calls[last] is Press {
            assert(calls[last] is Press);
        }
    }
}

/// Once no release is pending, no call but a release makes one pending:
/// after a click has been observed, `clicked` reports false until the
/// button is released again, whatever presses and observations come
/// between.
pub proof fn lemma_no_click_without_release(t: GlobalMouseButtonState, calls: Seq<ButtonCall>)
    requires
        !t.released,
        forall|i: int| 0 <= i < calls.len() ==> !(#[trigger] calls[i] is Release),
    ensures
        !after_calls(t, calls).released,
    decreases calls.len(),
{
    if calls.len() > 0 {
        let prev = calls.drop_last();
        assert forall|i: int| 0 <= i < prev.len() implies !(#[trigger] prev[i] is Release) by {
            assert(prev[i] == calls[i]);
        }
        lemma_no_click_without_release(t, prev);
        assert(!(calls[calls.len() - 1] is Release));
    }
}

/// A press followed by a release is observed as exactly one click: the
/// first `clicked` reports it and clears it, and the later ones report
/// nothing until the next release. Observing a press leaves a pending
/// release in place, and observing a release leaves a pending press in
/// place.
pub proof fn lemma_click_once(
    s: GlobalMouseButtonState,
    down: RECT,
    up: RECT,
    calls: Seq<ButtonCall>,
)
    requires
        forall|i: int| 0 <= i < calls.len() ==> !(#[trigger] calls[i] is Release),
    ensures
        s.on_press(down).on_release(up).released,
        !after_calls(s.on_press(down).on_release(up).click_observed(), calls).released,
        s.press_observed().released == s.released,
        s.release_observed().pressed == s.pressed,
{
    lemma_no_click_without_release(s.on_press(down).on_release(up).click_observed(), calls);
}

/// The state and the event after a native hook event `w_param` with data
/// `h` has been reposted by the hook and translated on the polling thread.
pub open spec fn delivered(
    state: GlobalMouseState,
    w_param: usize,
    h: MSLLHOOKSTRUCT,
    modifiers: Modifiers,
) -> (GlobalMouseState, Option<Event>) {
    match repost_for(0, w_param, Some(h)) {
        HookRepost::Post { message, w_param: posted } => hook_message_effect(
            state,
            message,
            posted,
            1,
            Some(h),
            modifiers,
        ),
        HookRepost::Forward => (state, None),
    }
}

/// A wheel movement survives the crossing from the hook to the polling
/// thread: the delta decoded there is the one the hook read, and the
/// event is a scroll up exactly when that delta is not negative.
pub proof fn lemma_wheel_round_trip(state: GlobalMouseState, h: MSLLHOOKSTRUCT, modifiers: Modifiers)
    ensures
        decoded_delta(wheel_delta(h.mouseData) as usize) == wheel_delta(h.mouseData),
        delivered(state, WM_MOUSEWHEEL as usize, h, modifiers) == (
            state,
            Some(Event::Input(scroll_key_of(wheel_delta(h.mouseData)), modifiers)),
        ),
        scroll_key_of(wheel_delta(h.mouseData)) == Key::ScrollUp <==> wheel_delta(h.mouseData)
            >= 0,
{
    lemma_wheel_encoding(h.mouseData);
    assert(USER_MOUSEWHEEL > WM_USER);
}

/// An extended button event is told apart by the high word of its data:
/// 1 moves the fourth button, 2 the fifth; any other value changes nothing.
/// None of them produces an event.
pub proof fn lemma_extended_buttons(
    state: GlobalMouseState,
    h: MSLLHOOKSTRUCT,
    down: bool,
    modifiers: Modifiers,
)
    ensures
        ({
            let raw = if down {
                WM_XBUTTONDOWN
            } else {
                WM_XBUTTONUP
            };
            let pos = hook_position(h);
            let aux = h.mouseData / 0x1_0000;
            let (after, event) = delivered(state, raw as usize, h, modifiers);
            &&& event is None
            &&& aux == 1 ==> after == state.with_button(
                MouseButton::Mouse4,
                if down {
                    state.mouse_4.on_press(pos)
                } else {
                    state.mouse_4.on_release(pos)
                },
            )
            &&& aux == 2 ==> after == state.with_button(
                MouseButton::Mouse5,
                if down {
                    state.mouse_5.on_press(pos)
                } else {
                    state.mouse_5.on_release(pos)
                },
            )
            &&& aux != 1 && aux != 2 ==> after == state
        }),
{
}

/// Each wheel or button event that the hook sees with its data is posted
/// to the polling thread as exactly one message; the platform's thread
/// queue delivers the posts in the order they were made.
pub proof fn lemma_one_post_per_event(code: i32, w_param: usize, h: MSLLHOOKSTRUCT)
    requires
        code >= 0,
        w_param as u32 == WM_MOUSEWHEEL || synthetic_message(w_param as u32) is Some,
    ensures
        repost_for(code, w_param, Some(h)) is Post,
{
}

/// The button and direction that a native hook event stands for.
pub open spec fn hook_transition(w_param: usize, h: MSLLHOOKSTRUCT) -> Option<(MouseButton, bool)> {
    match synthetic_message(w_param as u32) {
        Some(m) => button_transition(m, h.mouseData),
        None => None,
    }
}

/// Hook events reach the button state in the order the hook saw them: a
/// press and release of one button and then a press of another leave the
/// first released where it came up and the second pressed, and no other
/// button moved.
pub proof fn lemma_hook_order(
    state: GlobalMouseState,
    a: MouseButton,
    b: MouseButton,
    w1: usize,
    h1: MSLLHOOKSTRUCT,
    w2: usize,
    h2: MSLLHOOKSTRUCT,
    w3: usize,
    h3: MSLLHOOKSTRUCT,
    modifiers: Modifiers,
)
    requires
        a != b,
        hook_transition(w1, h1) == Some((a, true)),
        hook_transition(w2, h2) == Some((a, false)),
        hook_transition(w3, h3) == Some((b, true)),
    ensures
        ({
            let s1 = delivered(state, w1, h1, modifiers).0;
            let s2 = delivered(s1, w2, h2, modifiers).0;
            let s3 = delivered(s2, w3, h3, modifiers).0;
            &&& s3.button(a) == state.button(a).on_press(hook_position(h1)).on_release(
                hook_position(h2),
            )
            &&& s3.button(b) == state.button(b).on_press(hook_position(h3))
            &&& forall|c: MouseButton| c != a && c != b ==> #[trigger] s3.button(c) == state.button(c)
        }),
{
    let s1 = delivered(state, w1, h1, modifiers).0;
    let s2 = delivered(s1, w2, h2, modifiers).0;
    assert(s1 == state.with_button(a, state.button(a).on_press(hook_position(h1))));
    assert(s2 == s1.with_button(a, s1.button(a).on_release(hook_position(h2))));
}

} // verus!
