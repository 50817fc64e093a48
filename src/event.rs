use vstd::prelude::*;

verus! {

#[derive(Debug, PartialEq, Eq, Structural)]
pub enum Modifier {
    Unmodified,
    LeftControl,
    LeftShift,
    LeftAlt,
    RightControl,
    RightShift,
    RightAlt,
}

/// A logical event produced from platform messages.
#[derive(Debug, PartialEq, Eq, Structural)]
pub enum Event {
    Quit,
    /// Cursor position relative to the window; (0, 0) is its top left.
    MouseMoveInsideWindow(i32, i32),
    /// Cursor position on the screen, from the global hook.
    MouseMoveGlobal(i32, i32),
    Move,
    Input(Key, Modifiers),
}

#[derive(Debug, PartialEq, Eq, Structural)]
pub enum Key {
    Char(char),
    Function(u8),
    Enter,
    Backspace,
    Escape,
    Control,
    Shift,
    Alt,
    Tab,
    Up,
    Down,
    Left,
    Right,
    LeftMouseDown,
    LeftMouseUp,
    LeftMouseDoubleClick,
    MiddleMouseDown,
    MiddleMouseUp,
    MiddleMouseDoubleClick,
    RightMouseDown,
    RightMouseUp,
    RightMouseDoubleClick,
    Mouse4Down,
    Mouse4Up,
    Mouse4DoubleClick,
    Mouse5Down,
    Mouse5Up,
    Mouse5DoubleClick,
    ScrollUp,
    ScrollDown,
    Unknown(u16),
    LeftWindows,
    RightWindows,
    Menu,
    ScrollLock,
    PauseBreak,
    Insert,
    Home,
    Delete,
    End,
    PageUp,
    PageDown,
    PrintScreen,
}

/// Which modifier keys were down when an event was translated.
#[derive(Debug, PartialEq, Eq, Structural)]
pub struct Modifiers {
    pub control: bool,
    pub shift: bool,
    pub alt: bool,
    pub win: bool,
}

impl Key {
    /// This key, with the modifiers sampled for it, as an input event.
    pub fn into(self, modifiers: Modifiers) -> (r: Option<Event>)
        ensures
            r == Some(Event::Input(self, modifiers)),
    {
        Some(Event::Input(self, modifiers))
    }
}

} // verus!
