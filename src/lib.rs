#![allow(non_snake_case, non_camel_case_types)]

pub mod event;
pub mod geometry;
pub mod global_input;
pub mod message;
pub mod window;

pub use event::{Event, Key, Modifier, Modifiers};
pub use global_input::{GlobalMouseButtonState, GlobalMouseState, MouseButton, MSLLHOOKSTRUCT};
pub use geometry::{GUID, HIWORD, LOWORD, POINT, RECT, Rect, WindowInfo};
pub use message::MSG;
pub use window::{ProcAction, Window, WindowPos, WindowStyle};
