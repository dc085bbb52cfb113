use vstd::prelude::*;

use crate::keys::{Key, Modifiers};

verus! {

/// An input or window event. `U` is the windowing system's own event, carried
/// through for those that have no variant here.
#[derive(Clone, Debug)]
pub enum Event<U> {
    Char(char),
    KeyDown(Key, Modifiers),
    KeyUp(Key),
    MouseMove(i32, i32),
    MouseDown(u32),
    MouseUp(u32),
    MouseWheelUp,
    MouseWheelDown,
    WindowResize(u32, u32),
    WindowFocus(bool),
    QuitRequest,
    Unknown(U),
}

/// Receives events, one method per kind; each does nothing unless overridden.
pub trait EventHandler<U> {
    fn on_char(&mut self, ch: char) {
    }

    fn on_key_down(&mut self, k: Key, m: Modifiers) {
    }

    fn on_key_up(&mut self, k: Key) {
    }

    fn on_mouse_move(&mut self, x: i32, y: i32) {
    }

    fn on_mouse_down(&mut self, b: u32) {
    }

    fn on_mouse_up(&mut self, b: u32) {
    }

    fn on_mouse_wheel_down(&mut self) {
    }

    fn on_mouse_wheel_up(&mut self) {
    }

    fn on_window_resize(&mut self, ww: u32, wh: u32) {
    }

    fn on_window_focus(&mut self, f: bool) {
    }

    fn on_quit_request(&mut self) {
    }

    fn on_unknown_event(&mut self, ev: U) {
    }
}

impl<U> Event<U> {
    /// Hands the event to the handler method of its kind.
    pub fn dispatch<H: EventHandler<U>>(self, h: &mut H) {
        match self {
            Event::Char(ch) => h.on_char(ch),
            Event::KeyDown(k, m) => h.on_key_down(k, m),
            Event::KeyUp(k) => h.on_key_up(k),
            Event::MouseMove(x, y) => h.on_mouse_move(x, y),
            Event::MouseDown(b) => h.on_mouse_down(b),
            Event::MouseUp(b) => h.on_mouse_up(b),
            Event::MouseWheelDown => h.on_mouse_wheel_down(),
            Event::MouseWheelUp => h.on_mouse_wheel_up(),
            Event::WindowResize(ww, wh) => h.on_window_resize(ww, wh),
            Event::WindowFocus(f) => h.on_window_focus(f),
            Event::QuitRequest => h.on_quit_request(),
            Event::Unknown(we) => h.on_unknown_event(we),
        }
    }
}

} // verus!
