use vstd::prelude::*;

verus! {

/// The frame of a window.
#[derive(Copy, Clone, PartialEq, Eq, Debug, Structural)]
pub enum WindowBorder {
    Fixed,
    Resizable,
    Borderless,
}

/// How a window takes the screen.
#[derive(Copy, Clone, PartialEq, Eq, Debug, Structural)]
pub enum VideoMode {
    Desktop,
    Windowed(u32, u32, WindowBorder),
}

/// How buffer swaps wait for the display's vertical sync.
#[derive(Copy, Clone, PartialEq, Eq, Debug, Structural)]
pub enum VSync {
    /// Swap without waiting.
    Off,
    /// Wait for the vertical sync before swapping.
    On,
    /// Use adaptive sync where the display supports it.
    Adaptive,
}

/// The size and kind of a window to open.
#[derive(Copy, Clone, PartialEq, Eq, Debug, Structural)]
pub enum WindowMode {
    Window(u32, u32),
    BorderlessWindow(u32, u32),
    Fullscreen(u32, u32),
    FullWindow,
}

} // verus!
