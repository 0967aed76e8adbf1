use vstd::prelude::*;

verus! {

/// A position or an offset in logical pixels.
#[derive(Clone, Copy, Debug, PartialEq, Eq, Structural)]
pub struct Pixel {
    pub x: i32,
    pub y: i32,
}

#[derive(Clone, Copy, Debug, PartialEq, Eq, Structural)]
pub enum State {
    Pressed,
    Released,
}

#[derive(Clone, Copy, Debug, PartialEq, Eq, Structural)]
pub enum MouseButton {
    Left,
    Right,
    Middle,
}

/// The state of the modifier keys; `command` is ctrl, or cmd on a Mac.
#[derive(Clone, Copy, Debug, PartialEq, Eq, Structural)]
pub struct Modifiers {
    pub alt: State,
    pub ctrl: State,
    pub shift: State,
    pub command: State,
}

#[derive(Clone, Copy, Debug, PartialEq, Eq, Structural)]
pub enum Key {
    ArrowDown,
    ArrowLeft,
    ArrowRight,
    ArrowUp,
    Escape,
    Tab,
    Backspace,
    Enter,
    Space,
    Insert,
    Delete,
    Home,
    End,
    PageUp,
    PageDown,
    Num0,
    Num1,
    Num2,
    Num3,
    Num4,
    Num5,
    Num6,
    Num7,
    Num8,
    Num9,
    A,
    B,
    C,
    D,
    E,
    F,
    G,
    H,
    I,
    J,
    K,
    L,
    M,
    N,
    O,
    P,
    Q,
    R,
    S,
    T,
    U,
    V,
    W,
    X,
    Y,
    Z,
}

/// An input event of one frame, in logical pixels. `handled` is set by the consumer
/// that took the event, so that later consumers skip it.
#[derive(Debug)]
#[allow(inconsistent_fields)]
pub enum Event {
    MouseClick { state: State, button: MouseButton, position: Pixel, modifiers: Modifiers, handled: bool },
    MouseMotion {
        button: Option<MouseButton>,
        delta: Pixel,
        position: Pixel,
        modifiers: Modifiers,
        handled: bool,
    },
    MouseWheel { delta: Pixel, position: Pixel, modifiers: Modifiers, handled: bool },
    MouseEnter,
    MouseLeave,
    Key { kind: Key, state: State, modifiers: Modifiers, handled: bool },
    ModifiersChange { modifiers: Modifiers },
    Text(String),
}

/// The input of one frame.
#[derive(Debug)]
pub struct FrameInput {
    pub events: Vec<Event>,
    /// Window size in logical pixels.
    pub window_width: u32,
    pub window_height: u32,
}

} // verus!
