//! Window events as the viewer's logic sees them.

use vstd::prelude::*;

verus! {

/// Identifier of a physical key.
///
/// The platform layer numbers the physical key codes of the windowing system
/// in their declaration order; the logic only ever compares them.
pub type KeyCode = u32;

/// The physical `Space` key.
pub const KEY_SPACE: KeyCode = 62;

/// The physical `Escape` key.
pub const KEY_ESCAPE: KeyCode = 114;

/// Whether a key or button went down or up.
#[derive(Clone, Copy, PartialEq, Eq, Debug, Structural)]
pub enum ElementState {
    Pressed,
    Released,
}

/// A mouse button.
#[derive(Clone, Copy, PartialEq, Eq, Debug, Structural)]
pub enum MouseButton {
    Left,
    Right,
    Middle,
    Back,
    Forward,
    Other(u16),
}

/// The physical key of a keyboard event: a known code, or a key that the
/// platform could not identify.
#[derive(Clone, Copy, PartialEq, Eq, Debug, Structural)]
pub enum PhysicalKey {
    Code(KeyCode),
    Unidentified,
}

/// The window events that the viewer distinguishes.
///
/// Scroll amounts and pointer motion are floating-point quantities and are
/// kept by the platform layer; a wheel event is reported here without them.
#[derive(PartialEq, Eq, Debug)]
pub enum WindowEvent {
    CloseRequested,
    KeyboardInput { key: PhysicalKey, state: ElementState },
    MouseInput { button: MouseButton, state: ElementState },
    MouseWheel,
    Resized { width: u32, height: u32 },
    RedrawRequested,
    ScaleFactorChanged,
    DroppedFile(String),
    Other,
}

} // verus!
