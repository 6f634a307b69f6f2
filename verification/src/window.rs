//! What the window reports, as plain values: the part of winit's events
//! that the library reads.

use vstd::prelude::*;
use egui::Pos2;
use egui::Vec2;
use winit::event::Force;
use std::path::PathBuf;

verus! {

/// Whether a button or key went down or up.
#[derive(Clone, Copy, Debug, PartialEq, Eq, Structural)]
pub enum ElementState {
    Pressed,
    Released,
}

/// A mouse button as the window reports it.
#[derive(Clone, Copy, Debug, PartialEq, Eq, Structural)]
pub enum MouseButton {
    Left,
    Right,
    Middle,
    Other(u16),
}

/// The phase of a touch as the window reports it.
#[derive(Clone, Copy, Debug, PartialEq, Eq, Structural)]
pub enum TouchPhase {
    Started,
    Moved,
    Ended,
    Cancelled,
}

/// A touch on a touch screen.
#[derive(Clone, Copy, Debug, PartialEq)]
pub struct Touch {
    /// The hash of the device that reported the touch.
    pub device_id: u64,
    /// Identifies the finger across the phases of one touch.
    pub id: u64,
    pub phase: TouchPhase,
    /// Where the touch is, in logical points.
    pub location: Pos2,
    /// The force of the touch, if the device measures it.
    pub force: Option<Force>,
}

/// The logical meaning of a key, after the keyboard layout.
#[derive(Clone, Debug, PartialEq)]
pub enum LogicalKey {
    ArrowDown,
    ArrowLeft,
    ArrowRight,
    ArrowUp,
    Escape,
    Tab,
    Backspace,
    Enter,
    Space,
    Insert,
    Delete,
    Home,
    End,
    PageUp,
    PageDown,
    F1,
    F2,
    F3,
    F4,
    F5,
    F6,
    F7,
    F8,
    F9,
    F10,
    F11,
    F12,
    F13,
    F14,
    F15,
    F16,
    F17,
    F18,
    F19,
    F20,
    /// A key that produces the given text.
    Character(String),
    /// Any other key.
    Unidentified,
}

/// A key going down or up.
#[derive(Clone, Debug, PartialEq)]
pub struct KeyEvent {
    pub logical_key: LogicalKey,
    pub state: ElementState,
    /// The text that the key produces, if any.
    pub text: Option<String>,
}

/// Which modifier keys are down, as the window reports it.
#[derive(Clone, Copy, Debug, PartialEq, Eq, Structural)]
pub struct ModifiersState {
    pub shift: bool,
    pub control: bool,
    pub alt: bool,
    /// The "logo" key: ⌘ on Mac, the Windows key elsewhere.
    pub super_key: bool,
}

/// An event of the window.
#[derive(Debug, PartialEq)]
pub enum WindowEvent {
    /// A mouse button went down or up.
    MouseInput { state: ElementState, button: MouseButton },
    /// The mouse wheel turned; the delta is in logical points, with the
    /// horizontal component already turned the way egui expects.
    MouseWheel { delta: Vec2 },
    /// The cursor moved to the given place, in logical points.
    CursorMoved { position: Pos2 },
    /// The cursor left the window.
    CursorLeft,
    /// A touch on a touch screen.
    Touch(Touch),
    /// The input method committed text.
    ImeCommit(String),
    /// A key went down or up.
    KeyboardInput(KeyEvent),
    /// The window gained or lost focus.
    Focused(bool),
    /// A file is being hovered over the window.
    HoveredFile(PathBuf),
    /// The hovered files left the window.
    HoveredFileCancelled,
    /// A file was dropped onto the window.
    DroppedFile(PathBuf),
    /// The modifier keys changed.
    ModifiersChanged(ModifiersState),
    /// Any event that egui does not use.
    Other,
}

/// A system cursor that the window can show.
#[derive(Clone, Copy, Debug, PartialEq, Eq, Structural)]
pub enum SystemCursor {
    Default,
    Crosshair,
    Hand,
    Move,
    Text,
    Wait,
    Help,
    Progress,
    NotAllowed,
    ContextMenu,
    Cell,
    VerticalText,
    Alias,
    Copy,
    NoDrop,
    Grab,
    Grabbing,
    AllScroll,
    ZoomIn,
    ZoomOut,
    EResize,
    NResize,
    NeResize,
    NwResize,
    SResize,
    SeResize,
    SwResize,
    WResize,
    EwResize,
    NsResize,
    NeswResize,
    NwseResize,
    ColResize,
    RowResize,
}

/// The operating system whose conventions the key handling follows.
#[derive(Clone, Copy, Debug, PartialEq, Eq, Structural)]
pub enum TargetOs {
    Mac,
    Windows,
    Other,
}

} // verus!
