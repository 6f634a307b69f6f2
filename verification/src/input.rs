//! The input that egui consumes, as the library builds it.

use vstd::prelude::*;
use egui::Pos2;
use egui::Vec2;
use winit::event::Force;
use std::path::PathBuf;

verus! {

/// Keys that egui knows of.
#[derive(Clone, Copy, Debug, PartialEq, Eq, Structural)]
pub enum Key {
    ArrowDown,
    ArrowLeft,
    ArrowRight,
    ArrowUp,
    Escape,
    Tab,
    Backspace,
    Enter,
    Space,
    Insert,
    Delete,
    Home,
    End,
    PageUp,
    PageDown,
    Num0,
    Num1,
    Num2,
    Num3,
    Num4,
    Num5,
    Num6,
    Num7,
    Num8,
    Num9,
    A,
    B,
    C,
    D,
    E,
    F,
    G,
    H,
    I,
    J,
    K,
    L,
    M,
    N,
    O,
    P,
    Q,
    R,
    S,
    T,
    U,
    V,
    W,
    X,
    Y,
    Z,
    F1,
    F2,
    F3,
    F4,
    F5,
    F6,
    F7,
    F8,
    F9,
    F10,
    F11,
    F12,
    F13,
    F14,
    F15,
    F16,
    F17,
    F18,
    F19,
    F20,
}

/// State of the modifier keys, as egui sees them.
#[derive(Clone, Copy, Debug, PartialEq, Eq, Structural)]
pub struct Modifiers {
    /// Either of the alt keys is down (option ⌥ on Mac).
    pub alt: bool,
    /// Either of the control keys is down.
    pub ctrl: bool,
    /// Either of the shift keys is down.
    pub shift: bool,
    /// The Mac ⌘ Command key.
    pub mac_cmd: bool,
    /// The key used for commands: ⌘ on Mac, control elsewhere.
    pub command: bool,
}

impl Modifiers {
    /// No modifier is down.
    pub open spec fn none() -> Modifiers {
        Modifiers { alt: false, ctrl: false, shift: false, mac_cmd: false, command: false }
    }

    /// No modifier is down.
    pub fn new() -> (r: Modifiers)
        ensures
            r == Modifiers::none(),
    {
        Modifiers { alt: false, ctrl: false, shift: false, mac_cmd: false, command: false }
    }
}

impl Default for Modifiers {
    fn default() -> (r: Modifiers)
        ensures
            r == Modifiers::none(),
    {
        Modifiers::new()
    }
}

/// Mouse buttons that egui knows of.
#[derive(Clone, Copy, Debug, PartialEq, Eq, Structural)]
pub enum PointerButton {
    Primary,
    Secondary,
    Middle,
    Extra1,
    Extra2,
}

/// The phase of a touch, as egui sees it.
#[derive(Clone, Copy, Debug, PartialEq, Eq, Structural)]
pub enum TouchPhase {
    Start,
    Move,
    End,
    Cancel,
}

/// An input event for egui.
#[derive(Debug, PartialEq)]
pub enum Event {
    /// The integration detected a "copy" event (e.g. Cmd+C).
    Copy,
    /// The integration detected a "cut" event (e.g. Cmd+X).
    Cut,
    /// The integration detected a "paste" event (e.g. Cmd+V).
    Paste(String),
    /// Text input, e.g. via keyboard.
    Text(String),
    /// A key was pressed or released.
    Key { key: Key, pressed: bool, modifiers: Modifiers },
    /// The mouse or touch moved to a new place.
    PointerMoved(Pos2),
    /// A mouse button was pressed or released (or a touch started or stopped).
    PointerButton { pos: Pos2, button: PointerButton, pressed: bool, modifiers: Modifiers },
    /// The mouse left the screen, or the last/primary touch input disappeared.
    PointerGone,
    /// How many points were scrolled.
    Scroll(Vec2),
    /// A wheel turn with shift held: egui scrolls sideways by the sum of the
    /// delta's two components.
    HorizontalScroll(Vec2),
    /// A wheel turn with control or command held: egui zooms by
    /// `exp(delta.y / 200)`.
    Zoom(Vec2),
    /// A touch.
    Touch { device_id: u64, id: u64, phase: TouchPhase, pos: Pos2, force: Option<Force> },
}

/// The input accumulated for egui's next frame.
pub struct RawInput {
    /// The maximum side of a texture, once the graphics context is known.
    pub max_texture_side: Option<usize>,
    /// The state of the modifier keys.
    pub modifiers: Modifiers,
    /// The events in the order they came.
    pub events: Vec<Event>,
    /// Files that are being hovered over the window.
    pub hovered_files: Vec<PathBuf>,
    /// Files that were dropped onto the window.
    pub dropped_files: Vec<PathBuf>,
}

/// The cursor icon that egui asks for.
#[derive(Clone, Copy, Debug, PartialEq, Eq, Structural)]
pub enum CursorIcon {
    Default,
    /// Do not show the cursor (egui's `CursorIcon::None`).
    Hidden,
    ContextMenu,
    Help,
    PointingHand,
    Progress,
    Wait,
    Cell,
    Crosshair,
    Text,
    VerticalText,
    Alias,
    Copy,
    Move,
    NoDrop,
    NotAllowed,
    Grab,
    Grabbing,
    AllScroll,
    ResizeHorizontal,
    ResizeNeSw,
    ResizeNwSe,
    ResizeVertical,
    ResizeEast,
    ResizeSouthEast,
    ResizeSouth,
    ResizeSouthWest,
    ResizeWest,
    ResizeNorthWest,
    ResizeNorth,
    ResizeNorthEast,
    ResizeColumn,
    ResizeRow,
    ZoomIn,
    ZoomOut,
}

} // verus!

verus! {

impl RawInput {
    /// Nothing accumulated yet.
    pub fn new() -> (r: RawInput)
        ensures
            r.max_texture_side is None,
            r.modifiers == Modifiers::none(),
            r.events@.len() == 0,
            r.hovered_files@.len() == 0,
            r.dropped_files@.len() == 0,
    {
        RawInput {
            max_texture_side: None,
            modifiers: Modifiers::new(),
            events: Vec::new(),
            hovered_files: Vec::new(),
            dropped_files: Vec::new(),
        }
    }

    /// Hands out what accumulated: the events, dropped files and texture
    /// size leave this input; the modifiers and the hovered files stay,
    /// since they describe the present, and the returned input has a copy.
    pub fn take(&mut self) -> (r: RawInput)
        ensures
            r.max_texture_side == old(self).max_texture_side,
            r.modifiers == old(self).modifiers,
            r.events@ == old(self).events@,
            r.hovered_files@ == old(self).hovered_files@,
            r.dropped_files@ == old(self).dropped_files@,
            final(self).max_texture_side is None,
            final(self).modifiers == old(self).modifiers,
            final(self).events@.len() == 0,
            final(self).hovered_files@ == old(self).hovered_files@,
            final(self).dropped_files@.len() == 0,
    {
        let max_texture_side = self.max_texture_side.take();
        let mut events: Vec<Event> = Vec::new();
        std::mem::swap(&mut events, &mut self.events);
        let mut dropped_files: Vec<PathBuf> = Vec::new();
        std::mem::swap(&mut dropped_files, &mut self.dropped_files);
        let hovered_files = self.hovered_files.clone();
        assert(hovered_files@ =~= self.hovered_files@);
        RawInput {
            max_texture_side,
            modifiers: self.modifiers,
            events,
            hovered_files,
            dropped_files,
        }
    }
}

} // verus!
