//! What the library asks of the egui context.

use vstd::prelude::*;
use crate::window::TouchPhase;
use crate::window::WindowEvent;

verus! {

/// What egui wants to consume, as the context says at one moment.
#[derive(Clone, Copy, Debug, PartialEq, Eq, Structural)]
pub struct ContextFlags {
    /// egui wants the pointer events (it is over an egui area or using the pointer).
    pub wants_pointer_input: bool,
    /// egui is using the pointer (e.g. dragging a slider).
    pub is_using_pointer: bool,
    /// egui is listening on text input (e.g. a text field has focus).
    pub wants_keyboard_input: bool,
}

/// Calls `egui::Context::wants_pointer_input`. Its answer depends on the
/// context's memory and input, which Verus does not see: nothing is claimed
/// of it.
#[verifier::external_body]
fn wants_pointer_input(ctx: &egui::Context) -> bool {
    ctx.wants_pointer_input()
}

/// Calls `egui::Context::is_using_pointer`. Its answer depends on the
/// context's memory, which Verus does not see: nothing is claimed of it.
#[verifier::external_body]
fn is_using_pointer(ctx: &egui::Context) -> bool {
    ctx.is_using_pointer()
}

/// Calls `egui::Context::wants_keyboard_input`. Its answer depends on the
/// context's memory, which Verus does not see: nothing is claimed of it.
#[verifier::external_body]
fn wants_keyboard_input(ctx: &egui::Context) -> bool {
    ctx.wants_keyboard_input()
}

/// Reads `egui::Context::options` for the `screen_reader` flag. The flag is
/// part of the context's options, which Verus does not see: nothing is
/// claimed of it.
#[verifier::external_body]
pub(crate) fn screen_reader_enabled(ctx: &egui::Context) -> bool {
    ctx.options().screen_reader
}

impl ContextFlags {
    /// Only what the event asks of the context can be set: whether egui
    /// wants the pointer for a mouse button, the wheel or a touch that starts
    /// or ends; whether egui uses the pointer for a move of the cursor or of
    /// a touch; whether egui listens on text input for a key.
    pub open spec fn asked_for(self, event: WindowEvent) -> bool {
        &&& self.wants_pointer_input ==> (event is MouseInput || event is MouseWheel
            || (event matches WindowEvent::Touch(t) && t.phase != TouchPhase::Moved))
        &&& self.is_using_pointer ==> (event is CursorMoved
            || (event matches WindowEvent::Touch(t) && t.phase == TouchPhase::Moved))
        &&& self.wants_keyboard_input ==> event is KeyboardInput
    }

    /// Asks the context what egui wants, as far as the event needs it: a
    /// mouse button, the wheel or a touch that starts or ends asks whether
    /// egui wants the pointer; a move of the cursor or of a touch asks whether
    /// egui uses the pointer; a key asks whether egui listens on text input.
    /// What is not asked stays `false`.
    pub fn read_for(ctx: &egui::Context, event: &WindowEvent) -> (r: ContextFlags)
        ensures
            r.asked_for(*event),
    {
        let mut flags = ContextFlags {
            wants_pointer_input: false,
            is_using_pointer: false,
            wants_keyboard_input: false,
        };
        match event {
            WindowEvent::MouseInput { .. } | WindowEvent::MouseWheel { .. } => {
                flags.wants_pointer_input = wants_pointer_input(ctx);
            },
            WindowEvent::CursorMoved { .. } => {
                flags.is_using_pointer = is_using_pointer(ctx);
            },
            WindowEvent::Touch(touch) => match touch.phase {
                TouchPhase::Moved => {
                    flags.is_using_pointer = is_using_pointer(ctx);
                },
                _ => {
                    flags.wants_pointer_input = wants_pointer_input(ctx);
                },
            },
            WindowEvent::KeyboardInput(_) => {
                flags.wants_keyboard_input = wants_keyboard_input(ctx);
            },
            _ => {},
        }
        flags
    }
}

} // verus!
