//! What the window has to do with egui's output for a frame.

use vstd::prelude::*;
use egui::Pos2;
use crate::context::screen_reader_enabled;
use crate::input::CursorIcon;
use crate::state::State;
use crate::state::StateView;
use crate::translate::system_cursor_of;
use crate::window::SystemCursor;

verus! {

/// The part of egui's platform output that the window acts on.
pub struct PlatformOutput {
    /// The cursor icon egui wants.
    pub cursor_icon: CursorIcon,
    /// A link that egui wants opened.
    pub open_url: Option<String>,
    /// Text that egui wants on the clipboard; empty for none.
    pub copied_text: String,
    /// Where the text cursor is, for the input method.
    pub text_cursor_pos: Option<Pos2>,
}

/// What to do with the window's cursor.
#[derive(Clone, Copy, Debug, PartialEq, Eq, Structural)]
pub enum CursorUpdate {
    /// Leave the cursor as it is.
    Unchanged,
    /// Make the cursor invisible.
    Hide,
    /// Make the cursor visible, and, if `set_icon`, show `icon`.
    Show { icon: SystemCursor, set_icon: bool },
}

/// What the window has to do, in this order.
pub struct PlatformActions {
    /// Read the output's events aloud.
    pub speak: bool,
    pub cursor: CursorUpdate,
    /// Open this link in a browser.
    pub open_url: Option<String>,
    /// Put this text on the clipboard.
    pub copied_text: Option<String>,
    /// Place the input method's window here.
    pub ime_position: Option<Pos2>,
}

impl StateView {
    /// What to do with the cursor when egui asks for `icon`: nothing when it
    /// is the icon already set (this prevents flickering near the frame
    /// boundary when Windows tries to control the cursor for resizing);
    /// hide the cursor for the hidden icon; else show it, and show the icon
    /// while the pointer is in the window.
    pub open spec fn cursor_update(self, icon: CursorIcon) -> CursorUpdate {
        if self.cursor_icon == icon {
            CursorUpdate::Unchanged
        } else {
            match system_cursor_of(icon) {
                Some(c) => CursorUpdate::Show { icon: c, set_icon: self.pointer_pos is Some },
                None => CursorUpdate::Hide,
            }
        }
    }

    /// The copied text to put on the clipboard: none when it is empty.
    pub open spec fn clipboard_text(copied_text: String) -> Option<String> {
        if copied_text@.len() == 0 {
            None
        } else {
            Some(copied_text)
        }
    }
}

impl State {
    /// Call with the output given by `egui`.
    ///
    /// This says what the window has to do:
    /// * read the output aloud, if the screen reader is on
    /// * update the cursor
    /// * open any clicked urls
    /// * copy text to the clipboard
    /// * update the IME
    pub fn handle_platform_output(&mut self, egui_ctx: &egui::Context, platform_output: PlatformOutput) -> (r: PlatformActions)
        ensures
            r.cursor == old(self)@.cursor_update(platform_output.cursor_icon),
            r.open_url == platform_output.open_url,
            r.copied_text == StateView::clipboard_text(platform_output.copied_text),
            r.ime_position == platform_output.text_cursor_pos,
            final(self)@ == (StateView { cursor_icon: platform_output.cursor_icon, ..old(self)@ }),
    {
        let screen_reader = screen_reader_enabled(egui_ctx);
        self.handle_platform_output_with(screen_reader, platform_output)
    }

    /// What the window has to do with egui's output, given whether the
    /// context's screen reader option is on: the output is read aloud exactly
    /// when it is.
    pub fn handle_platform_output_with(&mut self, screen_reader: bool, platform_output: PlatformOutput) -> (r: PlatformActions)
        ensures
            r.speak == screen_reader,
            r.cursor == old(self)@.cursor_update(platform_output.cursor_icon),
            r.open_url == platform_output.open_url,
            r.copied_text == StateView::clipboard_text(platform_output.copied_text),
            r.ime_position == platform_output.text_cursor_pos,
            final(self)@ == (StateView { cursor_icon: platform_output.cursor_icon, ..old(self)@ }),
    {
        let PlatformOutput { cursor_icon, open_url, copied_text, text_cursor_pos } = platform_output;
        let cursor = self.set_cursor_icon(cursor_icon);
        let copied_text = if !copied_text.as_str().is_empty() {
            Some(copied_text)
        } else {
            None
        };
        PlatformActions { speak: screen_reader, cursor, open_url, copied_text, ime_position: text_cursor_pos }
    }
}

} // verus!
