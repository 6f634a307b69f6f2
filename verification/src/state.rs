//! The state of the integration: what it accumulates for egui from the
//! window's events, and how it emulates a mouse with touches.

use vstd::prelude::*;
use vstd::string::*;
use egui::Pos2;
use egui::Vec2;
use std::path::PathBuf;
use crate::context::ContextFlags;
use crate::input::CursorIcon;
use crate::input::Event;
use crate::input::Modifiers;
use crate::input::RawInput;
use crate::input::TouchPhase;
use crate::platform_output::CursorUpdate;
use crate::text::paste_text;
use crate::text::pasted_from;
use crate::translate::copy_command;
use crate::translate::cut_command;
use crate::translate::is_copy_command;
use crate::translate::is_cut_command;
use crate::translate::is_paste_command;
use crate::translate::is_printable_char;
use crate::translate::key_of;
use crate::translate::paste_command;
use crate::translate::pointer_button_of;
use crate::translate::printable;
use crate::translate::translate_cursor;
use crate::translate::translate_mouse_button;
use crate::translate::translate_virtual_key_code;
use crate::window::ElementState;
use crate::window::KeyEvent;
use crate::window::LogicalKey;
use crate::window::ModifiersState;
use crate::window::MouseButton;
use crate::window::TargetOs;
use crate::window::Touch;
use crate::window::WindowEvent;

verus! {

/// A clipboard command typed on the keyboard.
#[derive(Clone, Copy, Debug, PartialEq, Eq, Structural)]
pub enum ClipboardCommand {
    Cut,
    Copy,
    Paste,
}

/// Handles the integration between egui and the window.
pub struct State {
    egui_input: RawInput,
    pointer_pos_in_points: Option<Pos2>,
    any_pointer_button_down: bool,
    current_cursor_icon: CursorIcon,
    /// If `true`, mouse inputs will be treated as touches.
    /// Useful for debugging touch support in egui.
    ///
    /// Creates duplicate touches, if real touch inputs are coming.
    simulate_touch_screen: bool,
    /// Is Some(…) when a touch is being translated to a pointer.
    ///
    /// Only one touch will be interpreted as pointer at any time.
    pointer_touch_id: Option<u64>,
    target_os: TargetOs,
}

/// The state as a value: what a `State` holds.
#[verifier::ext_equal]
pub struct StateView {
    pub max_texture_side: Option<usize>,
    pub modifiers: Modifiers,
    pub events: Seq<Event>,
    pub hovered_files: Seq<PathBuf>,
    pub dropped_files: Seq<PathBuf>,
    /// Where the pointer is, in points, while it is in the window.
    pub pointer_pos: Option<Pos2>,
    pub any_pointer_button_down: bool,
    pub cursor_icon: CursorIcon,
    pub simulate_touch_screen: bool,
    /// The touch that moves the pointer, if one does.
    pub pointer_touch_id: Option<u64>,
    pub target_os: TargetOs,
}

impl View for State {
    type V = StateView;

    closed spec fn view(&self) -> StateView {
        StateView {
            max_texture_side: self.egui_input.max_texture_side,
            modifiers: self.egui_input.modifiers,
            events: self.egui_input.events@,
            hovered_files: self.egui_input.hovered_files@,
            dropped_files: self.egui_input.dropped_files@,
            pointer_pos: self.pointer_pos_in_points,
            any_pointer_button_down: self.any_pointer_button_down,
            cursor_icon: self.current_cursor_icon,
            simulate_touch_screen: self.simulate_touch_screen,
            pointer_touch_id: self.pointer_touch_id,
            target_os: self.target_os,
        }
    }
}

/// The touch that stands for the mouse when a touch screen is simulated.
pub open spec fn simulated_touch(phase: TouchPhase, pos: Pos2) -> Event {
    Event::Touch { device_id: 0, id: 0, phase, pos, force: None }
}

/// egui's phase for the phase of a touch that the window reports.
pub open spec fn touch_phase_of(phase: crate::window::TouchPhase) -> TouchPhase {
    match phase {
        crate::window::TouchPhase::Started => TouchPhase::Start,
        crate::window::TouchPhase::Moved => TouchPhase::Move,
        crate::window::TouchPhase::Ended => TouchPhase::End,
        crate::window::TouchPhase::Cancelled => TouchPhase::Cancel,
    }
}

/// egui's modifiers for the modifier keys that the window reports: on Mac,
/// ⌘ is both `mac_cmd` and `command`; elsewhere control is `command`.
pub open spec fn modifiers_of(os: TargetOs, state: ModifiersState) -> Modifiers {
    Modifiers {
        alt: state.alt,
        ctrl: state.control,
        shift: state.shift,
        mac_cmd: os == TargetOs::Mac && state.super_key,
        command: if os == TargetOs::Mac { state.super_key } else { state.control },
    }
}

/// Every character of the text may be typed.
pub open spec fn all_printable(text: Seq<char>) -> bool {
    forall|i: int| 0 <= i < text.len() ==> printable(#[trigger] text[i])
}

/// The state of a new integration.
pub open spec fn initial_view(os: TargetOs) -> StateView {
    StateView {
        max_texture_side: None,
        modifiers: Modifiers::none(),
        events: Seq::empty(),
        hovered_files: Seq::empty(),
        dropped_files: Seq::empty(),
        pointer_pos: None,
        any_pointer_button_down: false,
        cursor_icon: CursorIcon::Default,
        simulate_touch_screen: false,
        pointer_touch_id: None,
        target_os: os,
    }
}

impl StateView {
    /// The same state with one more event for egui.
    pub open spec fn push(self, e: Event) -> StateView {
        StateView { events: self.events.push(e), ..self }
    }

    /// The state once its input was handed to egui: the events, the dropped
    /// files and the texture size are gone; the rest stays.
    pub open spec fn taken(self) -> StateView {
        StateView {
            max_texture_side: None,
            events: Seq::empty(),
            dropped_files: Seq::empty(),
            ..self
        }
    }

    /// After a mouse button went down or up: egui gets the button at the
    /// pointer's place, if the pointer is in the window and egui knows the
    /// button; a simulated touch screen also gets a touch.
    pub open spec fn after_mouse_button(self, state: ElementState, button: MouseButton) -> StateView {
        match (self.pointer_pos, pointer_button_of(button)) {
            (Some(pos), Some(b)) => {
                let pressed = state == ElementState::Pressed;
                let v = self.push(
                    Event::PointerButton { pos, button: b, pressed, modifiers: self.modifiers },
                );
                if !self.simulate_touch_screen {
                    v
                } else if pressed {
                    StateView { any_pointer_button_down: true, ..v }.push(
                        simulated_touch(TouchPhase::Start, pos),
                    )
                } else {
                    StateView { any_pointer_button_down: false, ..v }.push(Event::PointerGone).push(
                        simulated_touch(TouchPhase::End, pos),
                    )
                }
            },
            _ => self,
        }
    }

    /// After the cursor moved: the pointer is there, and egui hears of it
    /// (with a simulated touch screen, only while a button is down).
    pub open spec fn after_cursor_moved(self, pos: Pos2) -> StateView {
        let v = StateView { pointer_pos: Some(pos), ..self };
        if self.simulate_touch_screen {
            if self.any_pointer_button_down {
                v.push(Event::PointerMoved(pos)).push(simulated_touch(TouchPhase::Move, pos))
            } else {
                v
            }
        } else {
            v.push(Event::PointerMoved(pos))
        }
    }

    /// After a touch: egui gets the touch; and if no touch moves the pointer,
    /// or this one does, the touch also moves the pointer and presses and
    /// releases the primary button, as a mouse would.
    pub open spec fn after_touch(self, touch: Touch) -> StateView {
        let v = self.push(
            Event::Touch {
                device_id: touch.device_id,
                id: touch.id,
                phase: touch_phase_of(touch.phase),
                pos: touch.location,
                force: touch.force,
            },
        );
        if self.pointer_touch_id is None || self.pointer_touch_id == Some(touch.id) {
            match touch.phase {
                crate::window::TouchPhase::Started => StateView {
                    pointer_touch_id: Some(touch.id),
                    ..v
                }.after_cursor_moved(touch.location).after_mouse_button(
                    ElementState::Pressed,
                    MouseButton::Left,
                ),
                crate::window::TouchPhase::Moved => v.after_cursor_moved(touch.location),
                crate::window::TouchPhase::Ended => StateView {
                    pointer_pos: None,
                    ..StateView { pointer_touch_id: None, ..v }.after_mouse_button(
                        ElementState::Released,
                        MouseButton::Left,
                    )
                }.push(Event::PointerGone),
                crate::window::TouchPhase::Cancelled => StateView {
                    pointer_touch_id: None,
                    pointer_pos: None,
                    ..v
                }.push(Event::PointerGone),
            }
        } else {
            v
        }
    }

    /// After the wheel turned: with control or command held egui zooms, with
    /// shift it scrolls sideways, else it scrolls.
    pub open spec fn after_mouse_wheel(self, delta: Vec2) -> StateView {
        if self.modifiers.ctrl || self.modifiers.command {
            self.push(Event::Zoom(delta))
        } else if self.modifiers.shift {
            self.push(Event::HorizontalScroll(delta))
        } else {
            self.push(Event::Scroll(delta))
        }
    }

    /// The clipboard command that a key event types, if any: only a key
    /// going down types one, and cut comes before copy before paste.
    pub open spec fn keyboard_command(self, event: KeyEvent) -> Option<ClipboardCommand> {
        if event.state != ElementState::Pressed {
            None
        } else if cut_command(self.target_os, self.modifiers, event.logical_key) {
            Some(ClipboardCommand::Cut)
        } else if copy_command(self.target_os, self.modifiers, event.logical_key) {
            Some(ClipboardCommand::Copy)
        } else if paste_command(self.target_os, self.modifiers, event.logical_key) {
            Some(ClipboardCommand::Paste)
        } else {
            None
        }
    }

    /// After a key went down or up: egui gets the clipboard command that it
    /// types (a paste only with text to paste), then the key, if egui knows it.
    pub open spec fn after_keyboard_input(self, event: KeyEvent, paste: Option<String>) -> StateView {
        let v = match self.keyboard_command(event) {
            Some(ClipboardCommand::Cut) => self.push(Event::Cut),
            Some(ClipboardCommand::Copy) => self.push(Event::Copy),
            Some(ClipboardCommand::Paste) => match paste {
                Some(text) => self.push(Event::Paste(text)),
                None => self,
            },
            None => self,
        };
        match key_of(event.logical_key) {
            Some(key) => v.push(
                Event::Key {
                    key,
                    pressed: event.state == ElementState::Pressed,
                    modifiers: self.modifiers,
                },
            ),
            None => v,
        }
    }

    /// egui consumes the key itself: it listens on text input, or the key is
    /// tab, with which egui moves the focus.
    pub open spec fn key_consumed(self, event: KeyEvent, flags: ContextFlags) -> bool {
        flags.wants_keyboard_input || event.logical_key == LogicalKey::Tab
    }

    /// The text of a key event reaches egui, whether or not a text field
    /// has the focus: the key types text, all of it may be typed, and on Mac
    /// it is not the side effect of a command (control or ⌘ held).
    pub open spec fn types_text(self, event: KeyEvent) -> bool {
        &&& event.text matches Some(text)
        &&& all_printable(text@)
        &&& !(self.target_os == TargetOs::Mac && (self.modifiers.ctrl || self.modifiers.mac_cmd))
    }

    /// After a key event: the key as [`Self::after_keyboard_input`] says, then
    /// its text, if it reaches egui.
    pub open spec fn after_key_event(self, event: KeyEvent, flags: ContextFlags, paste: Option<String>) -> StateView {
        let v = self.after_keyboard_input(event, paste);
        if self.types_text(event) {
            v.push(Event::Text(event.text->0))
        } else {
            v
        }
    }

    /// Whether egui wants exclusive use of a key event: it consumes the key,
    /// or the key's text reaches egui and egui listens on text input.
    pub open spec fn key_event_consumed(self, event: KeyEvent, flags: ContextFlags) -> bool {
        if self.key_consumed(event, flags) {
            true
        } else if self.types_text(event) {
            flags.wants_keyboard_input
        } else {
            false
        }
    }

    /// The state after an event of the window, given what egui wants and the
    /// text that a paste command pastes.
    pub open spec fn after_event(self, event: WindowEvent, flags: ContextFlags, paste: Option<String>) -> StateView {
        match event {
            WindowEvent::MouseInput { state, button } => self.after_mouse_button(state, button),
            WindowEvent::MouseWheel { delta } => self.after_mouse_wheel(delta),
            WindowEvent::CursorMoved { position } => self.after_cursor_moved(position),
            WindowEvent::CursorLeft => StateView { pointer_pos: None, ..self }.push(Event::PointerGone),
            WindowEvent::Touch(touch) => self.after_touch(touch),
            WindowEvent::ImeCommit(text) => self.push(Event::Text(text)),
            WindowEvent::KeyboardInput(key_event) => self.after_key_event(key_event, flags, paste),
            WindowEvent::Focused(_) => StateView { modifiers: Modifiers::none(), ..self },
            WindowEvent::HoveredFile(path) => StateView {
                hovered_files: self.hovered_files.push(path),
                ..self
            },
            WindowEvent::HoveredFileCancelled => StateView { hovered_files: Seq::empty(), ..self },
            WindowEvent::DroppedFile(path) => StateView {
                hovered_files: Seq::empty(),
                dropped_files: self.dropped_files.push(path),
                ..self
            },
            WindowEvent::ModifiersChanged(state) => StateView {
                modifiers: modifiers_of(self.target_os, state),
                ..self
            },
            WindowEvent::Other => self,
        }
    }

    /// Whether egui wants exclusive use of the event.
    pub open spec fn event_consumed(self, event: WindowEvent, flags: ContextFlags) -> bool {
        match event {
            WindowEvent::MouseInput { .. } => flags.wants_pointer_input,
            WindowEvent::MouseWheel { .. } => flags.wants_pointer_input,
            WindowEvent::CursorMoved { .. } => flags.is_using_pointer,
            WindowEvent::Touch(touch) => if touch.phase == crate::window::TouchPhase::Moved {
                flags.is_using_pointer
            } else {
                flags.wants_pointer_input
            },
            WindowEvent::ImeCommit(_) => true,
            WindowEvent::KeyboardInput(key_event) => self.key_event_consumed(key_event, flags),
            _ => false,
        }
    }

    /// The event needs the clipboard's text: it is a key that types the paste command.
    pub open spec fn needs_clipboard(self, event: WindowEvent) -> bool {
        event matches WindowEvent::KeyboardInput(key_event)
            && self.keyboard_command(key_event) == Some(ClipboardCommand::Paste)
    }
}

/// Whether every character of the text may be typed.
fn all_chars_printable(text: &str) -> (r: bool)
    ensures
        r == all_printable(text@),
{
    let n = text.unicode_len();
    let mut i: usize = 0;
    while i < n
        invariant
            n == text@.len(),
            i <= n,
            forall|j: int| 0 <= j < i ==> printable(#[trigger] text@[j]),
        decreases n - i,
    {
        if !is_printable_char(text.get_char(i)) {
            return false;
        }
        i = i + 1;
    }
    true
}

impl State {
    /// A new integration for a window on the given operating system.
    pub fn new(target_os: TargetOs) -> (r: State)
        ensures
            r@ == initial_view(target_os),
    {
        State {
            egui_input: RawInput::new(),
            pointer_pos_in_points: None,
            any_pointer_button_down: false,
            current_cursor_icon: CursorIcon::Default,
            simulate_touch_screen: false,
            pointer_touch_id: None,
            target_os,
        }
    }

    /// Remembers the cursor icon that egui asks for and says what to do with
    /// the window's cursor.
    pub(crate) fn set_cursor_icon(&mut self, cursor_icon: CursorIcon) -> (r: CursorUpdate)
        ensures
            r == old(self)@.cursor_update(cursor_icon),
            final(self)@ == (StateView { cursor_icon, ..old(self)@ }),
    {
        // prevent flickering near frame boundary when Windows OS tries to control cursor icon for window resizing
        if self.current_cursor_icon == cursor_icon {
            return CursorUpdate::Unchanged;
        }
        self.current_cursor_icon = cursor_icon;
        match translate_cursor(cursor_icon) {
            Some(icon) => {
                let is_pointer_in_window = self.pointer_pos_in_points.is_some();
                CursorUpdate::Show { icon, set_icon: is_pointer_in_window }
            },
            None => CursorUpdate::Hide,
        }
    }

    /// Call this once a graphics context has been created to update the maximum texture dimensions
    /// that egui will use.
    pub fn set_max_texture_side(&mut self, max_texture_side: usize)
        ensures
            final(self)@ == (StateView { max_texture_side: Some(max_texture_side), ..old(self)@ }),
    {
        self.egui_input.max_texture_side = Some(max_texture_side);
    }

    /// The current input state.
    /// This is changed by [`Self::on_event`] and cleared by [`Self::take_egui_input`].
    pub fn egui_input(&self) -> (r: &RawInput)
        ensures
            r.max_texture_side == self@.max_texture_side,
            r.modifiers == self@.modifiers,
            r.events@ == self@.events,
            r.hovered_files@ == self@.hovered_files,
            r.dropped_files@ == self@.dropped_files,
    {
        &self.egui_input
    }

    /// Prepare for a new frame by extracting the accumulated input.
    pub fn take_egui_input(&mut self) -> (r: RawInput)
        ensures
            r.max_texture_side == old(self)@.max_texture_side,
            r.modifiers == old(self)@.modifiers,
            r.events@ == old(self)@.events,
            r.hovered_files@ == old(self)@.hovered_files,
            r.dropped_files@ == old(self)@.dropped_files,
            final(self)@ == old(self)@.taken(),
    {
        self.egui_input.take()
    }

    fn on_mouse_button_input(&mut self, state: ElementState, button: MouseButton)
        ensures
            final(self)@ == old(self)@.after_mouse_button(state, button),
    {
        if let Some(pos) = self.pointer_pos_in_points {
            if let Some(button) = translate_mouse_button(button) {
                let pressed = matches!(state, ElementState::Pressed);
                self.egui_input.events.push(
                    Event::PointerButton { pos, button, pressed, modifiers: self.egui_input.modifiers },
                );
                if self.simulate_touch_screen {
                    if pressed {
                        self.any_pointer_button_down = true;
                        self.egui_input.events.push(
                            Event::Touch { device_id: 0, id: 0, phase: TouchPhase::Start, pos, force: None },
                        );
                    } else {
                        self.any_pointer_button_down = false;
                        self.egui_input.events.push(Event::PointerGone);
                        self.egui_input.events.push(
                            Event::Touch { device_id: 0, id: 0, phase: TouchPhase::End, pos, force: None },
                        );
                    }
                }
            }
        }
    }

    fn on_cursor_moved(&mut self, pos_in_points: Pos2)
        ensures
            final(self)@ == old(self)@.after_cursor_moved(pos_in_points),
    {
        self.pointer_pos_in_points = Some(pos_in_points);
        if self.simulate_touch_screen {
            if self.any_pointer_button_down {
                self.egui_input.events.push(Event::PointerMoved(pos_in_points));
                self.egui_input.events.push(
                    Event::Touch {
                        device_id: 0,
                        id: 0,
                        phase: TouchPhase::Move,
                        pos: pos_in_points,
                        force: None,
                    },
                );
            }
        } else {
            self.egui_input.events.push(Event::PointerMoved(pos_in_points));
        }
    }

    fn on_touch(&mut self, touch: &Touch)
        ensures
            final(self)@ == old(self)@.after_touch(*touch),
            // Only one touch moves the pointer: another touch is only a touch.
            old(self)@.pointer_touch_id is Some && old(self)@.pointer_touch_id != Some(touch.id)
                ==> final(self)@ == old(self)@.push(
                Event::Touch {
                    device_id: touch.device_id,
                    id: touch.id,
                    phase: touch_phase_of(touch.phase),
                    pos: touch.location,
                    force: touch.force,
                },
            ),
    {
        // Emit touch event
        let phase = match touch.phase {
            crate::window::TouchPhase::Started => TouchPhase::Start,
            crate::window::TouchPhase::Moved => TouchPhase::Move,
            crate::window::TouchPhase::Ended => TouchPhase::End,
            crate::window::TouchPhase::Cancelled => TouchPhase::Cancel,
        };
        self.egui_input.events.push(
            Event::Touch {
                device_id: touch.device_id,
                id: touch.id,
                phase,
                pos: touch.location,
                force: touch.force,
            },
        );
        // If we're not yet translating a touch or we're translating this very
        // touch …
        let translating_this = match self.pointer_touch_id {
            None => true,
            Some(id) => id == touch.id,
        };
        if translating_this {
            // … emit PointerButton resp. PointerMoved events to emulate mouse
            match touch.phase {
                crate::window::TouchPhase::Started => {
                    self.pointer_touch_id = Some(touch.id);
                    // First move the pointer to the right location
                    self.on_cursor_moved(touch.location);
                    self.on_mouse_button_input(ElementState::Pressed, MouseButton::Left);
                },
                crate::window::TouchPhase::Moved => {
                    self.on_cursor_moved(touch.location);
                },
                crate::window::TouchPhase::Ended => {
                    self.pointer_touch_id = None;
                    self.on_mouse_button_input(ElementState::Released, MouseButton::Left);
                    // The pointer should vanish completely to not get any
                    // hover effects
                    self.pointer_pos_in_points = None;
                    self.egui_input.events.push(Event::PointerGone);
                },
                crate::window::TouchPhase::Cancelled => {
                    self.pointer_touch_id = None;
                    self.pointer_pos_in_points = None;
                    self.egui_input.events.push(Event::PointerGone);
                },
            }
        }
    }

    fn on_mouse_wheel(&mut self, delta: Vec2)
        ensures
            final(self)@ == old(self)@.after_mouse_wheel(delta),
    {
        if self.egui_input.modifiers.ctrl || self.egui_input.modifiers.command {
            // Treat as zoom instead:
            self.egui_input.events.push(Event::Zoom(delta));
        } else if self.egui_input.modifiers.shift {
            // Treat as horizontal scrolling.
            // Note: one Mac we already get horizontal scroll events when shift is down.
            self.egui_input.events.push(Event::HorizontalScroll(delta));
        } else {
            self.egui_input.events.push(Event::Scroll(delta));
        }
    }

    /// The clipboard command that a key event types, if any.
    pub fn keyboard_command(&self, event: &KeyEvent) -> (r: Option<ClipboardCommand>)
        ensures
            r == self@.keyboard_command(*event),
    {
        if !matches!(event.state, ElementState::Pressed) {
            None
        } else if is_cut_command(self.target_os, self.egui_input.modifiers, &event.logical_key) {
            Some(ClipboardCommand::Cut)
        } else if is_copy_command(self.target_os, self.egui_input.modifiers, &event.logical_key) {
            Some(ClipboardCommand::Copy)
        } else if is_paste_command(self.target_os, self.egui_input.modifiers, &event.logical_key) {
            Some(ClipboardCommand::Paste)
        } else {
            None
        }
    }

    fn on_keyboard_input(&mut self, event: &KeyEvent, paste: Option<String>)
        ensures
            final(self)@ == old(self)@.after_keyboard_input(*event, paste),
    {
        let pressed = matches!(event.state, ElementState::Pressed);
        // Key::Paste etc in winit are broken/untrustworthy,
        // so we detect these things manually:
        match self.keyboard_command(event) {
            Some(ClipboardCommand::Cut) => {
                self.egui_input.events.push(Event::Cut);
            },
            Some(ClipboardCommand::Copy) => {
                self.egui_input.events.push(Event::Copy);
            },
            Some(ClipboardCommand::Paste) => {
                if let Some(contents) = paste {
                    self.egui_input.events.push(Event::Paste(contents));
                }
            },
            None => {},
        }
        if let Some(key) = translate_virtual_key_code(&event.logical_key) {
            self.egui_input.events.push(
                Event::Key { key, pressed, modifiers: self.egui_input.modifiers },
            );
        }
    }

    fn on_key_event(&mut self, key_event: &KeyEvent, flags: ContextFlags, paste: Option<String>) -> (r: bool)
        ensures
            final(self)@ == old(self)@.after_key_event(*key_event, flags, paste),
            r == old(self)@.key_event_consumed(*key_event, flags),
    {
        self.on_keyboard_input(key_event, paste);
        let key_consumed = flags.wants_keyboard_input
            || matches!(key_event.logical_key, LogicalKey::Tab);
        let mut typed = false;
        if let Some(text) = &key_event.text {
            // On Mac we get here when the user presses Cmd-C (copy), ctrl-W, etc.
            // We need to ignore these characters that are side-effects of commands.
            let is_mac_cmd = matches!(self.target_os, TargetOs::Mac)
                && (self.egui_input.modifiers.ctrl || self.egui_input.modifiers.mac_cmd);
            if all_chars_printable(text.as_str()) && !is_mac_cmd {
                // Text typed into a focused text field is egui's input too.
                self.egui_input.events.push(Event::Text(text.clone()));
                typed = true;
            }
        }
        if key_consumed {
            true
        } else if typed {
            flags.wants_keyboard_input
        } else {
            false
        }
    }

    fn on_modifiers_changed(&mut self, state: ModifiersState)
        ensures
            final(self)@ == (StateView { modifiers: modifiers_of(old(self)@.target_os, state), ..old(self)@ }),
    {
        let is_mac = matches!(self.target_os, TargetOs::Mac);
        self.egui_input.modifiers.alt = state.alt;
        self.egui_input.modifiers.ctrl = state.control;
        self.egui_input.modifiers.shift = state.shift;
        self.egui_input.modifiers.mac_cmd = is_mac && state.super_key;
        self.egui_input.modifiers.command = if is_mac {
            state.super_key
        } else {
            state.control
        };
    }

    /// Whether the event needs the clipboard's text, so that the caller reads
    /// the clipboard only then.
    pub fn needs_clipboard(&self, event: &WindowEvent) -> (r: bool)
        ensures
            r == self@.needs_clipboard(*event),
    {
        match event {
            WindowEvent::KeyboardInput(key_event) => matches!(
                self.keyboard_command(key_event),
                Some(ClipboardCommand::Paste)
            ),
            _ => false,
        }
    }

    /// Handles an event of the window, given what egui wants and the text
    /// that a paste command pastes (see [`crate::text::paste_text`]).
    ///
    /// Returns `true` if egui wants exclusive use of this event.
    pub fn on_event_with(&mut self, event: &WindowEvent, flags: ContextFlags, paste: Option<String>) -> (r: bool)
        ensures
            final(self)@ == old(self)@.after_event(*event, flags, paste),
            r == old(self)@.event_consumed(*event, flags),
    {
        match event {
            WindowEvent::MouseInput { state, button } => {
                self.on_mouse_button_input(*state, *button);
                flags.wants_pointer_input
            },
            WindowEvent::MouseWheel { delta } => {
                self.on_mouse_wheel(*delta);
                flags.wants_pointer_input
            },
            WindowEvent::CursorMoved { position } => {
                self.on_cursor_moved(*position);
                flags.is_using_pointer
            },
            WindowEvent::CursorLeft => {
                self.pointer_pos_in_points = None;
                self.egui_input.events.push(Event::PointerGone);
                false
            },
            WindowEvent::Touch(touch) => {
                self.on_touch(touch);
                match touch.phase {
                    crate::window::TouchPhase::Started
                    | crate::window::TouchPhase::Ended
                    | crate::window::TouchPhase::Cancelled => flags.wants_pointer_input,
                    crate::window::TouchPhase::Moved => flags.is_using_pointer,
                }
            },
            WindowEvent::ImeCommit(text) => {
                self.egui_input.events.push(Event::Text(text.clone()));
                true
            },
            WindowEvent::KeyboardInput(key_event) => self.on_key_event(key_event, flags, paste),
            WindowEvent::Focused(_) => {
                // We will not be given a KeyboardInput event when the modifiers are released while
                // the window does not have focus. Unset all modifier state to be safe.
                self.egui_input.modifiers = Modifiers::new();
                false
            },
            WindowEvent::HoveredFile(path) => {
                self.egui_input.hovered_files.push(path.clone());
                false
            },
            WindowEvent::HoveredFileCancelled => {
                self.egui_input.hovered_files.clear();
                false
            },
            WindowEvent::DroppedFile(path) => {
                self.egui_input.hovered_files.clear();
                self.egui_input.dropped_files.push(path.clone());
                false
            },
            WindowEvent::ModifiersChanged(state) => {
                self.on_modifiers_changed(*state);
                false
            },
            WindowEvent::Other => false,
        }
    }

    /// Call this when there is a new event; `clipboard` is the text that the
    /// clipboard holds, read when [`Self::needs_clipboard`] says so.
    ///
    /// The result can be found in [`Self::egui_input`] and be extracted with [`Self::take_egui_input`].
    ///
    /// Returns `true` if egui wants exclusive use of this event
    /// (e.g. a mouse click on an egui window, or entering text into a text field).
    /// For instance, if you use egui for a game, you want to first call this
    /// and only when this returns `false` pass on the events to your game.
    ///
    /// Note that egui uses `tab` to move focus between elements, so this will always return `true` for tabs.
    pub fn on_event(&mut self, egui_ctx: &egui::Context, event: &WindowEvent, clipboard: Option<String>) -> (r: bool)
        ensures
            exists|flags: ContextFlags, paste: Option<String>|
                #[trigger] pasted_from(clipboard, paste)
                && flags.asked_for(*event)
                && final(self)@ == old(self)@.after_event(*event, flags, paste)
                && r == #[trigger] old(self)@.event_consumed(*event, flags),
    {
        let flags = ContextFlags::read_for(egui_ctx, event);
        let paste = paste_text(clipboard);
        self.on_event_with(event, flags, paste)
    }
}

} // verus!
