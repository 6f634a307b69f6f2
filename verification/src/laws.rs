//! Properties of the integration that hold across events and calls.

use vstd::prelude::*;
use crate::context::ContextFlags;
use crate::input::CursorIcon;
use crate::input::Event;
use crate::input::PointerButton;
use crate::input::TouchPhase;
use crate::platform_output::CursorUpdate;
use crate::state::StateView;
use crate::text::replace_all;
use crate::text::unix_newlines;
use crate::translate::system_cursor_of;
use crate::state::all_printable;
use crate::translate::key_of;
use crate::translate::same_key;
use crate::window::KeyEvent;
use crate::window::TargetOs;
use crate::window::LogicalKey;
use crate::window::Touch;
use crate::window::WindowEvent;
use crate::input::Key;
use crate::input::Modifiers;
use crate::state::ClipboardCommand;
use crate::state::modifiers_of;
use crate::translate::copy_command;
use crate::translate::cut_command;
use crate::translate::is_character;
use crate::translate::paste_command;
use crate::window::ElementState;
use crate::window::ModifiersState;
use crate::window::SystemCursor;

verus! {

/// egui uses tab to move the focus between elements, so a tab key event is
/// always egui's, whatever the context says.
pub proof fn tab_is_always_consumed(v: StateView, event: KeyEvent, flags: ContextFlags)
    requires
        event.logical_key == LogicalKey::Tab,
    ensures
        v.event_consumed(WindowEvent::KeyboardInput(event), flags),
{
}

/// Text that the input method commits is always egui's, and egui gets it as
/// text.
pub proof fn ime_commit_is_consumed(v: StateView, text: String, flags: ContextFlags, paste: Option<String>)
    ensures
        v.event_consumed(WindowEvent::ImeCommit(text), flags),
        v.after_event(WindowEvent::ImeCommit(text), flags, paste).events == v.events.push(
            Event::Text(text),
        ),
{
}

/// Printable text typed on the keyboard reaches egui, also while a text
/// field has the focus, right after the events of the key itself (on Mac, not
/// while control or ⌘ is held).
pub proof fn typed_text_reaches_egui(v: StateView, event: KeyEvent, flags: ContextFlags, paste: Option<String>)
    requires
        event.text is Some,
        all_printable(event.text->0@),
        !(v.target_os == TargetOs::Mac && (v.modifiers.ctrl || v.modifiers.mac_cmd)),
    ensures
        v.after_event(WindowEvent::KeyboardInput(event), flags, paste).events
            == v.after_keyboard_input(event, paste).events.push(Event::Text(event.text->0)),
{
}

/// Different keys of the window have different egui keys: two keys that map
/// to the same egui key are the same named key, or type the same character.
pub proof fn key_translation_is_one_to_one(a: LogicalKey, b: LogicalKey)
    requires
        key_of(a) is Some,
        key_of(a) == key_of(b),
    ensures
        same_key(a, b),
{
    if let LogicalKey::Character(s) = a {
        if let LogicalKey::Character(t) = b {
            assert(s@ =~= t@);
        }
    }
}

/// When egui wants neither the pointer nor the keyboard, it claims only tab
/// keys and committed text.
pub proof fn idle_egui_claims_only_tab_and_ime(v: StateView, event: WindowEvent)
    ensures
        v.event_consumed(
            event,
            ContextFlags {
                wants_pointer_input: false,
                is_using_pointer: false,
                wants_keyboard_input: false,
            },
        ) <==> (event is ImeCommit || (event matches WindowEvent::KeyboardInput(k)
            && k.logical_key == LogicalKey::Tab)),
{
}

/// Events that are about the window rather than about input for egui (the
/// cursor leaving, focus, files, modifiers and the rest) are never egui's.
pub proof fn window_events_are_never_consumed(v: StateView, event: WindowEvent, flags: ContextFlags)
    requires
        !(event is MouseInput || event is MouseWheel || event is CursorMoved || event is Touch
            || event is ImeCommit || event is KeyboardInput),
    ensures
        !v.event_consumed(event, flags),
{
}

/// Handling an event only adds input for egui: the events gathered before
/// stay, in their order, at the front.
pub proof fn events_are_only_appended(v: StateView, event: WindowEvent, flags: ContextFlags, paste: Option<String>)
    ensures
        v.events.len() <= v.after_event(event, flags, paste).events.len(),
        v.after_event(event, flags, paste).events.take(v.events.len() as int) == v.events,
{
    let w = v.after_event(event, flags, paste);
    assert(w.events.take(v.events.len() as int) =~= v.events);
}

/// Handing the input to egui twice in a row hands out nothing the second
/// time but what describes the present (modifiers and hovered files).
pub proof fn taking_twice_hands_out_nothing_new(v: StateView)
    ensures
        v.taken().taken() == v.taken(),
        v.taken().events.len() == 0,
        v.taken().dropped_files.len() == 0,
        v.taken().max_texture_side is None,
{
}

/// Events pile up until egui takes them: what egui takes after an event is
/// what it would have taken before, followed by what the event added, and
/// after the take nothing of the event is left.
pub proof fn take_after_event_hands_out_the_event(v: StateView, event: WindowEvent, flags: ContextFlags, paste: Option<String>)
    ensures
        ({
            let w = v.after_event(event, flags, paste);
            &&& w.events == v.events + w.events.skip(v.events.len() as int)
            &&& w.taken().events.len() == 0
        }),
{
    let w = v.after_event(event, flags, paste);
    events_are_only_appended(v, event, flags, paste);
    assert(w.events =~= v.events + w.events.skip(v.events.len() as int)) by {
        assert(w.events.take(v.events.len() as int) == v.events);
        assert(w.events =~= w.events.take(v.events.len() as int) + w.events.skip(v.events.len() as int));
    }
}

/// No event changes the integration's setup: the operating system whose
/// conventions it follows and whether it simulates a touch screen; and
/// without a simulated touch screen no mouse button counts as held.
pub proof fn events_keep_the_setup(v: StateView, event: WindowEvent, flags: ContextFlags, paste: Option<String>)
    ensures
        v.after_event(event, flags, paste).target_os == v.target_os,
        v.after_event(event, flags, paste).simulate_touch_screen == v.simulate_touch_screen,
        !v.simulate_touch_screen && !v.any_pointer_button_down
            ==> !v.after_event(event, flags, paste).any_pointer_button_down,
{
}

/// While one touch moves the pointer, any other touch reaches egui as a touch
/// and nothing else: the pointer stays where it is.
pub proof fn other_touches_leave_the_pointer(v: StateView, touch: Touch)
    requires
        v.pointer_touch_id is Some,
        v.pointer_touch_id != Some(touch.id),
    ensures
        v.after_touch(touch) == v.push(
            Event::Touch {
                device_id: touch.device_id,
                id: touch.id,
                phase: crate::state::touch_phase_of(touch.phase),
                pos: touch.location,
                force: touch.force,
            },
        ),
{
}

/// A tap is a click: when no touch moves the pointer, a touch that starts
/// and then ends moves the pointer to where it started, presses and releases
/// the primary button there, and then makes the pointer vanish.
pub proof fn tap_is_a_click(v: StateView, start: Touch, end: Touch)
    requires
        !v.simulate_touch_screen,
        v.pointer_touch_id is None,
        start.phase == crate::window::TouchPhase::Started,
        end.phase == crate::window::TouchPhase::Ended,
        end.id == start.id,
    ensures
        ({
            let pressed = v.after_touch(start);
            let released = pressed.after_touch(end);
            &&& pressed.pointer_touch_id == Some(start.id)
            &&& pressed.pointer_pos == Some(start.location)
            &&& released.pointer_touch_id is None
            &&& released.pointer_pos is None
            &&& released.events == v.events + seq![
                Event::Touch {
                    device_id: start.device_id,
                    id: start.id,
                    phase: TouchPhase::Start,
                    pos: start.location,
                    force: start.force,
                },
                Event::PointerMoved(start.location),
                Event::PointerButton {
                    pos: start.location,
                    button: PointerButton::Primary,
                    pressed: true,
                    modifiers: v.modifiers,
                },
                Event::Touch {
                    device_id: end.device_id,
                    id: end.id,
                    phase: TouchPhase::End,
                    pos: end.location,
                    force: end.force,
                },
                Event::PointerButton {
                    pos: start.location,
                    button: PointerButton::Primary,
                    pressed: false,
                    modifiers: v.modifiers,
                },
                Event::PointerGone,
            ]
        }),
{
}

/// Once the window has the cursor egui asked for, asking for it again
/// changes nothing: the window is not touched twice for one icon.
pub proof fn same_cursor_twice_is_unchanged(v: StateView, icon: CursorIcon)
    ensures
        (StateView { cursor_icon: icon, ..v }).cursor_update(icon) == CursorUpdate::Unchanged,
{
}

/// Every cursor icon but the hidden one has a system cursor, and different
/// icons have different system cursors.
pub proof fn cursor_translation_is_one_to_one(a: CursorIcon, b: CursorIcon)
    ensures
        system_cursor_of(a) is None <==> a == CursorIcon::Hidden,
        system_cursor_of(a) is Some && system_cursor_of(a) == system_cursor_of(b) ==> a == b,
{
}

/// Text without carriage returns is pasted as it is.
pub proof fn text_without_carriage_returns_is_unchanged(s: Seq<char>)
    requires
        forall|i: int| 0 <= i < s.len() ==> s[i] != '\r',
    ensures
        unix_newlines(s) == s,
    decreases s.len(),
{
    if s.len() >= 2 {
        assert(s.take(2) != seq!['\r', '\n']) by {
            assert(s.take(2)[0] != '\r');
        }
        text_without_carriage_returns_is_unchanged(s.skip(1));
        assert(seq![s[0]] + s.skip(1) =~= s);
    } else if s.len() == 1 {
        assert(replace_all(s, seq!['\r', '\n'], seq!['\n']) == s);
    }
}


/// While egui listens on text input (a text field has the focus), every key
/// event is egui's: the application must not also act on it.
pub proof fn keys_belong_to_a_focused_text_field(v: StateView, event: KeyEvent, flags: ContextFlags)
    requires
        flags.wants_keyboard_input,
    ensures
        v.event_consumed(WindowEvent::KeyboardInput(event), flags),
{
}

/// Each named key of the window is the egui key of the same name.
pub proof fn named_keys_keep_their_names()
    ensures
        key_of(LogicalKey::ArrowDown) == Some(Key::ArrowDown),
        key_of(LogicalKey::ArrowLeft) == Some(Key::ArrowLeft),
        key_of(LogicalKey::ArrowRight) == Some(Key::ArrowRight),
        key_of(LogicalKey::ArrowUp) == Some(Key::ArrowUp),
        key_of(LogicalKey::Escape) == Some(Key::Escape),
        key_of(LogicalKey::Tab) == Some(Key::Tab),
        key_of(LogicalKey::Backspace) == Some(Key::Backspace),
        key_of(LogicalKey::Enter) == Some(Key::Enter),
        key_of(LogicalKey::Space) == Some(Key::Space),
        key_of(LogicalKey::Insert) == Some(Key::Insert),
        key_of(LogicalKey::Delete) == Some(Key::Delete),
        key_of(LogicalKey::Home) == Some(Key::Home),
        key_of(LogicalKey::End) == Some(Key::End),
        key_of(LogicalKey::PageUp) == Some(Key::PageUp),
        key_of(LogicalKey::PageDown) == Some(Key::PageDown),
        key_of(LogicalKey::F1) == Some(Key::F1),
        key_of(LogicalKey::F2) == Some(Key::F2),
        key_of(LogicalKey::F3) == Some(Key::F3),
        key_of(LogicalKey::F4) == Some(Key::F4),
        key_of(LogicalKey::F5) == Some(Key::F5),
        key_of(LogicalKey::F6) == Some(Key::F6),
        key_of(LogicalKey::F7) == Some(Key::F7),
        key_of(LogicalKey::F8) == Some(Key::F8),
        key_of(LogicalKey::F9) == Some(Key::F9),
        key_of(LogicalKey::F10) == Some(Key::F10),
        key_of(LogicalKey::F11) == Some(Key::F11),
        key_of(LogicalKey::F12) == Some(Key::F12),
        key_of(LogicalKey::F13) == Some(Key::F13),
        key_of(LogicalKey::F14) == Some(Key::F14),
        key_of(LogicalKey::F15) == Some(Key::F15),
        key_of(LogicalKey::F16) == Some(Key::F16),
        key_of(LogicalKey::F17) == Some(Key::F17),
        key_of(LogicalKey::F18) == Some(Key::F18),
        key_of(LogicalKey::F19) == Some(Key::F19),
        key_of(LogicalKey::F20) == Some(Key::F20),
{
}

/// A key that types one digit is egui's key for that digit, and a key that
/// types one lower-case ASCII letter is egui's key for that letter.
pub proof fn character_keys_keep_their_names(s: String)
    requires
        s@.len() == 1,
    ensures
        s@[0] == '0' ==> key_of(LogicalKey::Character(s)) == Some(Key::Num0),
        s@[0] == '1' ==> key_of(LogicalKey::Character(s)) == Some(Key::Num1),
        s@[0] == '2' ==> key_of(LogicalKey::Character(s)) == Some(Key::Num2),
        s@[0] == '3' ==> key_of(LogicalKey::Character(s)) == Some(Key::Num3),
        s@[0] == '4' ==> key_of(LogicalKey::Character(s)) == Some(Key::Num4),
        s@[0] == '5' ==> key_of(LogicalKey::Character(s)) == Some(Key::Num5),
        s@[0] == '6' ==> key_of(LogicalKey::Character(s)) == Some(Key::Num6),
        s@[0] == '7' ==> key_of(LogicalKey::Character(s)) == Some(Key::Num7),
        s@[0] == '8' ==> key_of(LogicalKey::Character(s)) == Some(Key::Num8),
        s@[0] == '9' ==> key_of(LogicalKey::Character(s)) == Some(Key::Num9),
        s@[0] == 'a' ==> key_of(LogicalKey::Character(s)) == Some(Key::A),
        s@[0] == 'b' ==> key_of(LogicalKey::Character(s)) == Some(Key::B),
        s@[0] == 'c' ==> key_of(LogicalKey::Character(s)) == Some(Key::C),
        s@[0] == 'd' ==> key_of(LogicalKey::Character(s)) == Some(Key::D),
        s@[0] == 'e' ==> key_of(LogicalKey::Character(s)) == Some(Key::E),
        s@[0] == 'f' ==> key_of(LogicalKey::Character(s)) == Some(Key::F),
        s@[0] == 'g' ==> key_of(LogicalKey::Character(s)) == Some(Key::G),
        s@[0] == 'h' ==> key_of(LogicalKey::Character(s)) == Some(Key::H),
        s@[0] == 'i' ==> key_of(LogicalKey::Character(s)) == Some(Key::I),
        s@[0] == 'j' ==> key_of(LogicalKey::Character(s)) == Some(Key::J),
        s@[0] == 'k' ==> key_of(LogicalKey::Character(s)) == Some(Key::K),
        s@[0] == 'l' ==> key_of(LogicalKey::Character(s)) == Some(Key::L),
        s@[0] == 'm' ==> key_of(LogicalKey::Character(s)) == Some(Key::M),
        s@[0] == 'n' ==> key_of(LogicalKey::Character(s)) == Some(Key::N),
        s@[0] == 'o' ==> key_of(LogicalKey::Character(s)) == Some(Key::O),
        s@[0] == 'p' ==> key_of(LogicalKey::Character(s)) == Some(Key::P),
        s@[0] == 'q' ==> key_of(LogicalKey::Character(s)) == Some(Key::Q),
        s@[0] == 'r' ==> key_of(LogicalKey::Character(s)) == Some(Key::R),
        s@[0] == 's' ==> key_of(LogicalKey::Character(s)) == Some(Key::S),
        s@[0] == 't' ==> key_of(LogicalKey::Character(s)) == Some(Key::T),
        s@[0] == 'u' ==> key_of(LogicalKey::Character(s)) == Some(Key::U),
        s@[0] == 'v' ==> key_of(LogicalKey::Character(s)) == Some(Key::V),
        s@[0] == 'w' ==> key_of(LogicalKey::Character(s)) == Some(Key::W),
        s@[0] == 'x' ==> key_of(LogicalKey::Character(s)) == Some(Key::X),
        s@[0] == 'y' ==> key_of(LogicalKey::Character(s)) == Some(Key::Y),
        s@[0] == 'z' ==> key_of(LogicalKey::Character(s)) == Some(Key::Z),
{
}

/// Each visible cursor icon is shown by the system cursor of the same name
/// (egui's pointing hand is the system's hand, and the resize icons are the
/// system's resize cursors of the same directions).
pub proof fn cursor_icons_keep_their_names()
    ensures
        system_cursor_of(CursorIcon::Alias) == Some(SystemCursor::Alias),
        system_cursor_of(CursorIcon::AllScroll) == Some(SystemCursor::AllScroll),
        system_cursor_of(CursorIcon::Cell) == Some(SystemCursor::Cell),
        system_cursor_of(CursorIcon::ContextMenu) == Some(SystemCursor::ContextMenu),
        system_cursor_of(CursorIcon::Copy) == Some(SystemCursor::Copy),
        system_cursor_of(CursorIcon::Crosshair) == Some(SystemCursor::Crosshair),
        system_cursor_of(CursorIcon::Default) == Some(SystemCursor::Default),
        system_cursor_of(CursorIcon::Grab) == Some(SystemCursor::Grab),
        system_cursor_of(CursorIcon::Grabbing) == Some(SystemCursor::Grabbing),
        system_cursor_of(CursorIcon::Help) == Some(SystemCursor::Help),
        system_cursor_of(CursorIcon::Move) == Some(SystemCursor::Move),
        system_cursor_of(CursorIcon::NoDrop) == Some(SystemCursor::NoDrop),
        system_cursor_of(CursorIcon::NotAllowed) == Some(SystemCursor::NotAllowed),
        system_cursor_of(CursorIcon::PointingHand) == Some(SystemCursor::Hand),
        system_cursor_of(CursorIcon::Progress) == Some(SystemCursor::Progress),
        system_cursor_of(CursorIcon::ResizeHorizontal) == Some(SystemCursor::EwResize),
        system_cursor_of(CursorIcon::ResizeNeSw) == Some(SystemCursor::NeswResize),
        system_cursor_of(CursorIcon::ResizeNwSe) == Some(SystemCursor::NwseResize),
        system_cursor_of(CursorIcon::ResizeVertical) == Some(SystemCursor::NsResize),
        system_cursor_of(CursorIcon::ResizeEast) == Some(SystemCursor::EResize),
        system_cursor_of(CursorIcon::ResizeSouthEast) == Some(SystemCursor::SeResize),
        system_cursor_of(CursorIcon::ResizeSouth) == Some(SystemCursor::SResize),
        system_cursor_of(CursorIcon::ResizeSouthWest) == Some(SystemCursor::SwResize),
        system_cursor_of(CursorIcon::ResizeWest) == Some(SystemCursor::WResize),
        system_cursor_of(CursorIcon::ResizeNorthWest) == Some(SystemCursor::NwResize),
        system_cursor_of(CursorIcon::ResizeNorth) == Some(SystemCursor::NResize),
        system_cursor_of(CursorIcon::ResizeNorthEast) == Some(SystemCursor::NeResize),
        system_cursor_of(CursorIcon::ResizeColumn) == Some(SystemCursor::ColResize),
        system_cursor_of(CursorIcon::ResizeRow) == Some(SystemCursor::RowResize),
        system_cursor_of(CursorIcon::Text) == Some(SystemCursor::Text),
        system_cursor_of(CursorIcon::VerticalText) == Some(SystemCursor::VerticalText),
        system_cursor_of(CursorIcon::Wait) == Some(SystemCursor::Wait),
        system_cursor_of(CursorIcon::ZoomIn) == Some(SystemCursor::ZoomIn),
        system_cursor_of(CursorIcon::ZoomOut) == Some(SystemCursor::ZoomOut),
{
}

/// The clipboard shortcuts are the platform's command key with X, C or V:
/// ⌘ on Mac, control elsewhere, as the modifiers' `command` says. Without
/// `command`, only Windows' shift+Delete, control+Insert and shift+Insert
/// count; control alone with a letter is no shortcut.
pub proof fn clipboard_shortcuts_use_the_command_key(os: TargetOs, modifiers: Modifiers, key: LogicalKey)
    ensures
        modifiers.command && is_character(key, 'x') ==> cut_command(os, modifiers, key),
        modifiers.command && is_character(key, 'c') ==> copy_command(os, modifiers, key),
        modifiers.command && is_character(key, 'v') ==> paste_command(os, modifiers, key),
        !modifiers.command && !(os == TargetOs::Windows && modifiers.shift && key == LogicalKey::Delete)
            ==> !cut_command(os, modifiers, key),
        !modifiers.command && !(os == TargetOs::Windows && modifiers.ctrl && key == LogicalKey::Insert)
            ==> !copy_command(os, modifiers, key),
        !modifiers.command && !(os == TargetOs::Windows && modifiers.shift && key == LogicalKey::Insert)
            ==> !paste_command(os, modifiers, key),
{
}

/// The command key is ⌘ on Mac and control elsewhere; `mac_cmd` is ⌘ on Mac
/// and never set elsewhere; alt, control and shift are taken as reported.
pub proof fn command_key_follows_the_platform(os: TargetOs, state: ModifiersState)
    ensures
        modifiers_of(os, state).alt == state.alt,
        modifiers_of(os, state).ctrl == state.control,
        modifiers_of(os, state).shift == state.shift,
        os == TargetOs::Mac ==> modifiers_of(os, state).command == state.super_key
            && modifiers_of(os, state).mac_cmd == state.super_key,
        os != TargetOs::Mac ==> modifiers_of(os, state).command == state.control
            && !modifiers_of(os, state).mac_cmd,
{
}

/// After the window reports the modifier keys, pressing V with the
/// platform's command key held (⌘ on Mac, control elsewhere) is the paste
/// command, and pressing it with nothing held is not.
pub proof fn command_v_pastes_on_every_platform(v: StateView, state: ModifiersState, key: KeyEvent, flags: ContextFlags, paste: Option<String>)
    requires
        is_character(key.logical_key, 'v'),
        key.state == ElementState::Pressed,
        (if v.target_os == TargetOs::Mac { state.super_key } else { state.control }),
    ensures
        v.after_event(WindowEvent::ModifiersChanged(state), flags, paste).keyboard_command(key)
            == Some(ClipboardCommand::Paste),
        (StateView { modifiers: Modifiers::none(), ..v }).keyboard_command(key) is None,
{
    if let LogicalKey::Character(s) = key.logical_key {
        assert(s@[0] == 'v');
        assert(!is_character(key.logical_key, 'x'));
        assert(!is_character(key.logical_key, 'c'));
    }
}

} // verus!
