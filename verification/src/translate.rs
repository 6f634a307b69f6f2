//! Pure translations between the window's vocabulary and egui's.

use vstd::prelude::*;
use vstd::string::*;
use crate::input::CursorIcon;
use crate::input::Key;
use crate::input::Modifiers;
use crate::input::PointerButton;
use crate::window::LogicalKey;
use crate::window::MouseButton;
use crate::window::SystemCursor;
use crate::window::TargetOs;

verus! {

/// The private use areas of Unicode, where winit puts special keys.
pub open spec fn in_private_use_area(c: char) -> bool {
    ||| '\u{e000}' <= c <= '\u{f8ff}'
    ||| '\u{f0000}' <= c <= '\u{ffffd}'
    ||| '\u{100000}' <= c <= '\u{10fffd}'
}

/// ASCII control characters: U+0000 ..= U+001F and U+007F.
pub open spec fn is_ascii_control(c: char) -> bool {
    c <= '\u{1f}' || c == '\u{7f}'
}

/// A character that may be typed as text: not in a private use area and not
/// an ASCII control character.
pub open spec fn printable(c: char) -> bool {
    !in_private_use_area(c) && !is_ascii_control(c)
}

/// Winit sends special keys (backspace, delete, F1, …) as characters.
/// Ignore those.
/// We also ignore '\r', '\n', '\t'.
/// Newlines are handled by the `Key::Enter` event.
pub fn is_printable_char(chr: char) -> (r: bool)
    ensures
        r == printable(chr),
{
    let is_in_private_use_area = '\u{e000}' <= chr && chr <= '\u{f8ff}'
        || '\u{f0000}' <= chr && chr <= '\u{ffffd}'
        || '\u{100000}' <= chr && chr <= '\u{10fffd}';
    let is_control = chr <= '\u{1f}' || chr == '\u{7f}';
    !is_in_private_use_area && !is_control
}

/// The key is the one that types exactly the character `c`.
pub open spec fn is_character(key: LogicalKey, c: char) -> bool {
    key matches LogicalKey::Character(s) && s@ == seq![c]
}

/// Whether `key` types exactly the character `c`.
pub fn key_is_character(key: &LogicalKey, c: char) -> (r: bool)
    ensures
        r == is_character(*key, c),
{
    match key {
        LogicalKey::Character(s) => {
            let t = s.as_str();
            if t.unicode_len() == 1 {
                let first = t.get_char(0);
                proof {
                    if first == c {
                        assert(s@ =~= seq![c]);
                    }
                }
                first == c
            } else {
                false
            }
        },
        _ => false,
    }
}

/// The key combination that cuts: command+X, and on Windows also shift+Delete.
pub open spec fn cut_command(os: TargetOs, modifiers: Modifiers, key: LogicalKey) -> bool {
    (modifiers.command && is_character(key, 'x'))
        || (os == TargetOs::Windows && modifiers.shift && key == LogicalKey::Delete)
}

/// The key combination that copies: command+C, and on Windows also control+Insert.
pub open spec fn copy_command(os: TargetOs, modifiers: Modifiers, key: LogicalKey) -> bool {
    (modifiers.command && is_character(key, 'c'))
        || (os == TargetOs::Windows && modifiers.ctrl && key == LogicalKey::Insert)
}

/// The key combination that pastes: command+V, and on Windows also shift+Insert.
pub open spec fn paste_command(os: TargetOs, modifiers: Modifiers, key: LogicalKey) -> bool {
    (modifiers.command && is_character(key, 'v'))
        || (os == TargetOs::Windows && modifiers.shift && key == LogicalKey::Insert)
}

/// Whether the key, with these modifiers, is the command to cut.
pub fn is_cut_command(os: TargetOs, modifiers: Modifiers, keycode: &LogicalKey) -> (r: bool)
    ensures
        r == cut_command(os, modifiers, *keycode),
{
    (modifiers.command && key_is_character(keycode, 'x'))
        || (matches!(os, TargetOs::Windows) && modifiers.shift
            && matches!(keycode, LogicalKey::Delete))
}

/// Whether the key, with these modifiers, is the command to copy.
pub fn is_copy_command(os: TargetOs, modifiers: Modifiers, keycode: &LogicalKey) -> (r: bool)
    ensures
        r == copy_command(os, modifiers, *keycode),
{
    (modifiers.command && key_is_character(keycode, 'c'))
        || (matches!(os, TargetOs::Windows) && modifiers.ctrl
            && matches!(keycode, LogicalKey::Insert))
}

/// Whether the key, with these modifiers, is the command to paste.
pub fn is_paste_command(os: TargetOs, modifiers: Modifiers, keycode: &LogicalKey) -> (r: bool)
    ensures
        r == paste_command(os, modifiers, *keycode),
{
    (modifiers.command && key_is_character(keycode, 'v'))
        || (matches!(os, TargetOs::Windows) && modifiers.shift
            && matches!(keycode, LogicalKey::Insert))
}

/// The egui button for a mouse button; the extra buttons 1 and 2 are
/// egui's `Extra1` and `Extra2`, and any other extra button has none.
pub open spec fn pointer_button_of(button: MouseButton) -> Option<PointerButton> {
    match button {
        MouseButton::Left => Some(PointerButton::Primary),
        MouseButton::Right => Some(PointerButton::Secondary),
        MouseButton::Middle => Some(PointerButton::Middle),
        MouseButton::Other(n) => if n == 1 {
            Some(PointerButton::Extra1)
        } else if n == 2 {
            Some(PointerButton::Extra2)
        } else {
            None
        },
    }
}

/// Translates a mouse button to egui's.
pub fn translate_mouse_button(button: MouseButton) -> (r: Option<PointerButton>)
    ensures
        r == pointer_button_of(button),
{
    match button {
        MouseButton::Left => Some(PointerButton::Primary),
        MouseButton::Right => Some(PointerButton::Secondary),
        MouseButton::Middle => Some(PointerButton::Middle),
        MouseButton::Other(1) => Some(PointerButton::Extra1),
        MouseButton::Other(2) => Some(PointerButton::Extra2),
        MouseButton::Other(_) => None,
    }
}

/// The egui key for a digit or a lower-case ASCII letter.
pub open spec fn character_key(c: char) -> Option<Key> {
    match c {
        '0' => Some(Key::Num0),
        '1' => Some(Key::Num1),
        '2' => Some(Key::Num2),
        '3' => Some(Key::Num3),
        '4' => Some(Key::Num4),
        '5' => Some(Key::Num5),
        '6' => Some(Key::Num6),
        '7' => Some(Key::Num7),
        '8' => Some(Key::Num8),
        '9' => Some(Key::Num9),
        'a' => Some(Key::A),
        'b' => Some(Key::B),
        'c' => Some(Key::C),
        'd' => Some(Key::D),
        'e' => Some(Key::E),
        'f' => Some(Key::F),
        'g' => Some(Key::G),
        'h' => Some(Key::H),
        'i' => Some(Key::I),
        'j' => Some(Key::J),
        'k' => Some(Key::K),
        'l' => Some(Key::L),
        'm' => Some(Key::M),
        'n' => Some(Key::N),
        'o' => Some(Key::O),
        'p' => Some(Key::P),
        'q' => Some(Key::Q),
        'r' => Some(Key::R),
        's' => Some(Key::S),
        't' => Some(Key::T),
        'u' => Some(Key::U),
        'v' => Some(Key::V),
        'w' => Some(Key::W),
        'x' => Some(Key::X),
        'y' => Some(Key::Y),
        'z' => Some(Key::Z),
        _ => None,
    }
}

/// The egui key for a key of the window: the named keys that egui knows,
/// and the keys that type a single digit or lower-case ASCII letter.
pub open spec fn key_of(key: LogicalKey) -> Option<Key> {
    match key {
        LogicalKey::ArrowDown => Some(Key::ArrowDown),
        LogicalKey::ArrowLeft => Some(Key::ArrowLeft),
        LogicalKey::ArrowRight => Some(Key::ArrowRight),
        LogicalKey::ArrowUp => Some(Key::ArrowUp),
        LogicalKey::Escape => Some(Key::Escape),
        LogicalKey::Tab => Some(Key::Tab),
        LogicalKey::Backspace => Some(Key::Backspace),
        LogicalKey::Enter => Some(Key::Enter),
        LogicalKey::Space => Some(Key::Space),
        LogicalKey::Insert => Some(Key::Insert),
        LogicalKey::Delete => Some(Key::Delete),
        LogicalKey::Home => Some(Key::Home),
        LogicalKey::End => Some(Key::End),
        LogicalKey::PageUp => Some(Key::PageUp),
        LogicalKey::PageDown => Some(Key::PageDown),
        LogicalKey::F1 => Some(Key::F1),
        LogicalKey::F2 => Some(Key::F2),
        LogicalKey::F3 => Some(Key::F3),
        LogicalKey::F4 => Some(Key::F4),
        LogicalKey::F5 => Some(Key::F5),
        LogicalKey::F6 => Some(Key::F6),
        LogicalKey::F7 => Some(Key::F7),
        LogicalKey::F8 => Some(Key::F8),
        LogicalKey::F9 => Some(Key::F9),
        LogicalKey::F10 => Some(Key::F10),
        LogicalKey::F11 => Some(Key::F11),
        LogicalKey::F12 => Some(Key::F12),
        LogicalKey::F13 => Some(Key::F13),
        LogicalKey::F14 => Some(Key::F14),
        LogicalKey::F15 => Some(Key::F15),
        LogicalKey::F16 => Some(Key::F16),
        LogicalKey::F17 => Some(Key::F17),
        LogicalKey::F18 => Some(Key::F18),
        LogicalKey::F19 => Some(Key::F19),
        LogicalKey::F20 => Some(Key::F20),
        LogicalKey::Character(s) => if s@.len() == 1 {
            character_key(s@[0])
        } else {
            None
        },
        LogicalKey::Unidentified => None,
    }
}

/// The two keys are the same key: the same named key, or keys that type the
/// same text.
pub open spec fn same_key(a: LogicalKey, b: LogicalKey) -> bool {
    match (a, b) {
        (LogicalKey::Character(s), LogicalKey::Character(t)) => s@ == t@,
        _ => a == b,
    }
}

/// The egui key for a typed character.
fn translate_character(c: char) -> (r: Option<Key>)
    ensures
        r == character_key(c),
{
    match c {
        '0' => Some(Key::Num0),
        '1' => Some(Key::Num1),
        '2' => Some(Key::Num2),
        '3' => Some(Key::Num3),
        '4' => Some(Key::Num4),
        '5' => Some(Key::Num5),
        '6' => Some(Key::Num6),
        '7' => Some(Key::Num7),
        '8' => Some(Key::Num8),
        '9' => Some(Key::Num9),
        'a' => Some(Key::A),
        'b' => Some(Key::B),
        'c' => Some(Key::C),
        'd' => Some(Key::D),
        'e' => Some(Key::E),
        'f' => Some(Key::F),
        'g' => Some(Key::G),
        'h' => Some(Key::H),
        'i' => Some(Key::I),
        'j' => Some(Key::J),
        'k' => Some(Key::K),
        'l' => Some(Key::L),
        'm' => Some(Key::M),
        'n' => Some(Key::N),
        'o' => Some(Key::O),
        'p' => Some(Key::P),
        'q' => Some(Key::Q),
        'r' => Some(Key::R),
        's' => Some(Key::S),
        't' => Some(Key::T),
        'u' => Some(Key::U),
        'v' => Some(Key::V),
        'w' => Some(Key::W),
        'x' => Some(Key::X),
        'y' => Some(Key::Y),
        'z' => Some(Key::Z),
        _ => None,
    }
}

/// Translates a key of the window to egui's key, if egui has one for it.
pub fn translate_virtual_key_code(key: &LogicalKey) -> (r: Option<Key>)
    ensures
        r == key_of(*key),
{
    match key {
        LogicalKey::ArrowDown => Some(Key::ArrowDown),
        LogicalKey::ArrowLeft => Some(Key::ArrowLeft),
        LogicalKey::ArrowRight => Some(Key::ArrowRight),
        LogicalKey::ArrowUp => Some(Key::ArrowUp),
        LogicalKey::Escape => Some(Key::Escape),
        LogicalKey::Tab => Some(Key::Tab),
        LogicalKey::Backspace => Some(Key::Backspace),
        LogicalKey::Enter => Some(Key::Enter),
        LogicalKey::Space => Some(Key::Space),
        LogicalKey::Insert => Some(Key::Insert),
        LogicalKey::Delete => Some(Key::Delete),
        LogicalKey::Home => Some(Key::Home),
        LogicalKey::End => Some(Key::End),
        LogicalKey::PageUp => Some(Key::PageUp),
        LogicalKey::PageDown => Some(Key::PageDown),
        LogicalKey::F1 => Some(Key::F1),
        LogicalKey::F2 => Some(Key::F2),
        LogicalKey::F3 => Some(Key::F3),
        LogicalKey::F4 => Some(Key::F4),
        LogicalKey::F5 => Some(Key::F5),
        LogicalKey::F6 => Some(Key::F6),
        LogicalKey::F7 => Some(Key::F7),
        LogicalKey::F8 => Some(Key::F8),
        LogicalKey::F9 => Some(Key::F9),
        LogicalKey::F10 => Some(Key::F10),
        LogicalKey::F11 => Some(Key::F11),
        LogicalKey::F12 => Some(Key::F12),
        LogicalKey::F13 => Some(Key::F13),
        LogicalKey::F14 => Some(Key::F14),
        LogicalKey::F15 => Some(Key::F15),
        LogicalKey::F16 => Some(Key::F16),
        LogicalKey::F17 => Some(Key::F17),
        LogicalKey::F18 => Some(Key::F18),
        LogicalKey::F19 => Some(Key::F19),
        LogicalKey::F20 => Some(Key::F20),
        LogicalKey::Character(s) => {
            let t = s.as_str();
            if t.unicode_len() == 1 {
                translate_character(t.get_char(0))
            } else {
                None
            }
        },
        LogicalKey::Unidentified => None,
    }
}

/// The system cursor that shows egui's cursor icon; none for the hidden cursor.
pub open spec fn system_cursor_of(icon: CursorIcon) -> Option<SystemCursor> {
    match icon {
        CursorIcon::Hidden => None,
        CursorIcon::Alias => Some(SystemCursor::Alias),
        CursorIcon::AllScroll => Some(SystemCursor::AllScroll),
        CursorIcon::Cell => Some(SystemCursor::Cell),
        CursorIcon::ContextMenu => Some(SystemCursor::ContextMenu),
        CursorIcon::Copy => Some(SystemCursor::Copy),
        CursorIcon::Crosshair => Some(SystemCursor::Crosshair),
        CursorIcon::Default => Some(SystemCursor::Default),
        CursorIcon::Grab => Some(SystemCursor::Grab),
        CursorIcon::Grabbing => Some(SystemCursor::Grabbing),
        CursorIcon::Help => Some(SystemCursor::Help),
        CursorIcon::Move => Some(SystemCursor::Move),
        CursorIcon::NoDrop => Some(SystemCursor::NoDrop),
        CursorIcon::NotAllowed => Some(SystemCursor::NotAllowed),
        CursorIcon::PointingHand => Some(SystemCursor::Hand),
        CursorIcon::Progress => Some(SystemCursor::Progress),
        CursorIcon::ResizeHorizontal => Some(SystemCursor::EwResize),
        CursorIcon::ResizeNeSw => Some(SystemCursor::NeswResize),
        CursorIcon::ResizeNwSe => Some(SystemCursor::NwseResize),
        CursorIcon::ResizeVertical => Some(SystemCursor::NsResize),
        CursorIcon::ResizeEast => Some(SystemCursor::EResize),
        CursorIcon::ResizeSouthEast => Some(SystemCursor::SeResize),
        CursorIcon::ResizeSouth => Some(SystemCursor::SResize),
        CursorIcon::ResizeSouthWest => Some(SystemCursor::SwResize),
        CursorIcon::ResizeWest => Some(SystemCursor::WResize),
        CursorIcon::ResizeNorthWest => Some(SystemCursor::NwResize),
        CursorIcon::ResizeNorth => Some(SystemCursor::NResize),
        CursorIcon::ResizeNorthEast => Some(SystemCursor::NeResize),
        CursorIcon::ResizeColumn => Some(SystemCursor::ColResize),
        CursorIcon::ResizeRow => Some(SystemCursor::RowResize),
        CursorIcon::Text => Some(SystemCursor::Text),
        CursorIcon::VerticalText => Some(SystemCursor::VerticalText),
        CursorIcon::Wait => Some(SystemCursor::Wait),
        CursorIcon::ZoomIn => Some(SystemCursor::ZoomIn),
        CursorIcon::ZoomOut => Some(SystemCursor::ZoomOut),
    }
}

/// Translates egui's cursor icon to the system cursor that shows it.
pub fn translate_cursor(cursor_icon: CursorIcon) -> (r: Option<SystemCursor>)
    ensures
        r == system_cursor_of(cursor_icon),
{
    match cursor_icon {
        CursorIcon::Hidden => None,
        CursorIcon::Alias => Some(SystemCursor::Alias),
        CursorIcon::AllScroll => Some(SystemCursor::AllScroll),
        CursorIcon::Cell => Some(SystemCursor::Cell),
        CursorIcon::ContextMenu => Some(SystemCursor::ContextMenu),
        CursorIcon::Copy => Some(SystemCursor::Copy),
        CursorIcon::Crosshair => Some(SystemCursor::Crosshair),
        CursorIcon::Default => Some(SystemCursor::Default),
        CursorIcon::Grab => Some(SystemCursor::Grab),
        CursorIcon::Grabbing => Some(SystemCursor::Grabbing),
        CursorIcon::Help => Some(SystemCursor::Help),
        CursorIcon::Move => Some(SystemCursor::Move),
        CursorIcon::NoDrop => Some(SystemCursor::NoDrop),
        CursorIcon::NotAllowed => Some(SystemCursor::NotAllowed),
        CursorIcon::PointingHand => Some(SystemCursor::Hand),
        CursorIcon::Progress => Some(SystemCursor::Progress),
        CursorIcon::ResizeHorizontal => Some(SystemCursor::EwResize),
        CursorIcon::ResizeNeSw => Some(SystemCursor::NeswResize),
        CursorIcon::ResizeNwSe => Some(SystemCursor::NwseResize),
        CursorIcon::ResizeVertical => Some(SystemCursor::NsResize),
        CursorIcon::ResizeEast => Some(SystemCursor::EResize),
        CursorIcon::ResizeSouthEast => Some(SystemCursor::SeResize),
        CursorIcon::ResizeSouth => Some(SystemCursor::SResize),
        CursorIcon::ResizeSouthWest => Some(SystemCursor::SwResize),
        CursorIcon::ResizeWest => Some(SystemCursor::WResize),
        CursorIcon::ResizeNorthWest => Some(SystemCursor::NwResize),
        CursorIcon::ResizeNorth => Some(SystemCursor::NResize),
        CursorIcon::ResizeNorthEast => Some(SystemCursor::NeResize),
        CursorIcon::ResizeColumn => Some(SystemCursor::ColResize),
        CursorIcon::ResizeRow => Some(SystemCursor::RowResize),
        CursorIcon::Text => Some(SystemCursor::Text),
        CursorIcon::VerticalText => Some(SystemCursor::VerticalText),
        CursorIcon::Wait => Some(SystemCursor::Wait),
        CursorIcon::ZoomIn => Some(SystemCursor::ZoomIn),
        CursorIcon::ZoomOut => Some(SystemCursor::ZoomOut),
    }
}

} // verus!
