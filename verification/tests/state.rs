use egui_winit::context::ContextFlags;
use egui_winit::input::CursorIcon;
use egui_winit::input::Event;
use egui_winit::input::Key;
use egui_winit::input::Modifiers;
use egui_winit::input::PointerButton;
use egui_winit::input::TouchPhase;
use egui_winit::platform_output::CursorUpdate;
use egui_winit::platform_output::PlatformOutput;
use egui_winit::state::ClipboardCommand;
use egui_winit::window::ElementState;
use egui_winit::window::KeyEvent;
use egui_winit::window::LogicalKey;
use egui_winit::window::ModifiersState;
use egui_winit::window::MouseButton;
use egui_winit::window::SystemCursor;
use egui_winit::window::TargetOs;
use egui_winit::window::Touch;
use egui_winit::window::TouchPhase as WindowTouchPhase;
use egui_winit::window::WindowEvent;
use egui_winit::State;
use std::path::PathBuf;

fn idle() -> ContextFlags {
    ContextFlags { wants_pointer_input: false, is_using_pointer: false, wants_keyboard_input: false }
}

fn typing() -> ContextFlags {
    ContextFlags { wants_pointer_input: false, is_using_pointer: false, wants_keyboard_input: true }
}

fn pointing() -> ContextFlags {
    ContextFlags { wants_pointer_input: true, is_using_pointer: false, wants_keyboard_input: false }
}

fn dragging() -> ContextFlags {
    ContextFlags { wants_pointer_input: true, is_using_pointer: true, wants_keyboard_input: false }
}

fn key(logical_key: LogicalKey, pressed: bool, text: Option<&str>) -> WindowEvent {
    WindowEvent::KeyboardInput(KeyEvent {
        logical_key,
        state: if pressed { ElementState::Pressed } else { ElementState::Released },
        text: text.map(|t| t.to_string()),
    })
}

fn character(s: &str) -> LogicalKey {
    LogicalKey::Character(s.to_string())
}

fn touch(id: u64, phase: WindowTouchPhase, x: f32, y: f32) -> Touch {
    Touch { device_id: 7, id, phase, location: egui::pos2(x, y), force: None }
}

fn modifiers_changed(shift: bool, control: bool, alt: bool, super_key: bool) -> WindowEvent {
    WindowEvent::ModifiersChanged(ModifiersState { shift, control, alt, super_key })
}

#[test]
fn new_state_is_empty() {
    let state = State::new(TargetOs::Other);
    let input = state.egui_input();
    assert!(input.events.is_empty());
    assert_eq!(input.modifiers, Modifiers::new());
    assert_eq!(input.max_texture_side, None);
    assert!(input.hovered_files.is_empty());
    assert!(input.dropped_files.is_empty());
}

#[test]
fn max_texture_side_is_handed_over_once() {
    let mut state = State::new(TargetOs::Other);
    state.set_max_texture_side(4096);
    assert_eq!(state.egui_input().max_texture_side, Some(4096));
    let input = state.take_egui_input();
    assert_eq!(input.max_texture_side, Some(4096));
    assert_eq!(state.egui_input().max_texture_side, None);
}

#[test]
fn tab_is_always_consumed() {
    let mut state = State::new(TargetOs::Other);
    assert!(state.on_event_with(&key(LogicalKey::Tab, true, Some("\t")), idle(), None));
    assert!(state.on_event_with(&key(LogicalKey::Tab, false, None), idle(), None));
    let events = state.take_egui_input().events;
    assert_eq!(
        events,
        vec![
            Event::Key { key: Key::Tab, pressed: true, modifiers: Modifiers::new() },
            Event::Key { key: Key::Tab, pressed: false, modifiers: Modifiers::new() },
        ]
    );
}

#[test]
fn typed_text_reaches_egui() {
    let mut state = State::new(TargetOs::Other);
    let consumed = state.on_event_with(&key(character("a"), true, Some("a")), idle(), None);
    assert!(!consumed);
    assert_eq!(
        state.take_egui_input().events,
        vec![
            Event::Key { key: Key::A, pressed: true, modifiers: Modifiers::new() },
            Event::Text("a".to_string()),
        ]
    );
}

#[test]
fn text_field_gets_typed_text() {
    let mut state = State::new(TargetOs::Other);
    assert!(state.on_event_with(&key(character("a"), true, Some("a")), typing(), None));
    assert_eq!(
        state.take_egui_input().events,
        vec![
            Event::Key { key: Key::A, pressed: true, modifiers: Modifiers::new() },
            Event::Text("a".to_string()),
        ]
    );
}

#[test]
fn tab_text_is_not_typed() {
    let mut state = State::new(TargetOs::Other);
    assert!(state.on_event_with(&key(LogicalKey::Tab, true, Some("\t")), typing(), None));
    assert_eq!(
        state.take_egui_input().events,
        vec![Event::Key { key: Key::Tab, pressed: true, modifiers: Modifiers::new() }]
    );
}

#[test]
fn control_characters_are_not_text() {
    let mut state = State::new(TargetOs::Other);
    assert!(!state.on_event_with(&key(LogicalKey::Backspace, true, Some("\u{8}")), idle(), None));
    assert_eq!(
        state.take_egui_input().events,
        vec![Event::Key { key: Key::Backspace, pressed: true, modifiers: Modifiers::new() }]
    );
}

#[test]
fn mac_command_text_is_ignored() {
    let mut state = State::new(TargetOs::Mac);
    state.on_event_with(&modifiers_changed(false, false, false, true), idle(), None);
    assert!(!state.on_event_with(&key(character("w"), true, Some("w")), idle(), None));
    let events = state.take_egui_input().events;
    assert_eq!(events.len(), 1);
    assert!(matches!(events[0], Event::Key { key: Key::W, pressed: true, .. }));

    let mut other = State::new(TargetOs::Other);
    other.on_event_with(&modifiers_changed(false, false, false, true), idle(), None);
    other.on_event_with(&key(character("w"), true, Some("w")), idle(), None);
    assert_eq!(other.take_egui_input().events.len(), 2);
}

#[test]
fn ime_commit_is_text() {
    let mut state = State::new(TargetOs::Other);
    assert!(state.on_event_with(&WindowEvent::ImeCommit("日本".to_string()), idle(), None));
    assert_eq!(state.take_egui_input().events, vec![Event::Text("日本".to_string())]);
}

#[test]
fn modifiers_follow_the_platform() {
    let mut mac = State::new(TargetOs::Mac);
    mac.on_event_with(&modifiers_changed(true, false, true, true), idle(), None);
    assert_eq!(
        mac.egui_input().modifiers,
        Modifiers { alt: true, ctrl: false, shift: true, mac_cmd: true, command: true }
    );
    let mut linux = State::new(TargetOs::Other);
    linux.on_event_with(&modifiers_changed(false, true, false, true), idle(), None);
    assert_eq!(
        linux.egui_input().modifiers,
        Modifiers { alt: false, ctrl: true, shift: false, mac_cmd: false, command: true }
    );
}

#[test]
fn focus_change_releases_modifiers() {
    let mut state = State::new(TargetOs::Other);
    state.on_event_with(&modifiers_changed(true, true, true, false), idle(), None);
    assert!(!state.on_event_with(&WindowEvent::Focused(false), idle(), None));
    assert_eq!(state.egui_input().modifiers, Modifiers::new());
}

#[test]
fn copy_cut_and_paste_commands() {
    let mut state = State::new(TargetOs::Other);
    state.on_event_with(&modifiers_changed(false, true, false, false), idle(), None);
    state.on_event_with(&key(character("c"), true, Some("\u{3}")), idle(), None);
    state.on_event_with(&key(character("x"), true, Some("\u{18}")), idle(), None);
    let paste = key(character("v"), true, Some("\u{16}"));
    assert!(state.needs_clipboard(&paste));
    state.on_event_with(&paste, idle(), Some("clip".to_string()));
    let ctrl = Modifiers { alt: false, ctrl: true, shift: false, mac_cmd: false, command: true };
    assert_eq!(
        state.take_egui_input().events,
        vec![
            Event::Copy,
            Event::Key { key: Key::C, pressed: true, modifiers: ctrl },
            Event::Cut,
            Event::Key { key: Key::X, pressed: true, modifiers: ctrl },
            Event::Paste("clip".to_string()),
            Event::Key { key: Key::V, pressed: true, modifiers: ctrl },
        ]
    );
}

#[test]
fn releasing_a_command_key_is_no_command() {
    let mut state = State::new(TargetOs::Other);
    state.on_event_with(&modifiers_changed(false, true, false, false), idle(), None);
    let release = key(character("v"), false, None);
    assert!(!state.needs_clipboard(&release));
    let KeyEventOf(event) = KeyEventOf::of(&release);
    assert_eq!(state.keyboard_command(&event), None);
    let press = KeyEventOf::of(&key(character("v"), true, None)).0;
    assert_eq!(state.keyboard_command(&press), Some(ClipboardCommand::Paste));
}

struct KeyEventOf(KeyEvent);

impl KeyEventOf {
    fn of(event: &WindowEvent) -> KeyEventOf {
        match event {
            WindowEvent::KeyboardInput(k) => KeyEventOf(k.clone()),
            _ => unreachable!(),
        }
    }
}

#[test]
fn paste_through_the_context_normalises_newlines() {
    let ctx = egui::Context::default();
    let mut state = State::new(TargetOs::Other);
    state.on_event_with(&modifiers_changed(false, true, false, false), idle(), None);
    state.on_event(&ctx, &key(character("v"), true, None), Some("a\r\nb".to_string()));
    let events = state.take_egui_input().events;
    assert_eq!(events[0], Event::Paste("a\nb".to_string()));
}

#[test]
fn empty_clipboard_pastes_nothing() {
    let ctx = egui::Context::default();
    let mut state = State::new(TargetOs::Other);
    state.on_event_with(&modifiers_changed(false, true, false, false), idle(), None);
    state.on_event(&ctx, &key(character("v"), true, None), Some(String::new()));
    let events = state.take_egui_input().events;
    assert_eq!(events.len(), 1);
    assert!(matches!(events[0], Event::Key { key: Key::V, .. }));
}

#[test]
fn fresh_context_wants_nothing_but_tab() {
    let ctx = egui::Context::default();
    let mut state = State::new(TargetOs::Other);
    assert!(!state.on_event(&ctx, &WindowEvent::CursorMoved { position: egui::pos2(1.0, 2.0) }, None));
    assert!(state.on_event(&ctx, &key(LogicalKey::Tab, true, None), None));
    assert!(!state.on_event(&ctx, &key(character("q"), true, Some("q")), None));
}

#[test]
fn mouse_click_needs_a_pointer_position() {
    let mut state = State::new(TargetOs::Other);
    let press = WindowEvent::MouseInput { state: ElementState::Pressed, button: MouseButton::Left };
    assert!(state.on_event_with(&press, pointing(), None));
    assert!(state.egui_input().events.is_empty());
    let pos = egui::pos2(10.0, 20.0);
    assert!(!state.on_event_with(&WindowEvent::CursorMoved { position: pos }, pointing(), None));
    assert!(state.on_event_with(&WindowEvent::CursorMoved { position: pos }, dragging(), None));
    state.on_event_with(&press, idle(), None);
    state.on_event_with(
        &WindowEvent::MouseInput { state: ElementState::Released, button: MouseButton::Other(9) },
        idle(),
        None,
    );
    assert_eq!(
        state.take_egui_input().events,
        vec![
            Event::PointerMoved(pos),
            Event::PointerMoved(pos),
            Event::PointerButton {
                pos,
                button: PointerButton::Primary,
                pressed: true,
                modifiers: Modifiers::new(),
            },
        ]
    );
}

#[test]
fn cursor_leaving_makes_the_pointer_vanish() {
    let mut state = State::new(TargetOs::Other);
    state.on_event_with(&WindowEvent::CursorMoved { position: egui::pos2(1.0, 1.0) }, idle(), None);
    assert!(!state.on_event_with(&WindowEvent::CursorLeft, pointing(), None));
    state.on_event_with(
        &WindowEvent::MouseInput { state: ElementState::Pressed, button: MouseButton::Left },
        idle(),
        None,
    );
    assert_eq!(
        state.take_egui_input().events,
        vec![Event::PointerMoved(egui::pos2(1.0, 1.0)), Event::PointerGone]
    );
}

#[test]
fn wheel_scrolls_zooms_or_scrolls_sideways() {
    let delta = egui::vec2(-3.0, 50.0);
    let wheel = WindowEvent::MouseWheel { delta };
    let mut state = State::new(TargetOs::Other);
    assert!(!state.on_event_with(&wheel, idle(), None));
    state.on_event_with(&modifiers_changed(true, false, false, false), idle(), None);
    assert!(state.on_event_with(&wheel, pointing(), None));
    state.on_event_with(&modifiers_changed(true, true, false, false), idle(), None);
    state.on_event_with(&wheel, idle(), None);
    assert_eq!(
        state.take_egui_input().events,
        vec![Event::Scroll(delta), Event::HorizontalScroll(delta), Event::Zoom(delta)]
    );
}

#[test]
fn tap_is_a_click() {
    let mut state = State::new(TargetOs::Other);
    assert!(state.on_event_with(
        &WindowEvent::Touch(touch(5, WindowTouchPhase::Started, 3.0, 4.0)),
        pointing(),
        None
    ));
    assert!(!state.on_event_with(
        &WindowEvent::Touch(touch(5, WindowTouchPhase::Moved, 6.0, 8.0)),
        pointing(),
        None
    ));
    state.on_event_with(&WindowEvent::Touch(touch(5, WindowTouchPhase::Ended, 6.0, 8.0)), idle(), None);
    let start = egui::pos2(3.0, 4.0);
    let moved = egui::pos2(6.0, 8.0);
    assert_eq!(
        state.take_egui_input().events,
        vec![
            Event::Touch { device_id: 7, id: 5, phase: TouchPhase::Start, pos: start, force: None },
            Event::PointerMoved(start),
            Event::PointerButton {
                pos: start,
                button: PointerButton::Primary,
                pressed: true,
                modifiers: Modifiers::new(),
            },
            Event::Touch { device_id: 7, id: 5, phase: TouchPhase::Move, pos: moved, force: None },
            Event::PointerMoved(moved),
            Event::Touch { device_id: 7, id: 5, phase: TouchPhase::End, pos: moved, force: None },
            Event::PointerButton {
                pos: moved,
                button: PointerButton::Primary,
                pressed: false,
                modifiers: Modifiers::new(),
            },
            Event::PointerGone,
        ]
    );
}

#[test]
fn second_finger_does_not_move_the_pointer() {
    let mut state = State::new(TargetOs::Other);
    state.on_event_with(&WindowEvent::Touch(touch(1, WindowTouchPhase::Started, 1.0, 1.0)), idle(), None);
    state.take_egui_input();
    state.on_event_with(&WindowEvent::Touch(touch(2, WindowTouchPhase::Started, 9.0, 9.0)), idle(), None);
    state.on_event_with(&WindowEvent::Touch(touch(2, WindowTouchPhase::Ended, 9.0, 9.0)), idle(), None);
    assert_eq!(
        state.take_egui_input().events,
        vec![
            Event::Touch { device_id: 7, id: 2, phase: TouchPhase::Start, pos: egui::pos2(9.0, 9.0), force: None },
            Event::Touch { device_id: 7, id: 2, phase: TouchPhase::End, pos: egui::pos2(9.0, 9.0), force: None },
        ]
    );
}

#[test]
fn cancelled_touch_releases_the_pointer() {
    let mut state = State::new(TargetOs::Other);
    let force = Some(winit::event::Force::Normalized(0.5));
    let first = Touch { force, ..touch(1, WindowTouchPhase::Started, 1.0, 1.0) };
    state.on_event_with(&WindowEvent::Touch(first), idle(), None);
    state.on_event_with(&WindowEvent::Touch(touch(1, WindowTouchPhase::Cancelled, 1.0, 1.0)), idle(), None);
    let events = state.take_egui_input().events;
    assert_eq!(events[0], Event::Touch { device_id: 7, id: 1, phase: TouchPhase::Start, pos: egui::pos2(1.0, 1.0), force });
    assert_eq!(events[events.len() - 1], Event::PointerGone);
    // The next finger takes over the pointer.
    state.on_event_with(&WindowEvent::Touch(touch(3, WindowTouchPhase::Started, 2.0, 2.0)), idle(), None);
    assert_eq!(state.take_egui_input().events.len(), 3);
}

#[test]
fn hovered_and_dropped_files() {
    let mut state = State::new(TargetOs::Other);
    let a = PathBuf::from("/tmp/a.txt");
    let b = PathBuf::from("/tmp/b.txt");
    assert!(!state.on_event_with(&WindowEvent::HoveredFile(a.clone()), idle(), None));
    state.on_event_with(&WindowEvent::HoveredFile(b.clone()), idle(), None);
    assert_eq!(state.egui_input().hovered_files, vec![a.clone(), b.clone()]);
    let first = state.take_egui_input();
    assert_eq!(first.hovered_files, vec![a.clone(), b.clone()]);
    assert_eq!(state.egui_input().hovered_files, vec![a.clone(), b.clone()]);
    state.on_event_with(&WindowEvent::DroppedFile(a.clone()), idle(), None);
    assert!(state.egui_input().hovered_files.is_empty());
    let second = state.take_egui_input();
    assert_eq!(second.dropped_files, vec![a.clone()]);
    assert!(state.egui_input().dropped_files.is_empty());
    state.on_event_with(&WindowEvent::HoveredFile(b.clone()), idle(), None);
    state.on_event_with(&WindowEvent::HoveredFileCancelled, idle(), None);
    assert!(state.egui_input().hovered_files.is_empty());
}

#[test]
fn other_events_are_ignored() {
    let mut state = State::new(TargetOs::Other);
    assert!(!state.on_event_with(&WindowEvent::Other, typing(), None));
    assert!(state.egui_input().events.is_empty());
}

#[test]
fn take_clears_events_but_keeps_modifiers() {
    let mut state = State::new(TargetOs::Other);
    state.on_event_with(&modifiers_changed(true, false, false, false), idle(), None);
    state.on_event_with(&WindowEvent::ImeCommit("x".to_string()), idle(), None);
    let first = state.take_egui_input();
    assert_eq!(first.events.len(), 1);
    let second = state.take_egui_input();
    assert!(second.events.is_empty());
    assert!(second.modifiers.shift);
}

fn output(cursor_icon: CursorIcon, copied_text: &str) -> PlatformOutput {
    PlatformOutput {
        cursor_icon,
        open_url: None,
        copied_text: copied_text.to_string(),
        text_cursor_pos: None,
    }
}

#[test]
fn cursor_is_updated_only_on_change() {
    let ctx = egui::Context::default();
    let mut state = State::new(TargetOs::Other);
    let actions = state.handle_platform_output(&ctx, output(CursorIcon::Default, ""));
    assert_eq!(actions.cursor, CursorUpdate::Unchanged);
    let actions = state.handle_platform_output(&ctx, output(CursorIcon::Text, ""));
    assert_eq!(actions.cursor, CursorUpdate::Show { icon: SystemCursor::Text, set_icon: false });
    let actions = state.handle_platform_output(&ctx, output(CursorIcon::Text, ""));
    assert_eq!(actions.cursor, CursorUpdate::Unchanged);
    state.on_event_with(&WindowEvent::CursorMoved { position: egui::pos2(0.0, 0.0) }, idle(), None);
    let actions = state.handle_platform_output(&ctx, output(CursorIcon::PointingHand, ""));
    assert_eq!(actions.cursor, CursorUpdate::Show { icon: SystemCursor::Hand, set_icon: true });
    let actions = state.handle_platform_output(&ctx, output(CursorIcon::Hidden, ""));
    assert_eq!(actions.cursor, CursorUpdate::Hide);
}

#[test]
fn platform_output_is_passed_on() {
    let ctx = egui::Context::default();
    let mut state = State::new(TargetOs::Other);
    let actions = state.handle_platform_output(
        &ctx,
        PlatformOutput {
            cursor_icon: CursorIcon::Default,
            open_url: Some("https://example.org".to_string()),
            copied_text: "copied".to_string(),
            text_cursor_pos: Some(egui::pos2(5.0, 6.0)),
        },
    );
    assert!(!actions.speak);
    assert_eq!(actions.open_url, Some("https://example.org".to_string()));
    assert_eq!(actions.copied_text, Some("copied".to_string()));
    assert_eq!(actions.ime_position, Some(egui::pos2(5.0, 6.0)));
    let actions = state.handle_platform_output(&ctx, output(CursorIcon::Default, ""));
    assert_eq!(actions.copied_text, None);
    assert_eq!(actions.open_url, None);
}

#[test]
fn idle_egui_claims_only_tab_and_committed_text() {
    let mut state = State::new(TargetOs::Other);
    let events = vec![
        WindowEvent::CursorMoved { position: egui::pos2(1.0, 1.0) },
        WindowEvent::MouseInput { state: ElementState::Pressed, button: MouseButton::Left },
        WindowEvent::MouseWheel { delta: egui::vec2(0.0, 1.0) },
        WindowEvent::Touch(touch(4, WindowTouchPhase::Started, 1.0, 1.0)),
        WindowEvent::CursorLeft,
        key(character("a"), true, Some("a")),
        WindowEvent::Focused(true),
        WindowEvent::HoveredFileCancelled,
        modifiers_changed(false, false, false, false),
        WindowEvent::Other,
    ];
    for event in &events {
        assert!(!state.on_event_with(event, idle(), None));
    }
    assert!(state.on_event_with(&key(LogicalKey::Tab, true, None), idle(), None));
    assert!(state.on_event_with(&WindowEvent::ImeCommit("x".to_string()), idle(), None));
}

#[test]
fn events_keep_the_platform_conventions() {
    let mut state = State::new(TargetOs::Mac);
    state.on_event_with(&WindowEvent::Focused(false), idle(), None);
    state.on_event_with(&WindowEvent::Touch(touch(1, WindowTouchPhase::Started, 1.0, 1.0)), idle(), None);
    state.on_event_with(&key(character("a"), true, Some("a")), idle(), None);
    state.on_event_with(&modifiers_changed(false, true, false, false), idle(), None);
    // Control is not the command key on Mac.
    assert!(!state.egui_input().modifiers.command);
    let copy = KeyEventOf::of(&key(character("c"), true, None)).0;
    assert_eq!(state.keyboard_command(&copy), None);
}

#[test]
fn screen_reader_speaks_exactly_when_on() {
    let mut state = State::new(TargetOs::Other);
    let actions = state.handle_platform_output_with(true, output(CursorIcon::Default, ""));
    assert!(actions.speak);
    let actions = state.handle_platform_output_with(false, output(CursorIcon::Text, "t"));
    assert!(!actions.speak);
    assert_eq!(actions.cursor, CursorUpdate::Show { icon: SystemCursor::Text, set_icon: false });
    assert_eq!(actions.copied_text, Some("t".to_string()));
}
