use bevy_math::Vec2;
use bevy_window::{
    Real32, Real64, Window, WindowCommand, WindowDescriptor, WindowId, WindowMode,
    DEFAULT_HEIGHT_BITS, DEFAULT_WIDTH_BITS,
};

fn r32(x: f32) -> Real32 {
    Real32 { bits: x.to_bits() }
}

fn r64(x: f64) -> Real64 {
    Real64 { bits: x.to_bits() }
}

fn window_at(width: u32, height: u32, scale: f64) -> Window {
    Window::new(WindowId::primary(), &WindowDescriptor::default(), width, height, r64(scale))
}

#[test]
fn primary_id_is_primary() {
    assert!(WindowId::primary().is_primary());
    assert!(WindowId::default().is_primary());
    assert_eq!(WindowId::primary(), WindowId::default());
}

#[test]
fn generated_id_is_not_primary() {
    let a = WindowId::new();
    let b = WindowId::new();
    assert!(!a.is_primary());
    assert!(!b.is_primary());
    assert_ne!(a, b);
    assert_ne!(a, WindowId::primary());
}

#[test]
fn primary_id_text_is_all_zero_digits() {
    assert_eq!(WindowId::primary().to_simple_string(), "0".repeat(32));
}

#[test]
fn generated_id_text_is_version_four_hex() {
    let text = WindowId::new().to_simple_string();
    assert_eq!(text.len(), 32);
    assert!(text.chars().all(|c| c.is_ascii_digit() || ('a'..='f').contains(&c)));
    assert_eq!(text.chars().nth(12), Some('4'));
}

#[test]
fn descriptor_defaults() {
    let d = WindowDescriptor::default();
    assert_eq!(d.width, r32(1280.0));
    assert_eq!(d.height, r32(720.0));
    assert_eq!(d.width.bits, DEFAULT_WIDTH_BITS);
    assert_eq!(d.height.bits, DEFAULT_HEIGHT_BITS);
    assert_eq!(d.title, "bevy");
    assert!(d.vsync && d.resizable && d.decorations && d.cursor_visible);
    assert!(!d.cursor_locked);
    assert_eq!(d.mode, WindowMode::Windowed);
}

#[test]
fn new_window_copies_descriptor_and_backend_values() {
    let d = WindowDescriptor {
        width: r32(1280.0),
        height: r32(720.0),
        title: "bevy".to_string(),
        vsync: true,
        resizable: false,
        decorations: false,
        cursor_visible: false,
        cursor_locked: true,
        mode: WindowMode::Windowed,
    };
    let id = WindowId::new();
    let mut w = Window::new(id, &d, 1280, 720, r64(1.0));
    assert_eq!(w.id(), id);
    assert_eq!(w.requested_width(), r32(1280.0));
    assert_eq!(w.requested_height(), r32(720.0));
    assert_eq!(w.physical_width(), 1280);
    assert_eq!(w.physical_height(), 720);
    assert_eq!(f64::from_bits(w.scale_factor().bits), 1.0);
    assert_eq!(w.physical_width() as f64 / f64::from_bits(w.scale_factor().bits), 1280.0);
    assert_eq!(w.physical_height() as f64 / f64::from_bits(w.scale_factor().bits), 720.0);
    assert_eq!(w.title(), "bevy");
    assert!(w.vsync());
    assert!(!w.resizable());
    assert!(!w.decorations());
    assert!(!w.cursor_visible());
    assert!(w.cursor_locked());
    assert_eq!(w.cursor_position(), None);
    assert_eq!(w.mode(), WindowMode::Windowed);
    assert!(w.drain_commands().is_empty());
}

#[test]
fn title_then_vsync_drain_in_order() {
    let mut w = window_at(1280, 720, 1.0);
    w.set_title("Game".to_string());
    w.set_vsync(false);
    let cmds = w.drain_commands();
    assert_eq!(cmds.len(), 2);
    assert!(matches!(&cmds[0], WindowCommand::SetTitle { title } if title == "Game"));
    assert!(matches!(cmds[1], WindowCommand::SetVsync { vsync: false }));
    assert_eq!(w.title(), "Game");
    assert!(!w.vsync());
}

#[test]
fn second_drain_is_empty() {
    let mut w = window_at(800, 600, 2.0);
    w.set_resizable(false);
    w.set_maximized(true);
    assert_eq!(w.drain_commands().len(), 2);
    assert!(w.drain_commands().is_empty());
    w.set_decorations(false);
    assert_eq!(w.drain_commands().len(), 1);
}

#[test]
fn set_mode_carries_physical_size() {
    let mut w = window_at(1920, 1080, 1.5);
    w.set_mode(WindowMode::Fullscreen { use_size: true });
    assert_eq!(w.mode(), WindowMode::Fullscreen { use_size: true });
    let cmds = w.drain_commands();
    assert_eq!(cmds.len(), 1);
    assert!(matches!(
        cmds[0],
        WindowCommand::SetWindowMode {
            mode: WindowMode::Fullscreen { use_size: true },
            resolution: (1920, 1080)
        }
    ));
}

#[test]
fn set_mode_uses_physical_not_requested_size() {
    let mut w = window_at(2560, 1440, 2.0);
    w.set_resolution(r32(100.0), r32(50.0));
    w.set_mode(WindowMode::BorderlessFullscreen);
    let cmds = w.drain_commands();
    assert!(matches!(cmds[0], WindowCommand::SetResolution { resolution } if resolution == (r32(100.0), r32(50.0))));
    assert!(matches!(
        cmds[1],
        WindowCommand::SetWindowMode { mode: WindowMode::BorderlessFullscreen, resolution: (2560, 1440) }
    ));
    assert_eq!(w.requested_width(), r32(100.0));
    assert_eq!(w.requested_height(), r32(50.0));
    assert_eq!(w.physical_width(), 2560);
}

#[test]
fn set_cursor_position_waits_for_backend() {
    let mut w = window_at(640, 480, 1.0);
    let p = Vec2::new(10.0, 20.0);
    w.set_cursor_position(p);
    assert_eq!(w.cursor_position(), None);
    let cmds = w.drain_commands();
    assert!(matches!(cmds[0], WindowCommand::SetCursorPosition { position } if position == p));
    w.update_cursor_position_from_backend(Some(Vec2::new(9.0, 19.0)));
    assert_eq!(w.cursor_position(), Some(Vec2::new(9.0, 19.0)));
    assert!(w.drain_commands().is_empty());
}

#[test]
fn every_mutator_queues_one_command_in_call_order() {
    let mut w = window_at(640, 480, 1.0);
    w.set_resolution(r32(320.0), r32(240.0));
    w.set_title("a".to_string());
    w.set_vsync(false);
    w.set_resizable(false);
    w.set_decorations(false);
    w.set_cursor_lock_mode(true);
    w.set_cursor_visibility(false);
    w.set_cursor_position(Vec2::new(1.0, 2.0));
    w.set_mode(WindowMode::Fullscreen { use_size: false });
    w.set_maximized(true);
    let cmds = w.drain_commands();
    assert_eq!(cmds.len(), 10);
    assert!(matches!(cmds[0], WindowCommand::SetResolution { resolution } if resolution == (r32(320.0), r32(240.0))));
    assert!(matches!(&cmds[1], WindowCommand::SetTitle { title } if title == "a"));
    assert!(matches!(cmds[2], WindowCommand::SetVsync { vsync: false }));
    assert!(matches!(cmds[3], WindowCommand::SetResizable { resizable: false }));
    assert!(matches!(cmds[4], WindowCommand::SetDecorations { decorations: false }));
    assert!(matches!(cmds[5], WindowCommand::SetCursorLockMode { locked: true }));
    assert!(matches!(cmds[6], WindowCommand::SetCursorVisibility { visible: false }));
    assert!(matches!(cmds[7], WindowCommand::SetCursorPosition { position } if position == Vec2::new(1.0, 2.0)));
    assert!(matches!(
        cmds[8],
        WindowCommand::SetWindowMode { mode: WindowMode::Fullscreen { use_size: false }, resolution: (640, 480) }
    ));
    assert!(matches!(cmds[9], WindowCommand::SetMaximized { maximized: true }));
    assert!(!w.resizable() && !w.decorations() && w.cursor_locked() && !w.cursor_visible());
}

#[test]
fn backend_reports_queue_nothing() {
    let mut w = window_at(640, 480, 1.0);
    w.update_actual_size_from_backend(1280, 960);
    w.update_scale_factor_from_backend(r64(2.0));
    assert_eq!(w.physical_width(), 1280);
    assert_eq!(w.physical_height(), 960);
    assert_eq!(w.scale_factor(), r64(2.0));
    assert_eq!(w.physical_width() as f64 / f64::from_bits(w.scale_factor().bits), 640.0);
    assert!(w.drain_commands().is_empty());
    w.set_mode(WindowMode::Windowed);
    assert!(matches!(
        w.drain_commands()[0],
        WindowCommand::SetWindowMode { mode: WindowMode::Windowed, resolution: (1280, 960) }
    ));
}
