use break_shell::{
    break_window_config, close_decision, concat_str, parse_menu_id, plan_close_break_window,
    plan_open_break_window, route_menu_command, route_tray_event, str_equal, tooltip_for,
    tray_id, tray_menu, tray_text, CloseDecision, HostToolkitError, MenuCommand, OverlayPlan,
    Shell, ShellAction, TrayEvent, WindowFlags, WindowKind, WindowOp,
};

fn hidden_main() -> WindowFlags {
    WindowFlags {
        visible: false,
        focused: false,
        fullscreen: false,
        always_on_top: false,
        closable: true,
    }
}

#[test]
fn opening_twice_keeps_one_overlay() {
    let mut s = Shell::new();
    let first = s.open_break_window();
    assert!(matches!(first, OverlayPlan::Create(_)));
    assert_eq!(s.window_count(), 1);
    let second = s.open_break_window();
    assert!(matches!(second, OverlayPlan::Reconfigure(_)));
    assert_eq!(s.window_count(), 1);
    s.register_main_window(hidden_main());
    s.close_break_window();
    s.open_break_window();
    assert_eq!(s.window_count(), 2);
}

#[test]
fn hide_without_overlay_is_a_no_op() {
    let mut s = Shell::new();
    let ops = s.close_break_window();
    assert!(ops.is_empty());
    assert_eq!(s.window_count(), 0);
    assert_eq!(s.window(WindowKind::Break), None);
}

#[test]
fn hide_twice_equals_hide_once() {
    let mut s = Shell::new();
    s.open_break_window();
    let ops = s.close_break_window();
    assert_eq!(ops, vec![WindowOp::Hide]);
    let once = s.window(WindowKind::Break).unwrap();
    assert!(!once.visible);
    s.close_break_window();
    assert_eq!(s.window(WindowKind::Break), Some(once));
    assert_eq!(s.window_count(), 1);
}

#[test]
fn opening_asserts_fullscreen_and_on_top() {
    let mut s = Shell::new();
    s.open_break_window();
    let created = s.window(WindowKind::Break).unwrap();
    assert!(created.visible && created.fullscreen && created.always_on_top);
    assert!(!created.closable);
    s.close_break_window();
    s.open_break_window();
    let reused = s.window(WindowKind::Break).unwrap();
    assert!(reused.visible && reused.focused && reused.fullscreen && reused.always_on_top);
}

#[test]
fn reuse_plan_reasserts_flags() {
    match plan_open_break_window(true) {
        OverlayPlan::Reconfigure(ops) => assert_eq!(
            ops,
            vec![
                WindowOp::Show,
                WindowOp::SetFocus,
                WindowOp::SetAlwaysOnTop(true),
                WindowOp::SetFullscreen(true),
            ]
        ),
        OverlayPlan::Create(_) => panic!("an existing overlay is reused"),
    }
}

#[test]
fn create_plan_builds_locked_overlay() {
    match plan_open_break_window(false) {
        OverlayPlan::Create(c) => {
            assert_eq!(c.label, "break-window");
            assert_eq!(c.route, "/break");
            assert_eq!(c.title, "Rest Time");
            assert!(c.fullscreen && c.always_on_top && c.skip_taskbar);
            assert!(!c.decorations && !c.closable);
        }
        OverlayPlan::Reconfigure(_) => panic!("a missing overlay is built"),
    }
    let c = break_window_config();
    assert_eq!(c.label, "break-window");
}

#[test]
fn close_plan_hides_only_when_found() {
    assert_eq!(plan_close_break_window(true), vec![WindowOp::Hide]);
    assert!(plan_close_break_window(false).is_empty());
}

#[test]
fn user_close_is_suppressed_on_overlay() {
    let mut s = Shell::new();
    s.open_break_window();
    let before = s.window(WindowKind::Break);
    assert_eq!(s.request_close(WindowKind::Break), CloseDecision::Prevent);
    assert_eq!(s.window(WindowKind::Break), before);
    assert!(s.window(WindowKind::Break).unwrap().visible);
    s.close_break_window();
    assert!(!s.window(WindowKind::Break).unwrap().visible);
}

#[test]
fn user_close_removes_main_window() {
    let mut s = Shell::new();
    s.register_main_window(hidden_main());
    s.open_break_window();
    assert_eq!(s.request_close(WindowKind::Main), CloseDecision::Allow);
    assert_eq!(s.window(WindowKind::Main), None);
    assert!(s.window(WindowKind::Break).is_some());
    assert_eq!(close_decision(WindowKind::Break), CloseDecision::Prevent);
    assert_eq!(close_decision(WindowKind::Main), CloseDecision::Allow);
}

#[test]
fn tray_title_format() {
    let t = tray_text("25:00");
    assert_eq!(t.title, "25:00");
    assert_eq!(t.tooltip, "Pomodoro: 25:00");
    assert_eq!(tooltip_for(""), "Pomodoro: ");
    let mut s = Shell::new();
    s.initialize_tray();
    s.update_tray_title("25:00");
    let tray = s.tray().as_ref().unwrap();
    assert_eq!(tray.title.as_deref(), Some("25:00"));
    assert_eq!(tray.tooltip.as_deref(), Some("Pomodoro: 25:00"));
    s.update_tray_title("04:59");
    let tray = s.tray().as_ref().unwrap();
    assert_eq!(tray.title.as_deref(), Some("04:59"));
    assert_eq!(tray.tooltip.as_deref(), Some("Pomodoro: 04:59"));
}

#[test]
fn update_before_tray_exists_is_silent() {
    let mut s = Shell::new();
    s.update_tray_title("25:00");
    assert!(s.tray().is_none());
    assert_eq!(s.window_count(), 0);
    assert_eq!(s.exit_code(), None);
}

#[test]
fn tray_is_built_with_menu() {
    let mut s = Shell::new();
    s.initialize_tray();
    let tray = s.tray().as_ref().unwrap();
    assert_eq!(tray.menu.len(), 2);
    assert_eq!(tray.menu[0].id, "show");
    assert_eq!(tray.menu[1].id, "quit");
    assert!(tray.title.is_none() && tray.tooltip.is_none());
    assert!(!tray.show_menu_on_left_click);
    let m = tray_menu();
    assert_eq!(m[0].label, "Show App");
    assert_eq!(m[1].label, "Quit");
    assert!(m[0].enabled && m[1].enabled);
    assert_eq!(tray_id(), "main");
}

#[test]
fn quit_menu_event_exits() {
    let mut s = Shell::new();
    assert_eq!(s.handle_menu_event("quit"), ShellAction::Exit(0));
    assert_eq!(s.exit_code(), Some(0));
}

#[test]
fn show_menu_event_shows_main() {
    let mut s = Shell::new();
    s.register_main_window(hidden_main());
    assert_eq!(s.handle_menu_event("show"), ShellAction::ShowMain);
    let m = s.window(WindowKind::Main).unwrap();
    assert!(m.visible && m.focused);
    assert_eq!(s.exit_code(), None);
}

#[test]
fn tray_click_shows_main() {
    let mut s = Shell::new();
    s.register_main_window(hidden_main());
    assert_eq!(s.handle_tray_event(TrayEvent::Other), ShellAction::Ignore);
    assert!(!s.window(WindowKind::Main).unwrap().visible);
    assert_eq!(s.handle_tray_event(TrayEvent::Click), ShellAction::ShowMain);
    let m = s.window(WindowKind::Main).unwrap();
    assert!(m.visible && m.focused);
}

#[test]
fn show_without_main_is_a_no_op() {
    let mut s = Shell::new();
    s.open_break_window();
    let before = s.window(WindowKind::Break);
    assert_eq!(s.handle_menu_event("show"), ShellAction::Ignore);
    assert_eq!(s.handle_tray_event(TrayEvent::Click), ShellAction::Ignore);
    assert_eq!(s.window(WindowKind::Break), before);
    assert_eq!(s.window_count(), 1);
}

#[test]
fn unknown_menu_id_is_ignored() {
    let mut s = Shell::new();
    s.register_main_window(hidden_main());
    assert_eq!(s.handle_menu_event("settings"), ShellAction::Ignore);
    assert_eq!(s.handle_menu_event("Quit"), ShellAction::Ignore);
    assert_eq!(s.exit_code(), None);
    assert!(!s.window(WindowKind::Main).unwrap().visible);
}

#[test]
fn menu_routing_table() {
    assert_eq!(parse_menu_id("show"), MenuCommand::Show);
    assert_eq!(parse_menu_id("quit"), MenuCommand::Quit);
    assert_eq!(parse_menu_id("quit "), MenuCommand::Unknown);
    assert_eq!(parse_menu_id(""), MenuCommand::Unknown);
    assert_eq!(route_menu_command(MenuCommand::Quit, false), ShellAction::Exit(0));
    assert_eq!(route_menu_command(MenuCommand::Show, true), ShellAction::ShowMain);
    assert_eq!(route_menu_command(MenuCommand::Show, false), ShellAction::Ignore);
    assert_eq!(route_menu_command(MenuCommand::Unknown, true), ShellAction::Ignore);
    assert_eq!(route_tray_event(TrayEvent::Click, true), ShellAction::ShowMain);
    assert_eq!(route_tray_event(TrayEvent::Other, true), ShellAction::Ignore);
}

#[test]
fn main_window_registered_once() {
    let mut s = Shell::new();
    s.register_main_window(hidden_main());
    let mut other = hidden_main();
    other.visible = true;
    s.register_main_window(other);
    assert_eq!(s.window_count(), 1);
    assert_eq!(s.window(WindowKind::Main), Some(hidden_main()));
}

#[test]
fn string_helpers() {
    assert!(str_equal("break", "break"));
    assert!(!str_equal("break", "brake"));
    assert!(!str_equal("ab", "abc"));
    assert!(str_equal("", ""));
    assert_eq!(concat_str("ab", "cd"), "abcd");
}

#[test]
fn host_error_keeps_message() {
    let e = HostToolkitError::new("no display".to_string());
    assert_eq!(e.to_string(), "no display");
    assert_eq!(e.message, "no display");
}
