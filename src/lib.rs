//! Decision logic of a break-timer desktop shell: a singleton fullscreen break
//! overlay, a main window and a tray icon, modelled as plain values so that the
//! host toolkit only carries out what this library decides.

mod overlay;
mod shell;
mod text;
mod tray;
mod window;

pub use overlay::{
    after_close_request, after_hide, after_open, close_decision, created_flags,
    lemma_close_is_suppressed, lemma_hide_is_idempotent, lemma_index_of,
    lemma_open_asserts_flags, lemma_open_keeps_singleton, lemma_reuse_ops,
    plan_close_break_window, plan_open_break_window, reuse_ops, CloseDecision, OverlayPlan,
};
pub use shell::Shell;
pub use text::{concat_str, str_equal};
pub use tray::{
    after_show_main, lemma_menu_routing, menu_action, menu_command_of, parse_menu_id,
    route_menu_command, route_tray_event, tooltip_for, tooltip_prefix, tray_action, tray_id,
    tray_menu, tray_text, MenuCommand, MenuEntry, ShellAction, TrayEvent, TrayState, TrayText,
};
pub use window::{
    apply_op, apply_ops, break_window_config, has_kind, index_of, is_break_config,
    kinds_unique, main_window_label, reasserted, step, step_all, HostToolkitError,
    WindowConfig, WindowEntry, WindowFlags, WindowKind, WindowOp,
};
