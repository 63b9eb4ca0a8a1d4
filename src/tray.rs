use vstd::prelude::*;

use crate::text::{concat_str, str_equal};
use crate::overlay::lemma_index_of;
use crate::window::{has_kind, index_of, kinds_unique, WindowEntry, WindowFlags, WindowKind};

verus! {

/// One item of the tray's context menu.
#[derive(Clone, Debug)]
pub struct MenuEntry {
    pub id: String,
    pub label: String,
    pub enabled: bool,
}

/// The tray icon as the shell keeps it.
#[derive(Clone, Debug)]
pub struct TrayState {
    pub menu: Vec<MenuEntry>,
    pub title: Option<String>,
    pub tooltip: Option<String>,
    /// Left click runs the shell's own action instead of opening the menu.
    pub show_menu_on_left_click: bool,
}

/// The title and tooltip that one update sets together.
#[derive(Clone, Debug)]
pub struct TrayText {
    pub title: String,
    pub tooltip: String,
}

/// The closed set of menu events; any other identifier is `Unknown`.
#[derive(Clone, Copy, Debug, PartialEq, Eq, Structural)]
pub enum MenuCommand {
    Show,
    Quit,
    Unknown,
}

/// Events the tray icon itself reports.
#[derive(Clone, Copy, Debug, PartialEq, Eq, Structural)]
pub enum TrayEvent {
    /// A click on the icon.
    Click,
    /// Anything else (hover, enter, leave, ...).
    Other,
}

/// What the shell does in answer to a tray or menu event.
#[derive(Clone, Copy, Debug, PartialEq, Eq, Structural)]
pub enum ShellAction {
    /// End the process with this exit code.
    Exit(i32),
    /// Show the main window and give it focus.
    ShowMain,
    /// Nothing to do.
    Ignore,
}

pub open spec fn tooltip_prefix() -> Seq<char> {
    "Pomodoro: "@
}

pub open spec fn menu_command_of(id: Seq<char>) -> MenuCommand {
    if id == "show"@ {
        MenuCommand::Show
    } else if id == "quit"@ {
        MenuCommand::Quit
    } else {
        MenuCommand::Unknown
    }
}

/// The answer to a menu command, given whether a main window exists.
pub open spec fn menu_action(cmd: MenuCommand, main_exists: bool) -> ShellAction {
    match cmd {
        MenuCommand::Quit => ShellAction::Exit(0),
        MenuCommand::Show => if main_exists { ShellAction::ShowMain } else { ShellAction::Ignore },
        MenuCommand::Unknown => ShellAction::Ignore,
    }
}

/// The answer to an event of the tray icon: a click acts as the `show` item.
pub open spec fn tray_action(ev: TrayEvent, main_exists: bool) -> ShellAction {
    match ev {
        TrayEvent::Click => menu_action(MenuCommand::Show, main_exists),
        TrayEvent::Other => ShellAction::Ignore,
    }
}

/// The registry after the main window is shown and focused, if it exists.
pub open spec fn after_show_main(s: Seq<WindowEntry>) -> Seq<WindowEntry> {
    if has_kind(s, WindowKind::Main) {
        let i = index_of(s, WindowKind::Main);
        s.update(i, WindowEntry {
            kind: WindowKind::Main,
            flags: WindowFlags { visible: true, focused: true, ..s[i].flags },
        })
    } else {
        s
    }
}

/// The fixed identifier of the tray icon.
pub fn tray_id() -> (r: String)
    ensures
        r@ == "main"@,
{
    String::from_str("main")
}

/// The context menu: `Show App`, then `Quit`, both enabled.
pub fn tray_menu() -> (r: Vec<MenuEntry>)
    ensures
        r@.len() == 2,
        r@[0].id@ == "show"@,
        r@[0].label@ == "Show App"@,
        r@[0].enabled,
        r@[1].id@ == "quit"@,
        r@[1].label@ == "Quit"@,
        r@[1].enabled,
{
    let mut r: Vec<MenuEntry> = Vec::new();
    r.push(MenuEntry { id: String::from_str("show"), label: String::from_str("Show App"), enabled: true });
    r.push(MenuEntry { id: String::from_str("quit"), label: String::from_str("Quit"), enabled: true });
    r
}

/// The tooltip that goes with a title: the prefix `Pomodoro: ` and the title.
pub fn tooltip_for(title: &str) -> (r: String)
    ensures
        r@ == tooltip_prefix() + title@,
{
    concat_str("Pomodoro: ", title)
}

pub fn tray_text(title: &str) -> (r: TrayText)
    ensures
        r.title@ == title@,
        r.tooltip@ == tooltip_prefix() + title@,
{
    TrayText { title: String::from_str(title), tooltip: tooltip_for(title) }
}

pub fn parse_menu_id(id: &str) -> (r: MenuCommand)
    ensures
        r == menu_command_of(id@),
{
    if str_equal(id, "show") {
        MenuCommand::Show
    } else if str_equal(id, "quit") {
        MenuCommand::Quit
    } else {
        MenuCommand::Unknown
    }
}

pub fn route_menu_command(cmd: MenuCommand, main_exists: bool) -> (r: ShellAction)
    ensures
        r == menu_action(cmd, main_exists),
{
    match cmd {
        MenuCommand::Quit => ShellAction::Exit(0),
        MenuCommand::Show => if main_exists { ShellAction::ShowMain } else { ShellAction::Ignore },
        MenuCommand::Unknown => ShellAction::Ignore,
    }
}

pub fn route_tray_event(ev: TrayEvent, main_exists: bool) -> (r: ShellAction)
    ensures
        r == tray_action(ev, main_exists),
{
    match ev {
        TrayEvent::Click => route_menu_command(MenuCommand::Show, main_exists),
        TrayEvent::Other => ShellAction::Ignore,
    }
}

/// Menu routing: `quit` ends the process; `show` and a click on the icon
/// show and focus the main window when it exists, and leave everything as it
/// is when it does not; any other identifier is ignored.
pub proof fn lemma_menu_routing(id: Seq<char>, s: Seq<WindowEntry>)
    requires
        kinds_unique(s),
    ensures
        id == "quit"@ ==> menu_action(menu_command_of(id), has_kind(s, WindowKind::Main))
            == ShellAction::Exit(0),
        id == "show"@ ==> menu_action(menu_command_of(id), has_kind(s, WindowKind::Main))
            == tray_action(TrayEvent::Click, has_kind(s, WindowKind::Main)),
        id == "show"@ && has_kind(s, WindowKind::Main) ==> menu_action(
            menu_command_of(id),
            has_kind(s, WindowKind::Main),
        ) == ShellAction::ShowMain,
        id == "show"@ && !has_kind(s, WindowKind::Main) ==> menu_action(
            menu_command_of(id),
            has_kind(s, WindowKind::Main),
        ) == ShellAction::Ignore,
        id != "show"@ && id != "quit"@ ==> menu_action(
            menu_command_of(id),
            has_kind(s, WindowKind::Main),
        ) == ShellAction::Ignore,
        has_kind(s, WindowKind::Main) ==> {
            let t = after_show_main(s);
            &&& has_kind(t, WindowKind::Main)
            &&& t[index_of(t, WindowKind::Main)].flags.visible
            &&& t[index_of(t, WindowKind::Main)].flags.focused
            &&& t.len() == s.len()
        },
        !has_kind(s, WindowKind::Main) ==> after_show_main(s) == s,
{
    reveal_strlit("show");
    reveal_strlit("quit");
    assert("show"@ != "quit"@) by {
        assert("show"@[0] != "quit"@[0]);
    }
    if has_kind(s, WindowKind::Main) {
        let i = index_of(s, WindowKind::Main);
        let t = after_show_main(s);
        assert forall|a: int, b: int|
            0 <= a < t.len() && 0 <= b < t.len() && #[trigger] t[a].kind == #[trigger] t[b].kind
            implies a == b by {
            assert(s[a].kind == s[b].kind);
        }
        lemma_index_of(t, WindowKind::Main, i);
    }
}

} // verus!
