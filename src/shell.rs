use vstd::prelude::*;

use crate::overlay::{
    after_close_request, after_hide, after_open, close_decision, lemma_index_of,
    lemma_open_asserts_flags, lemma_open_keeps_singleton, lemma_reuse_ops,
    plan_close_break_window, plan_open_break_window, CloseDecision, OverlayPlan,
};
use crate::tray::{
    after_show_main, menu_action, menu_command_of, parse_menu_id, route_menu_command,
    route_tray_event, tooltip_prefix, tray_action, tray_menu, tray_text, ShellAction, TrayEvent,
    TrayState,
};
use crate::window::{
    apply_ops, has_kind, index_of, kinds_unique, step_all, WindowEntry, WindowFlags, WindowKind, WindowOp,
};

verus! {

/// The process-wide state of the shell: the window registry, the tray icon and
/// whether the process was told to end. One value is built at startup and
/// handed to every operation.
pub struct Shell {
    windows: Vec<WindowEntry>,
    tray: Option<TrayState>,
    exit_code: Option<i32>,
}

impl Shell {
    pub closed spec fn windows_view(&self) -> Seq<WindowEntry> {
        self.windows@
    }

    pub closed spec fn tray_view(&self) -> Option<TrayState> {
        self.tray
    }

    pub closed spec fn exit_view(&self) -> Option<i32> {
        self.exit_code
    }

    /// No window identifier occurs twice.
    pub closed spec fn wf(&self) -> bool {
        kinds_unique(self.windows@)
    }

    /// A shell with no window, no tray icon, and running.
    pub fn new() -> (r: Shell)
        ensures
            r.wf(),
            r.windows_view().len() == 0,
            r.tray_view() is None,
            r.exit_view() is None,
    {
        Shell { windows: Vec::new(), tray: None, exit_code: None }
    }

    /// Position of the window of kind `kind`, if it exists.
    pub fn find(&self, kind: WindowKind) -> (r: Option<usize>)
        requires
            self.wf(),
        ensures
            r is Some <==> has_kind(self.windows_view(), kind),
            r is Some ==> r->Some_0 as int == index_of(self.windows_view(), kind),
    {
        let mut i: usize = 0;
        while i < self.windows.len()
            invariant
                0 <= i <= self.windows@.len(),
                kinds_unique(self.windows@),
                forall|j: int| 0 <= j < i ==> #[trigger] self.windows@[j].kind != kind,
            decreases self.windows@.len() - i,
        {
            if self.windows[i].kind == kind {
                proof {
                    lemma_index_of(self.windows@, kind, i as int);
                }
                return Some(i);
            }
            i = i + 1;
        }
        None
    }

    /// The flags of the window of kind `kind`, if it exists.
    pub fn window(&self, kind: WindowKind) -> (r: Option<WindowFlags>)
        requires
            self.wf(),
        ensures
            r is Some <==> has_kind(self.windows_view(), kind),
            r is Some ==> r->Some_0 == self.windows_view()[index_of(self.windows_view(), kind)].flags,
    {
        match self.find(kind) {
            Some(i) => Some(self.windows[i].flags),
            None => None,
        }
    }

    /// Records the main window that the front end created, unless one is
    /// already recorded.
    pub fn register_main_window(&mut self, flags: WindowFlags)
        requires
            old(self).wf(),
        ensures
            final(self).wf(),
            has_kind(old(self).windows_view(), WindowKind::Main)
                ==> final(self).windows_view() == old(self).windows_view(),
            !has_kind(old(self).windows_view(), WindowKind::Main) ==> final(self).windows_view()
                == old(self).windows_view().push(WindowEntry { kind: WindowKind::Main, flags }),
            final(self).tray_view() == old(self).tray_view(),
            final(self).exit_view() == old(self).exit_view(),
    {
        if self.find(WindowKind::Main).is_none() {
            let ghost s = self.windows@;
            let e = WindowEntry { kind: WindowKind::Main, flags };
            self.windows.push(e);
            proof {
                let p = self.windows@;
                assert(p == s.push(e));
                assert forall|a: int, b: int|
                    0 <= a < p.len() && 0 <= b < p.len() && #[trigger] p[a].kind == #[trigger] p[b].kind
                    implies a == b by {
                    if a < s.len() && b < s.len() {
                        assert(s[a].kind == s[b].kind);
                    } else if a < s.len() {
                        assert(s[a].kind == WindowKind::Main);
                    } else if b < s.len() {
                        assert(s[b].kind == WindowKind::Main);
                    }
                }
            }
        }
    }

    /// Brings the break overlay on screen: reuses it, shown, focused, on top
    /// and fullscreen, when it exists, or builds it. Returns what the host
    /// toolkit has to do for the same effect.
    pub fn open_break_window(&mut self) -> (r: OverlayPlan)
        requires
            old(self).wf(),
        ensures
            final(self).wf(),
            final(self).windows_view() == after_open(old(self).windows_view()),
            final(self).tray_view() == old(self).tray_view(),
            final(self).exit_view() == old(self).exit_view(),
            has_kind(old(self).windows_view(), WindowKind::Break) <==> r is Reconfigure,
            has_kind(old(self).windows_view(), WindowKind::Break) ==> final(self).windows_view().len()
                == old(self).windows_view().len(),
            !has_kind(old(self).windows_view(), WindowKind::Break) ==> final(self).windows_view().len()
                == old(self).windows_view().len() + 1,
            has_kind(final(self).windows_view(), WindowKind::Break),
            ({
                let w = final(self).windows_view();
                let f = w[index_of(w, WindowKind::Break)].flags;
                f.visible && f.focused && f.fullscreen && f.always_on_top
            }),
    {
        proof {
            lemma_open_keeps_singleton(self.windows@, WindowKind::Break);
            lemma_open_asserts_flags(self.windows@);
        }
        let found = self.find(WindowKind::Break);
        let plan = plan_open_break_window(found.is_some());
        match (&plan, found) {
            (OverlayPlan::Reconfigure(ops), Some(i)) => {
                let flags = step_all(self.windows[i].flags, ops);
                proof {
                    lemma_reuse_ops(self.windows@[i as int].flags);
                }
                self.windows.set(i, WindowEntry { kind: WindowKind::Break, flags });
            },
            _ => {
                let flags = WindowFlags {
                    visible: true,
                    focused: true,
                    fullscreen: true,
                    always_on_top: true,
                    closable: false,
                };
                self.windows.push(WindowEntry { kind: WindowKind::Break, flags });
            },
        }
        plan
    }

    /// Hides the break overlay if it exists; it is never destroyed. Returns
    /// what the host toolkit has to do for the same effect.
    pub fn close_break_window(&mut self) -> (r: Vec<WindowOp>)
        requires
            old(self).wf(),
        ensures
            final(self).wf(),
            final(self).windows_view() == after_hide(old(self).windows_view()),
            final(self).tray_view() == old(self).tray_view(),
            final(self).exit_view() == old(self).exit_view(),
            has_kind(old(self).windows_view(), WindowKind::Break) ==> r@ == seq![WindowOp::Hide],
            !has_kind(old(self).windows_view(), WindowKind::Break) ==> r@.len() == 0,
            has_kind(old(self).windows_view(), WindowKind::Break) ==> {
                let w = final(self).windows_view();
                &&& has_kind(w, WindowKind::Break)
                &&& !w[index_of(w, WindowKind::Break)].flags.visible
                &&& w.len() == old(self).windows_view().len()
            },
    {
        proof {
            lemma_open_keeps_singleton(self.windows@, WindowKind::Break);
        }
        let found = self.find(WindowKind::Break);
        let ops = plan_close_break_window(found.is_some());
        if let Some(i) = found {
            let flags = step_all(self.windows[i].flags, &ops);
            proof {
                assert(ops@.drop_last() =~= Seq::<WindowOp>::empty());
                reveal_with_fuel(apply_ops, 2);
            }
            self.windows.set(i, WindowEntry { kind: WindowKind::Break, flags });
            proof {
                lemma_index_of(self.windows@, WindowKind::Break, i as int);
            }
        }
        ops
    }

    /// A user asks to close the window of kind `kind`: the break overlay
    /// refuses; another window is closed and leaves the registry.
    pub fn request_close(&mut self, kind: WindowKind) -> (r: CloseDecision)
        requires
            old(self).wf(),
        ensures
            final(self).wf(),
            final(self).windows_view() == after_close_request(old(self).windows_view(), kind),
            final(self).tray_view() == old(self).tray_view(),
            final(self).exit_view() == old(self).exit_view(),
            r == (if kind == WindowKind::Break { CloseDecision::Prevent } else { CloseDecision::Allow }),
    {
        proof {
            lemma_open_keeps_singleton(self.windows@, kind);
        }
        let d = close_decision(kind);
        if d == CloseDecision::Allow {
            if let Some(i) = self.find(kind) {
                self.windows.remove(i);
            }
        }
        d
    }

    /// Builds the tray icon: its menu, no title or tooltip yet, and left click
    /// kept for the shell's own action.
    pub fn initialize_tray(&mut self)
        ensures
            final(self).windows_view() == old(self).windows_view(),
            final(self).exit_view() == old(self).exit_view(),
            final(self).tray_view() is Some,
            final(self).tray_view()->Some_0.menu@.len() == 2,
            final(self).tray_view()->Some_0.menu@[0].id@ == "show"@,
            final(self).tray_view()->Some_0.menu@[1].id@ == "quit"@,
            final(self).tray_view()->Some_0.title is None,
            final(self).tray_view()->Some_0.tooltip is None,
            !final(self).tray_view()->Some_0.show_menu_on_left_click,
    {
        self.tray = Some(TrayState {
            menu: tray_menu(),
            title: None,
            tooltip: None,
            show_menu_on_left_click: false,
        });
    }

    /// Sets the tray's title to `title` and its tooltip to `Pomodoro: `
    /// followed by `title`; before the tray exists this does nothing.
    pub fn update_tray_title(&mut self, title: &str)
        ensures
            final(self).windows_view() == old(self).windows_view(),
            final(self).exit_view() == old(self).exit_view(),
            old(self).tray_view() is None ==> final(self).tray_view() is None,
            old(self).tray_view() is Some ==> {
                let t = final(self).tray_view()->Some_0;
                let o = old(self).tray_view()->Some_0;
                &&& final(self).tray_view() is Some
                &&& t.title is Some
                &&& t.title->Some_0@ == title@
                &&& t.tooltip is Some
                &&& t.tooltip->Some_0@ == tooltip_prefix() + title@
                &&& t.menu@ == o.menu@
                &&& t.show_menu_on_left_click == o.show_menu_on_left_click
            },
    {
        if let Some(tray) = &mut self.tray {
            let text = tray_text(title);
            tray.title = Some(text.title);
            tray.tooltip = Some(text.tooltip);
        }
    }

    /// Shows and focuses the main window, if it exists.
    fn show_main(&mut self)
        requires
            old(self).wf(),
        ensures
            final(self).wf(),
            final(self).windows_view() == after_show_main(old(self).windows_view()),
            final(self).tray_view() == old(self).tray_view(),
            final(self).exit_view() == old(self).exit_view(),
    {
        if let Some(i) = self.find(WindowKind::Main) {
            let f = self.windows[i].flags;
            let e = WindowEntry { kind: WindowKind::Main, flags: WindowFlags { visible: true, focused: true, ..f } };
            let ghost s = self.windows@;
            self.windows.set(i, e);
            proof {
                let u = self.windows@;
                assert(u == s.update(i as int, e));
                assert forall|a: int, b: int|
                    0 <= a < u.len() && 0 <= b < u.len() && #[trigger] u[a].kind == #[trigger] u[b].kind
                    implies a == b by {
                    assert(s[a].kind == s[b].kind);
                }
            }
        }
    }

    fn perform(&mut self, action: ShellAction)
        requires
            old(self).wf(),
        ensures
            final(self).wf(),
            final(self).tray_view() == old(self).tray_view(),
            action == ShellAction::ShowMain ==> final(self).windows_view() == after_show_main(old(self).windows_view()),
            action != ShellAction::ShowMain ==> final(self).windows_view() == old(self).windows_view(),
            action is Exit ==> final(self).exit_view() == Some(action->Exit_0),
            !(action is Exit) ==> final(self).exit_view() == old(self).exit_view(),
    {
        match action {
            ShellAction::Exit(code) => {
                self.exit_code = Some(code);
            },
            ShellAction::ShowMain => {
                self.show_main();
            },
            ShellAction::Ignore => {},
        }
    }

    /// Answers a menu event by its identifier: `quit` ends the process, `show`
    /// shows and focuses the main window, anything else is ignored.
    pub fn handle_menu_event(&mut self, id: &str) -> (r: ShellAction)
        requires
            old(self).wf(),
        ensures
            final(self).wf(),
            r == menu_action(menu_command_of(id@), has_kind(old(self).windows_view(), WindowKind::Main)),
            final(self).tray_view() == old(self).tray_view(),
            r == ShellAction::ShowMain ==> final(self).windows_view() == after_show_main(old(self).windows_view()),
            r != ShellAction::ShowMain ==> final(self).windows_view() == old(self).windows_view(),
            r is Exit ==> final(self).exit_view() == Some(0i32),
            !(r is Exit) ==> final(self).exit_view() == old(self).exit_view(),
    {
        let main_exists = self.find(WindowKind::Main).is_some();
        let action = route_menu_command(parse_menu_id(id), main_exists);
        self.perform(action);
        action
    }

    /// Answers an event of the tray icon: a click acts as the `show` item.
    pub fn handle_tray_event(&mut self, ev: TrayEvent) -> (r: ShellAction)
        requires
            old(self).wf(),
        ensures
            final(self).wf(),
            r == tray_action(ev, has_kind(old(self).windows_view(), WindowKind::Main)),
            final(self).tray_view() == old(self).tray_view(),
            final(self).exit_view() == old(self).exit_view(),
            r == ShellAction::ShowMain ==> final(self).windows_view() == after_show_main(old(self).windows_view()),
            r != ShellAction::ShowMain ==> final(self).windows_view() == old(self).windows_view(),
    {
        let main_exists = self.find(WindowKind::Main).is_some();
        let action = route_tray_event(ev, main_exists);
        self.perform(action);
        action
    }

    /// How many windows the registry holds.
    pub fn window_count(&self) -> (r: usize)
        ensures
            r == self.windows_view().len(),
    {
        self.windows.len()
    }

    pub fn tray(&self) -> (r: &Option<TrayState>)
        ensures
            *r == self.tray_view(),
    {
        &self.tray
    }

    /// The exit code the process was told to end with, if any.
    pub fn exit_code(&self) -> (r: Option<i32>)
        ensures
            r == self.exit_view(),
    {
        self.exit_code
    }
}

} // verus!
