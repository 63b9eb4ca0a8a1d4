use vstd::prelude::*;


verus! {

/// The two windows the shell knows by a fixed identifier.
#[derive(Clone, Copy, Debug, PartialEq, Eq, Structural)]
pub enum WindowKind {
    /// The application's main window, identified by `"main"`.
    Main,
    /// The break overlay, identified by `"break-window"`.
    Break,
}

/// What the shell tracks of a live window.
#[derive(Clone, Copy, Debug, PartialEq, Eq, Structural)]
pub struct WindowFlags {
    pub visible: bool,
    pub focused: bool,
    pub fullscreen: bool,
    pub always_on_top: bool,
    pub closable: bool,
}

/// One record of the window registry.
#[derive(Clone, Copy, Debug, PartialEq, Eq, Structural)]
pub struct WindowEntry {
    pub kind: WindowKind,
    pub flags: WindowFlags,
}

/// A property change the host toolkit performs on an existing window.
#[derive(Clone, Copy, Debug, PartialEq, Eq, Structural)]
pub enum WindowOp {
    Show,
    Hide,
    SetFocus,
    SetAlwaysOnTop(bool),
    SetFullscreen(bool),
}

/// Everything needed to construct a new window.
#[derive(Clone, Debug)]
pub struct WindowConfig {
    pub label: String,
    pub route: String,
    pub title: String,
    pub fullscreen: bool,
    pub always_on_top: bool,
    pub decorations: bool,
    pub skip_taskbar: bool,
    pub closable: bool,
}

/// The single error kind of the shell: a failed host-toolkit call, with the
/// description the platform gave.
#[derive(Clone, Debug, PartialEq, Eq)]
pub struct HostToolkitError {
    pub message: String,
}

impl HostToolkitError {
    pub fn new(message: String) -> (r: HostToolkitError)
        ensures
            r.message@ == message@,
    {
        HostToolkitError { message }
    }

    /// The description, for a caller that reports the failure.
    pub fn to_string(&self) -> (r: String)
        ensures
            r@ == self.message@,
    {
        self.message.clone()
    }
}

/// The effect of one operation on a window's flags.
pub open spec fn apply_op(f: WindowFlags, op: WindowOp) -> WindowFlags {
    match op {
        WindowOp::Show => WindowFlags { visible: true, ..f },
        WindowOp::Hide => WindowFlags { visible: false, ..f },
        WindowOp::SetFocus => WindowFlags { focused: true, ..f },
        WindowOp::SetAlwaysOnTop(b) => WindowFlags { always_on_top: b, ..f },
        WindowOp::SetFullscreen(b) => WindowFlags { fullscreen: b, ..f },
    }
}

/// The effect of a sequence of operations, performed first to last.
pub open spec fn apply_ops(f: WindowFlags, ops: Seq<WindowOp>) -> WindowFlags
    decreases ops.len(),
{
    if ops.len() == 0 {
        f
    } else {
        apply_op(apply_ops(f, ops.drop_last()), ops.last())
    }
}

/// Flags of a window that has been shown, focused, and put back on top and
/// fullscreen.
pub open spec fn reasserted(f: WindowFlags) -> WindowFlags {
    WindowFlags { visible: true, focused: true, always_on_top: true, fullscreen: true, ..f }
}

pub open spec fn has_kind(s: Seq<WindowEntry>, k: WindowKind) -> bool {
    exists|i: int| 0 <= i < s.len() && #[trigger] s[i].kind == k
}

/// Position of the window of kind `k`; meaningful when `has_kind(s, k)`.
pub open spec fn index_of(s: Seq<WindowEntry>, k: WindowKind) -> int {
    choose|i: int| 0 <= i < s.len() && #[trigger] s[i].kind == k
}

/// No identifier occurs twice in the registry.
pub open spec fn kinds_unique(s: Seq<WindowEntry>) -> bool {
    forall|i: int, j: int|
        0 <= i < s.len() && 0 <= j < s.len() && #[trigger] s[i].kind == #[trigger] s[j].kind
            ==> i == j
}

pub fn step(f: WindowFlags, op: WindowOp) -> (r: WindowFlags)
    ensures
        r == apply_op(f, op),
{
    match op {
        WindowOp::Show => WindowFlags { visible: true, ..f },
        WindowOp::Hide => WindowFlags { visible: false, ..f },
        WindowOp::SetFocus => WindowFlags { focused: true, ..f },
        WindowOp::SetAlwaysOnTop(b) => WindowFlags { always_on_top: b, ..f },
        WindowOp::SetFullscreen(b) => WindowFlags { fullscreen: b, ..f },
    }
}

pub fn step_all(f: WindowFlags, ops: &Vec<WindowOp>) -> (r: WindowFlags)
    ensures
        r == apply_ops(f, ops@),
{
    let mut cur = f;
    let mut i: usize = 0;
    while i < ops.len()
        invariant
            0 <= i <= ops@.len(),
            cur == apply_ops(f, ops@.take(i as int)),
        decreases ops@.len() - i,
    {
        assert(ops@.take(i as int + 1).drop_last() == ops@.take(i as int));
        cur = step(cur, ops[i]);
        i = i + 1;
    }
    assert(ops@.take(ops@.len() as int) == ops@);
    cur
}

/// The identifier the main window is registered under.
pub fn main_window_label() -> (r: String)
    ensures
        r@ == "main"@,
{
    String::from_str("main")
}

/// The construction parameters of the break overlay.
pub open spec fn is_break_config(c: WindowConfig) -> bool {
    &&& c.label@ == "break-window"@
    &&& c.route@ == "/break"@
    &&& c.title@ == "Rest Time"@
    &&& c.fullscreen
    &&& c.always_on_top
    &&& !c.decorations
    &&& c.skip_taskbar
    &&& !c.closable
}

/// How the break overlay is built: fullscreen, on top, without decorations,
/// hidden from the taskbar, not closable, showing the `/break` route.
pub fn break_window_config() -> (r: WindowConfig)
    ensures
        is_break_config(r),
{
    WindowConfig {
        label: String::from_str("break-window"),
        route: String::from_str("/break"),
        title: String::from_str("Rest Time"),
        fullscreen: true,
        always_on_top: true,
        decorations: false,
        skip_taskbar: true,
        closable: false,
    }
}

} // verus!
