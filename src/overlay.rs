use vstd::prelude::*;

use crate::window::{
    apply_ops, break_window_config, has_kind, index_of, is_break_config, kinds_unique,
    reasserted, WindowConfig, WindowEntry, WindowFlags, WindowKind, WindowOp,
};

verus! {

/// What the host toolkit must do to bring the break overlay on screen.
#[derive(Clone, Debug)]
pub enum OverlayPlan {
    /// The overlay exists: perform these operations on it, in order.
    Reconfigure(Vec<WindowOp>),
    /// No overlay exists yet: build one from this configuration and make it
    /// refuse every user close request.
    Create(WindowConfig),
}

/// Whether a user's close request on a window is let through.
#[derive(Clone, Copy, Debug, PartialEq, Eq, Structural)]
pub enum CloseDecision {
    Allow,
    Prevent,
}

/// The operations that bring an existing overlay back: shown, focused, and
/// the on-top and fullscreen flags set again, since a hide cycle may have
/// reset them.
pub open spec fn reuse_ops() -> Seq<WindowOp> {
    seq![
        WindowOp::Show,
        WindowOp::SetFocus,
        WindowOp::SetAlwaysOnTop(true),
        WindowOp::SetFullscreen(true),
    ]
}

/// Flags of a freshly built overlay.
pub open spec fn created_flags() -> WindowFlags {
    WindowFlags {
        visible: true,
        focused: true,
        fullscreen: true,
        always_on_top: true,
        closable: false,
    }
}

/// The registry after the overlay is opened.
pub open spec fn after_open(s: Seq<WindowEntry>) -> Seq<WindowEntry> {
    if has_kind(s, WindowKind::Break) {
        let i = index_of(s, WindowKind::Break);
        s.update(i, WindowEntry { kind: WindowKind::Break, flags: reasserted(s[i].flags) })
    } else {
        s.push(WindowEntry { kind: WindowKind::Break, flags: created_flags() })
    }
}

/// The registry after the overlay is hidden: hidden, never destroyed.
pub open spec fn after_hide(s: Seq<WindowEntry>) -> Seq<WindowEntry> {
    if has_kind(s, WindowKind::Break) {
        let i = index_of(s, WindowKind::Break);
        s.update(i, WindowEntry { kind: WindowKind::Break, flags: WindowFlags { visible: false, ..s[i].flags } })
    } else {
        s
    }
}

/// The registry after the user asks to close the window of kind `k`.
pub open spec fn after_close_request(s: Seq<WindowEntry>, k: WindowKind) -> Seq<WindowEntry> {
    if k == WindowKind::Break || !has_kind(s, k) {
        s
    } else {
        s.remove(index_of(s, k))
    }
}

pub fn plan_open_break_window(found: bool) -> (r: OverlayPlan)
    ensures
        found ==> r is Reconfigure && r->Reconfigure_0@ == reuse_ops(),
        !found ==> r is Create && is_break_config(r->Create_0),
{
    if found {
        let ops = vec![
            WindowOp::Show,
            WindowOp::SetFocus,
            WindowOp::SetAlwaysOnTop(true),
            WindowOp::SetFullscreen(true),
        ];
        assert(ops@ == reuse_ops());
        OverlayPlan::Reconfigure(ops)
    } else {
        OverlayPlan::Create(break_window_config())
    }
}

pub fn plan_close_break_window(found: bool) -> (r: Vec<WindowOp>)
    ensures
        found ==> r@ == seq![WindowOp::Hide],
        !found ==> r@.len() == 0,
{
    if found {
        vec![WindowOp::Hide]
    } else {
        Vec::new()
    }
}

/// The break overlay refuses every user close request; other windows close.
pub fn close_decision(kind: WindowKind) -> (r: CloseDecision)
    ensures
        r == (if kind == WindowKind::Break { CloseDecision::Prevent } else { CloseDecision::Allow }),
{
    match kind {
        WindowKind::Break => CloseDecision::Prevent,
        WindowKind::Main => CloseDecision::Allow,
    }
}

pub proof fn lemma_reuse_ops(f: WindowFlags)
    ensures
        apply_ops(f, reuse_ops()) == reasserted(f),
{
    let ops = reuse_ops();
    assert(ops.drop_last() == ops.take(3));
    assert(ops.take(3).drop_last() == ops.take(2));
    assert(ops.take(2).drop_last() == ops.take(1));
    assert(ops.take(1).drop_last() == ops.take(0));
    assert(ops.take(0).len() == 0);
    reveal_with_fuel(apply_ops, 5);
}

/// In a registry without repeated identifiers, `index_of` finds the one
/// window of that kind.
pub proof fn lemma_index_of(s: Seq<WindowEntry>, k: WindowKind, i: int)
    requires
        kinds_unique(s),
        0 <= i < s.len(),
        s[i].kind == k,
    ensures
        has_kind(s, k),
        index_of(s, k) == i,
{
    assert(has_kind(s, k));
    let j = index_of(s, k);
    assert(s[j].kind == k);
}

proof fn lemma_update_keeps_kinds(s: Seq<WindowEntry>, i: int, e: WindowEntry)
    requires
        kinds_unique(s),
        0 <= i < s.len(),
        e.kind == s[i].kind,
    ensures
        kinds_unique(s.update(i, e)),
        forall|j: int| 0 <= j < s.len() ==> #[trigger] s.update(i, e)[j].kind == s[j].kind,
{
    let u = s.update(i, e);
    assert forall|j: int| 0 <= j < s.len() implies #[trigger] u[j].kind == s[j].kind by {}
    assert forall|a: int, b: int|
        0 <= a < u.len() && 0 <= b < u.len() && #[trigger] u[a].kind == #[trigger] u[b].kind
        implies a == b by {
        assert(s[a].kind == s[b].kind);
    }
}

proof fn lemma_push_keeps_unique(s: Seq<WindowEntry>, e: WindowEntry)
    requires
        kinds_unique(s),
        !has_kind(s, e.kind),
    ensures
        kinds_unique(s.push(e)),
        has_kind(s.push(e), e.kind),
{
    let p = s.push(e);
    assert(p[s.len() as int].kind == e.kind);
    assert forall|a: int, b: int|
        0 <= a < p.len() && 0 <= b < p.len() && #[trigger] p[a].kind == #[trigger] p[b].kind
        implies a == b by {
        if a < s.len() && b < s.len() {
            assert(s[a].kind == s[b].kind);
        } else if a < s.len() {
            assert(s[a].kind == e.kind);
        } else if b < s.len() {
            assert(s[b].kind == e.kind);
        }
    }
}

proof fn lemma_remove_keeps_unique(s: Seq<WindowEntry>, m: int)
    requires
        kinds_unique(s),
        0 <= m < s.len(),
    ensures
        kinds_unique(s.remove(m)),
        forall|j: int| 0 <= j < s.len() - 1 ==> #[trigger] s.remove(m)[j] == (if j < m { s[j] } else { s[j + 1] }),
{
    let c = s.remove(m);
    assert forall|j: int| 0 <= j < s.len() - 1 implies #[trigger] c[j] == (if j < m { s[j] } else { s[j + 1] }) by {}
    assert forall|a: int, b: int|
        0 <= a < c.len() && 0 <= b < c.len() && #[trigger] c[a].kind == #[trigger] c[b].kind
        implies a == b by {
        let a2 = if a < m { a } else { a + 1 };
        let b2 = if b < m { b } else { b + 1 };
        assert(s[a2].kind == s[b2].kind);
    }
}

/// At most one break overlay ever exists: opening, hiding and close requests
/// keep every identifier unique, and opening an overlay that exists reuses it
/// instead of adding a second window.
pub proof fn lemma_open_keeps_singleton(s: Seq<WindowEntry>, k: WindowKind)
    requires
        kinds_unique(s),
    ensures
        kinds_unique(after_open(s)),
        kinds_unique(after_hide(s)),
        kinds_unique(after_close_request(s, k)),
        has_kind(after_open(s), WindowKind::Break),
        after_open(after_open(s)).len() == after_open(s).len(),
{
    let o = after_open(s);
    if has_kind(s, WindowKind::Break) {
        let i = index_of(s, WindowKind::Break);
        lemma_update_keeps_kinds(s, i, o[i]);
        lemma_update_keeps_kinds(s, i, after_hide(s)[i]);
        assert(o[i].kind == WindowKind::Break);
    } else {
        lemma_push_keeps_unique(s, WindowEntry { kind: WindowKind::Break, flags: created_flags() });
    }
    assert(has_kind(o, WindowKind::Break));
    if k != WindowKind::Break && has_kind(s, k) {
        lemma_remove_keeps_unique(s, index_of(s, k));
    }
}

/// Hiding an overlay that is absent or already hidden changes nothing, and
/// hiding twice is hiding once.
pub proof fn lemma_hide_is_idempotent(s: Seq<WindowEntry>)
    requires
        kinds_unique(s),
    ensures
        !has_kind(s, WindowKind::Break) ==> after_hide(s) == s,
        has_kind(s, WindowKind::Break) && !s[index_of(s, WindowKind::Break)].flags.visible
            ==> after_hide(s) == s,
        after_hide(after_hide(s)) == after_hide(s),
{
    if has_kind(s, WindowKind::Break) {
        let i = index_of(s, WindowKind::Break);
        let h = after_hide(s);
        lemma_update_keeps_kinds(s, i, h[i]);
        lemma_index_of(h, WindowKind::Break, i);
        assert(after_hide(h) =~= h);
        if !s[i].flags.visible {
            assert(h =~= s);
        }
    }
}

/// Whether the overlay was built or reused, afterwards it is visible,
/// fullscreen and always on top.
pub proof fn lemma_open_asserts_flags(s: Seq<WindowEntry>)
    requires
        kinds_unique(s),
    ensures
        has_kind(after_open(s), WindowKind::Break),
        after_open(s)[index_of(after_open(s), WindowKind::Break)].flags.visible,
        after_open(s)[index_of(after_open(s), WindowKind::Break)].flags.fullscreen,
        after_open(s)[index_of(after_open(s), WindowKind::Break)].flags.always_on_top,
{
    lemma_open_keeps_singleton(s, WindowKind::Break);
    let o = after_open(s);
    if has_kind(s, WindowKind::Break) {
        lemma_index_of(o, WindowKind::Break, index_of(s, WindowKind::Break));
    } else {
        lemma_index_of(o, WindowKind::Break, s.len() as int);
    }
}

/// A user close request never removes the overlay or changes it; once it
/// exists, no operation takes it out of the registry, and only hiding makes
/// it invisible.
pub proof fn lemma_close_is_suppressed(s: Seq<WindowEntry>, k: WindowKind)
    requires
        kinds_unique(s),
        has_kind(s, WindowKind::Break),
    ensures
        after_close_request(s, WindowKind::Break) == s,
        has_kind(after_open(s), WindowKind::Break),
        has_kind(after_hide(s), WindowKind::Break),
        has_kind(after_close_request(s, k), WindowKind::Break),
        s[index_of(s, WindowKind::Break)].flags.visible && k != WindowKind::Break ==> {
            let c = after_close_request(s, k);
            c[index_of(c, WindowKind::Break)].flags.visible
        },
{
    let i = index_of(s, WindowKind::Break);
    let h = after_hide(s);
    assert(h[i].kind == WindowKind::Break);
    lemma_open_keeps_singleton(s, k);
    if k != WindowKind::Break && has_kind(s, k) {
        let c = after_close_request(s, k);
        let m = index_of(s, k);
        lemma_remove_keeps_unique(s, m);
        assert(m != i);
        let ni = if i < m { i } else { i - 1 };
        assert(c[ni] == s[i]);
        lemma_index_of(c, WindowKind::Break, ni);
    }
}

} // verus!
