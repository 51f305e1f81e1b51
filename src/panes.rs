//! The two panes side by side: which one has the keys, and how a key, a
//! reply or a quiet spell reaches it.

use vstd::prelude::*;
use crate::pane::{
    apply_file, apply_rows, apply_status, idle, key_step, sent, Interaction, Key, PaneSession,
    PaneView,
};
use crate::protocol::{reports_failure, rows_in_json, Request, RequestModel};
use crate::server::FileReply;

verus! {

/// Both panes and which one is active: `0` the left, `1` the right.
pub struct DualPane {
    pub left: PaneSession,
    pub right: PaneSession,
    pub active: usize,
}

pub struct DualView {
    pub left: PaneView,
    pub right: PaneView,
    pub active: usize,
}

impl View for DualPane {
    type V = DualView;

    open spec fn view(&self) -> DualView {
        DualView { left: self.left@, right: self.right@, active: self.active }
    }
}

impl DualView {
    /// Exactly one side is active, and both panes are well formed.
    pub open spec fn wf(self) -> bool {
        self.active < 2 && self.left.wf() && self.right.wf()
    }

    pub open spec fn active_pane(self) -> PaneView {
        if self.active == 0 {
            self.left
        } else {
            self.right
        }
    }

    pub open spec fn inactive_pane(self) -> PaneView {
        if self.active == 0 {
            self.right
        } else {
            self.left
        }
    }

    /// `after` is `self` with the active pane replaced by `p`.
    pub open spec fn with_active(self, p: PaneView) -> DualView {
        if self.active == 0 {
            DualView { left: p, ..self }
        } else {
            DualView { right: p, ..self }
        }
    }
}

/// Whether `key` swaps the active side: `x` while the active pane browses
/// or views a file, with no request in flight.
pub open spec fn swaps_sides(v: DualView, key: Key) -> bool {
    let p = v.active_pane();
    key == Key::Char('x') && p.awaiting is None && (p.interaction == Interaction::Browsing
        || p.interaction == Interaction::ViewingFile)
}

impl DualPane {
    /// Two panes, the left one active.
    pub fn new(left: PaneSession, right: PaneSession) -> (r: DualPane)
        requires
            left@.wf(),
            right@.wf(),
        ensures
            r@.wf(),
            r@ == (DualView { left: left@, right: right@, active: 0 }),
    {
        DualPane { left, right, active: 0 }
    }

    /// Handles a key. A swap of sides changes nothing else and sends
    /// nothing; any other key goes to the active pane, whose move
    /// destination is the other pane's directory. The inactive pane is left
    /// as it was.
    pub fn handle_key(&mut self, key: Key, height: usize) -> (r: Option<Request>)
        requires
            old(self)@.wf(),
        ensures
            final(self)@.wf(),
            swaps_sides(old(self)@, key) ==> r is None && final(self)@ == (DualView {
                active: (1 - old(self).active) as usize,
                ..old(self)@
            }),
            !swaps_sides(old(self)@, key) ==> final(self)@ == old(self)@.with_active(
                final(self)@.active_pane(),
            ),
            !swaps_sides(old(self)@, key) ==> (final(self)@.active_pane(), sent(r)) == key_step(
                old(self)@.active_pane(),
                key,
                old(self)@.inactive_pane().path,
                height,
            ),
    {
        let p = if self.active == 0 {
            &self.left
        } else {
            &self.right
        };
        if key == Key::Char('x') && p.awaiting.is_none() && (p.interaction == Interaction::Browsing
            || p.interaction == Interaction::ViewingFile) {
            self.active = 1 - self.active;
            return None;
        }
        if self.active == 0 {
            self.left.handle_key(key, &self.right.path, height)
        } else {
            self.right.handle_key(key, &self.left.path, height)
        }
    }

    /// Hands the text of a listing reply to the active pane.
    pub fn receive_listing(&mut self, text: &str)
        requires
            old(self)@.wf(),
        ensures
            final(self)@.wf(),
            final(self)@ == old(self)@.with_active(
                apply_rows(old(self)@.active_pane(), rows_in_json(text@)),
            ),
    {
        if self.active == 0 {
            self.left.receive_listing(text);
        } else {
            self.right.receive_listing(text);
        }
    }

    /// Hands the text of a status reply to the active pane, and returns the
    /// request it sends next, if any.
    pub fn receive_status(&mut self, text: &str) -> (r: Option<Request>)
        requires
            old(self)@.wf(),
        ensures
            final(self)@.wf(),
            (final(self)@.active_pane(), sent(r)) == apply_status(
                old(self)@.active_pane(),
                !reports_failure(text@),
            ),
            final(self)@ == old(self)@.with_active(final(self)@.active_pane()),
    {
        if self.active == 0 {
            self.left.receive_status(text)
        } else {
            self.right.receive_status(text)
        }
    }

    /// Hands a file reply to the active pane.
    pub fn apply_file(&mut self, reply: Option<FileReply>)
        requires
            old(self)@.wf(),
        ensures
            final(self)@.wf(),
            final(self)@ == old(self)@.with_active(apply_file(old(self)@.active_pane(), reply)),
    {
        if self.active == 0 {
            self.left.apply_file(reply);
        } else {
            self.right.apply_file(reply);
        }
    }

    /// A quiet spell on the active pane.
    pub fn on_idle(&mut self) -> (r: Option<Request>)
        requires
            old(self)@.wf(),
        ensures
            final(self)@.wf(),
            (final(self)@.active_pane(), sent(r)) == idle(old(self)@.active_pane()),
            final(self)@ == old(self)@.with_active(final(self)@.active_pane()),
    {
        if self.active == 0 {
            self.left.on_idle()
        } else {
            self.right.on_idle()
        }
    }

    /// Whether the active pane asked to end the session.
    pub fn terminated(&self) -> (r: bool)
        requires
            self@.wf(),
        ensures
            r == self@.active_pane().terminate,
    {
        if self.active == 0 {
            self.left.terminate
        } else {
            self.right.terminate
        }
    }
}

} // verus!
