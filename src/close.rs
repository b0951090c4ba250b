//! The close handshake: a request to close a window either destroys it at once or is
//! handed to the window's close-request receiver, which confirms or drops it.
use vstd::prelude::*;

verus! {

/// The close-handshake state of one window.
#[derive(Clone, Copy, PartialEq, Eq, Structural, Debug)]
pub struct CloseState {
    /// A close-request receiver is registered for the window.
    pub has_receiver: bool,
    /// A request was handed to the receiver and is not decided yet.
    pub outstanding: bool,
}

/// What the dispatcher does after a step of the handshake.
#[derive(Clone, Copy, PartialEq, Eq, Structural, Debug)]
pub enum CloseAction {
    /// Destroy the window.
    Destroy,
    /// Hand a close request to the window's receiver.
    Deliver,
    /// Leave the window open.
    KeepOpen,
}

/// A close attempt: with no receiver, or with a request still undecided, the window is
/// destroyed at once; otherwise one request is handed to the receiver.
pub open spec fn on_close_attempt(s: CloseState) -> (CloseState, CloseAction) {
    if !s.has_receiver || s.outstanding {
        (s, CloseAction::Destroy)
    } else {
        (CloseState { has_receiver: true, outstanding: true }, CloseAction::Deliver)
    }
}

/// The receiver confirms the outstanding request: the window is destroyed.
pub open spec fn on_confirm(s: CloseState) -> (CloseState, CloseAction) {
    (CloseState { outstanding: false, ..s }, CloseAction::Destroy)
}

/// The receiver drops the outstanding request: the window stays open.
pub open spec fn on_discard(s: CloseState) -> (CloseState, CloseAction) {
    (CloseState { outstanding: false, ..s }, CloseAction::KeepOpen)
}

/// A receiver registers; only one may be registered at a time.
pub open spec fn on_register(s: CloseState) -> (CloseState, bool) {
    if s.has_receiver {
        (s, false)
    } else {
        (CloseState { has_receiver: true, outstanding: false }, true)
    }
}

/// The receiver went away; a request handed to it can no longer be decided.
pub open spec fn on_receiver_gone(s: CloseState) -> CloseState {
    CloseState { has_receiver: false, outstanding: false }
}

impl CloseState {
    /// A window's state when it is created: no receiver, nothing outstanding.
    pub open spec fn new_spec() -> CloseState {
        CloseState { has_receiver: false, outstanding: false }
    }

    /// A window's state when it is created: no receiver, nothing outstanding.
    pub fn new() -> (r: CloseState)
        ensures
            r == CloseState::new_spec(),
    {
        CloseState { has_receiver: false, outstanding: false }
    }

    /// Handles a close attempt.
    pub fn close_attempt(&mut self) -> (r: CloseAction)
        ensures
            (*final(self), r) == on_close_attempt(*old(self)),
    {
        if !self.has_receiver || self.outstanding {
            CloseAction::Destroy
        } else {
            self.outstanding = true;
            CloseAction::Deliver
        }
    }

    /// Handles the confirmation of the outstanding request.
    pub fn confirm(&mut self) -> (r: CloseAction)
        ensures
            (*final(self), r) == on_confirm(*old(self)),
    {
        self.outstanding = false;
        CloseAction::Destroy
    }

    /// Handles the dropping of the outstanding request.
    pub fn discard(&mut self) -> (r: CloseAction)
        ensures
            (*final(self), r) == on_discard(*old(self)),
    {
        self.outstanding = false;
        CloseAction::KeepOpen
    }

    /// Registers a receiver; `false` when one is registered already.
    pub fn register(&mut self) -> (r: bool)
        ensures
            (*final(self), r) == on_register(*old(self)),
    {
        if self.has_receiver {
            false
        } else {
            self.has_receiver = true;
            self.outstanding = false;
            true
        }
    }

    /// Forgets the receiver.
    pub fn receiver_gone(&mut self)
        ensures
            *final(self) == on_receiver_gone(*old(self)),
    {
        self.has_receiver = false;
        self.outstanding = false;
    }
}

/// With no receiver registered, a close attempt destroys the window.
pub proof fn law_close_without_receiver(s: CloseState)
    requires
        !s.has_receiver,
    ensures
        on_close_attempt(s).1 == CloseAction::Destroy,
{
}

/// With a receiver registered and nothing outstanding, a close attempt hands a request
/// to the receiver, and confirming it destroys the window.
pub proof fn law_close_confirmed(s: CloseState)
    requires
        s.has_receiver,
        !s.outstanding,
    ensures
        on_close_attempt(s).1 == CloseAction::Deliver,
        on_confirm(on_close_attempt(s).0).1 == CloseAction::Destroy,
{
}

/// With a receiver registered and nothing outstanding, a close attempt whose request is
/// dropped leaves the window open, and a later close attempt hands a new request to
/// the receiver.
pub proof fn law_close_ignored(s: CloseState)
    requires
        s.has_receiver,
        !s.outstanding,
    ensures
        on_close_attempt(s).1 == CloseAction::Deliver,
        on_discard(on_close_attempt(s).0).1 == CloseAction::KeepOpen,
        on_discard(on_close_attempt(s).0).0 == s,
        on_close_attempt(on_discard(on_close_attempt(s).0).0).1 == CloseAction::Deliver,
{
}

/// A close attempt never waits on the receiver: while a request is undecided, a further
/// attempt destroys the window, so no window stays open for good because of the
/// handshake.
pub proof fn law_close_never_stuck(s: CloseState)
    requires
        s.outstanding,
    ensures
        on_close_attempt(s).1 == CloseAction::Destroy,
{
}

} // verus!
