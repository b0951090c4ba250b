//! The dispatcher's decisions: its life cycle, its queue of commands, the signal that
//! reports how it ended, and the slot that carries a fault to one caller.
use vstd::prelude::*;

verus! {

/// Where the dispatcher is in its life.
#[derive(Clone, Copy, PartialEq, Eq, Structural, Debug)]
pub enum Phase {
    NotStarted,
    Running,
    /// The last window was destroyed.
    CleanFinished,
    /// A command or a message handler faulted.
    Faulted,
}

impl Phase {
    pub open spec fn is_terminal(self) -> bool {
        self == Phase::CleanFinished || self == Phase::Faulted
    }
}

/// The dispatcher's life cycle and its queue of commands. Commands are served in the
/// order in which they were posted, by every caller together; each post is paired with
/// one wake notification and each wake takes exactly one command.
pub struct Dispatcher<C> {
    phase: Phase,
    queue: Vec<C>,
}

impl<C> Dispatcher<C> {
    pub closed spec fn phase(&self) -> Phase {
        self.phase
    }

    /// The commands posted and not yet taken, oldest first.
    pub closed spec fn queue(&self) -> Seq<C> {
        self.queue@
    }

    pub fn new() -> (r: Dispatcher<C>)
        ensures
            r.phase() == Phase::NotStarted,
            r.queue() == Seq::<C>::empty(),
    {
        Dispatcher { phase: Phase::NotStarted, queue: Vec::new() }
    }

    pub fn current_phase(&self) -> (r: Phase)
        ensures
            r == self.phase(),
    {
        self.phase
    }

    /// Starts the dispatcher on first use. `true` when this call started it, and so the
    /// dispatcher thread is to be spawned now.
    pub fn ensure_started(&mut self) -> (r: bool)
        ensures
            r == (old(self).phase() == Phase::NotStarted),
            r ==> final(self).phase() == Phase::Running,
            !r ==> final(self).phase() == old(self).phase(),
            final(self).queue() == old(self).queue(),
    {
        if self.phase == Phase::NotStarted {
            self.phase = Phase::Running;
            true
        } else {
            false
        }
    }

    /// Queues command `c`, starting the dispatcher if it was not started. `true` when
    /// the command was queued, and so one wake notification is to be sent; `false` once
    /// the dispatcher has ended, when the command is dropped.
    pub fn post(&mut self, c: C) -> (r: bool)
        ensures
            r == !old(self).phase().is_terminal(),
            r ==> final(self).queue() == old(self).queue().push(c) && final(self).phase()
                == Phase::Running,
            !r ==> final(self).queue() == old(self).queue() && final(self).phase() == old(self).phase(),
    {
        if self.phase == Phase::CleanFinished || self.phase == Phase::Faulted {
            return false;
        }
        self.phase = Phase::Running;
        self.queue.push(c);
        true
    }

    /// A wake notification arrived: takes the oldest queued command, if any.
    pub fn on_wake(&mut self) -> (r: Option<C>)
        ensures
            final(self).phase() == old(self).phase(),
            old(self).phase() == Phase::Running && old(self).queue().len() > 0 ==> r == Some(
                old(self).queue()[0],
            ) && final(self).queue() == old(self).queue().drop_first(),
            !(old(self).phase() == Phase::Running && old(self).queue().len() > 0) ==> r is None
                && final(self).queue() == old(self).queue(),
    {
        if self.phase == Phase::Running && self.queue.len() > 0 {
            let c = self.queue.remove(0);
            Some(c)
        } else {
            None
        }
    }

    /// Ends one turn of the loop. A fault ends the dispatcher as faulted; otherwise, if
    /// this turn emptied the registry, it ends cleanly. Returns `Some(clean)` when the
    /// dispatcher ended in this turn. An ended dispatcher stays as it is.
    pub fn end_turn(&mut self, emptied: bool, faulted: bool) -> (r: Option<bool>)
        ensures
            final(self).queue() == old(self).queue(),
            old(self).phase() == Phase::Running && faulted ==> r == Some(false) && final(self).phase()
                == Phase::Faulted,
            old(self).phase() == Phase::Running && !faulted && emptied ==> r == Some(true) && final(self).phase() == Phase::CleanFinished,
            !(old(self).phase() == Phase::Running && (faulted || emptied)) ==> r is None && final(self).phase() == old(self).phase(),
    {
        if self.phase != Phase::Running {
            None
        } else if faulted {
            self.phase = Phase::Faulted;
            Some(false)
        } else if emptied {
            self.phase = Phase::CleanFinished;
            Some(true)
        } else {
            None
        }
    }
}

/// The state of a finish signal: how the dispatcher ended, once it has, and for each
/// waiter whether it has been told.
pub struct FinishModel {
    pub outcome: Option<bool>,
    pub told: Seq<bool>,
}

/// The dispatcher ended, cleanly (`true`) or faulted (`false`). Only the first ending
/// counts.
pub open spec fn finish_fire(m: FinishModel, clean: bool) -> FinishModel {
    if m.outcome is None {
        FinishModel { outcome: Some(clean), told: m.told }
    } else {
        m
    }
}

/// A new waiter, numbered after the earlier ones.
pub open spec fn finish_add(m: FinishModel) -> (FinishModel, nat) {
    (FinishModel { outcome: m.outcome, told: m.told.push(false) }, m.told.len())
}

/// Waiter `w` looks: it is told the outcome once, the first time it looks after the
/// dispatcher ended.
pub open spec fn finish_poll(m: FinishModel, w: nat) -> (FinishModel, Option<bool>) {
    if m.outcome is Some && w < m.told.len() && !m.told[w as int] {
        (FinishModel { outcome: m.outcome, told: m.told.update(w as int, true) }, m.outcome)
    } else {
        (m, None)
    }
}

/// Tells any number of waiters, once each, how the dispatcher ended.
pub struct FinishSignal {
    outcome: Option<bool>,
    told: Vec<bool>,
}

impl FinishSignal {
    pub closed spec fn view(&self) -> FinishModel {
        FinishModel { outcome: self.outcome, told: self.told@ }
    }

    pub fn new() -> (r: FinishSignal)
        ensures
            r.view().outcome is None,
            r.view().told == Seq::<bool>::empty(),
    {
        FinishSignal { outcome: None, told: Vec::new() }
    }

    /// Records how the dispatcher ended; only the first call counts.
    pub fn fire(&mut self, clean: bool)
        ensures
            final(self).view() == finish_fire(old(self).view(), clean),
    {
        if self.outcome.is_none() {
            self.outcome = Some(clean);
        }
    }

    /// A new waiter.
    pub fn add_waiter(&mut self) -> (w: usize)
        ensures
            (final(self).view(), w as nat) == finish_add(old(self).view()),
    {
        let w = self.told.len();
        self.told.push(false);
        w
    }

    /// Waiter `w` looks: `Some(clean)` the first time it looks after the end, else
    /// `None`.
    pub fn poll(&mut self, w: usize) -> (r: Option<bool>)
        ensures
            (final(self).view(), r) == finish_poll(old(self).view(), w as nat),
    {
        if self.outcome.is_some() && w < self.told.len() && !self.told[w] {
            self.told.set(w, true);
            self.outcome
        } else {
            None
        }
    }

    /// How the dispatcher ended, if it has.
    pub fn outcome(&self) -> (r: Option<bool>)
        ensures
            r == self.view().outcome,
    {
        self.outcome
    }
}

/// Once the dispatcher has ended, every waiter, added before or after the end, is told
/// the same outcome the first time it looks and nothing after that; a later ending
/// changes nothing.
pub proof fn law_finish_once(m: FinishModel, clean: bool, later: bool, w: nat)
    requires
        m.outcome is None,
        w < m.told.len(),
        !m.told[w as int],
    ensures
        ({
            let fired = finish_fire(m, clean);
            let (after_first, seen) = finish_poll(fired, w);
            &&& seen == Some(clean)
            &&& finish_poll(after_first, w).1 is None
            &&& finish_fire(fired, later) == fired
        }),
        ({
            let fired = finish_fire(m, clean);
            let (with_new, nw) = finish_add(fired);
            let (after_new, seen_new) = finish_poll(with_new, nw);
            &&& seen_new == Some(clean)
            &&& finish_poll(after_new, nw).1 is None
        }),
{
}

/// Holds the fault captured on the dispatcher thread until one caller takes it.
pub struct FaultSlot<F> {
    fault: Option<F>,
    taken: bool,
}

impl<F> FaultSlot<F> {
    /// The fault waiting to be taken, if any.
    pub closed spec fn held(&self) -> Option<F> {
        self.fault
    }

    /// Whether a fault was captured at some time.
    pub closed spec fn captured(&self) -> bool {
        self.fault is Some || self.taken
    }

    pub fn new() -> (r: FaultSlot<F>)
        ensures
            r.held() is None,
            !r.captured(),
    {
        FaultSlot { fault: None, taken: false }
    }

    /// Stores `f` when no fault was captured before; `false`, dropping `f`, otherwise.
    pub fn capture(&mut self, f: F) -> (r: bool)
        ensures
            r == !old(self).captured(),
            r ==> final(self).held() == Some(f),
            !r ==> final(self).held() == old(self).held(),
            final(self).captured(),
    {
        if self.fault.is_some() || self.taken {
            false
        } else {
            self.fault = Some(f);
            true
        }
    }

    /// Whether a fault was captured at some time.
    pub fn has_fault(&self) -> (r: bool)
        ensures
            r == self.captured(),
    {
        self.fault.is_some() || self.taken
    }

    /// Hands the fault to the caller; every later call gets `None`.
    pub fn take(&mut self) -> (r: Option<F>)
        ensures
            r == old(self).held(),
            final(self).held() is None,
            final(self).captured() == old(self).captured(),
    {
        match self.fault.take() {
            Some(f) => {
                self.taken = true;
                Some(f)
            },
            None => None,
        }
    }
}

} // verus!
