//! The state that the dispatcher keeps for each window.
use vstd::prelude::*;

use crate::channel::{closed_from, received, sent, subscribed, Channel};
use crate::close::CloseState;
use crate::error::Error;
use crate::event::{Event, EventKind, EVENT_KIND_COUNT};
use crate::geometry::{PhysicalPoint, Point, Physical};
use crate::resource::Cursor;

verus! {

/// The identifier that the windowing system gave a window. It is a key only: it owns
/// nothing and may be copied to any thread.
#[derive(Clone, Copy, PartialEq, Eq, Structural, Hash, Debug)]
pub struct WindowHandle(pub isize);

/// A subscription to one kind of events of one window. `id` is `None` when the window
/// was already gone when the subscription was made; such a receiver only ever reads
/// `Error::Closed`.
#[derive(Clone, Copy, PartialEq, Eq, Structural, Debug)]
pub struct Receiver {
    pub window: WindowHandle,
    pub kind: EventKind,
    pub id: Option<usize>,
}

/// What a window starts with, as its builder requested.
#[derive(Clone, Copy, Debug)]
pub struct WindowConfig {
    pub cursor: Option<Cursor>,
    pub enable_ime: bool,
    pub ime_composition_window_visibility: bool,
    pub ime_candidate_window_visibility: bool,
}

/// One window's channels, one per kind of event, its close handshake, and the small
/// pieces of interaction state that the dispatcher keeps for it.
pub struct WindowState {
    pub cursor: Option<Cursor>,
    pub ime_enabled: bool,
    pub ime_composition_window_visibility: bool,
    pub ime_candidate_window_visibility: bool,
    pub ime_position: PhysicalPoint<i32>,
    pub close: CloseState,
    pub channels: Vec<Channel<Event>>,
}

impl WindowState {
    /// One well-formed channel per kind, each with the kind's capacity.
    pub open spec fn wf(&self) -> bool {
        &&& self.channels@.len() == EVENT_KIND_COUNT
        &&& forall|i: int|
            0 <= i < EVENT_KIND_COUNT ==> (#[trigger] self.channels@[i]).wf()
                && self.channels@[i].spec_capacity() == EventKind::kind_at(
                i as usize,
            ).spec_capacity()
    }

    /// The channel of events of `kind`.
    pub open spec fn channel(&self, kind: EventKind) -> Channel<Event> {
        self.channels@[kind.spec_index() as int]
    }

    /// A window's state as it is created: no receivers, nothing pending, no close
    /// request, the input-method position at the origin.
    pub fn new(config: WindowConfig) -> (r: WindowState)
        ensures
            r.wf(),
            r.cursor == config.cursor,
            r.ime_enabled == config.enable_ime,
            r.ime_composition_window_visibility == config.ime_composition_window_visibility,
            r.ime_candidate_window_visibility == config.ime_candidate_window_visibility,
            r.ime_position == Physical(Point { x: 0i32, y: 0i32 }),
            r.close == CloseState::new_spec(),
            forall|k: EventKind|
                {
                    &&& (#[trigger] r.channel(k)).receiver_count() == 0
                    &&& !r.channel(k).is_closed()
                    &&& r.channel(k).spec_capacity() == k.spec_capacity()
                },
    {
        let mut channels: Vec<Channel<Event>> = Vec::new();
        let mut i: usize = 0;
        while i < EVENT_KIND_COUNT
            invariant
                i <= EVENT_KIND_COUNT,
                channels@.len() == i,
                forall|j: int|
                    0 <= j < i ==> {
                        &&& (#[trigger] channels@[j]).wf()
                        &&& channels@[j].spec_capacity() == EventKind::kind_at(
                            j as usize,
                        ).spec_capacity()
                        &&& channels@[j].receiver_count() == 0
                        &&& !channels@[j].is_closed()
                    },
            decreases EVENT_KIND_COUNT - i,
        {
            let kind = EventKind::from_index(i);
            channels.push(Channel::new(kind.capacity()));
            i = i + 1;
        }
        proof {
            assert forall|k: EventKind| #[trigger] EventKind::kind_at(k.spec_index() as usize) == k by {
                lemma_kind_index(k);
            }
        }
        WindowState {
            cursor: config.cursor,
            ime_enabled: config.enable_ime,
            ime_composition_window_visibility: config.ime_composition_window_visibility,
            ime_candidate_window_visibility: config.ime_candidate_window_visibility,
            ime_position: Physical(Point::new(0, 0)),
            close: CloseState::new(),
            channels,
        }
    }

    /// A new receiver of events of `kind`; it sees only events delivered from now on.
    pub fn subscribe(&mut self, kind: EventKind) -> (id: usize)
        requires
            old(self).wf(),
        ensures
            final(self).wf(),
            subscribed(old(self).channel(kind), final(self).channel(kind), id as nat),
            forall|k: EventKind| k != kind ==> #[trigger] final(self).channel(k) == old(self).channel(k),
            final(self).same_settings(*old(self)),
    {
        let i = kind.index();
        proof {
            lemma_kinds_differ(kind);
        }
        self.channels[i].subscribe()
    }

    /// Sends `ev` on the channel of its kind.
    pub fn deliver(&mut self, ev: Event)
        requires
            old(self).wf(),
        ensures
            final(self).wf(),
            delivered(*old(self), *final(self), ev),
            sent(old(self).channel(ev.spec_kind()), final(self).channel(ev.spec_kind()), ev),
            forall|k: EventKind|
                k != ev.spec_kind() ==> #[trigger] final(self).channel(k) == old(self).channel(k),
            final(self).same_settings(*old(self)),
    {
        let kind = ev.kind();
        let i = kind.index();
        proof {
            lemma_kinds_differ(kind);
        }
        self.channels[i].send(ev);
    }

    /// Reads one event for receiver `id` of `kind`, without waiting.
    pub fn try_recv(&mut self, kind: EventKind, id: usize) -> (r: Result<Option<Event>, Error>)
        requires
            old(self).wf(),
        ensures
            final(self).wf(),
            read_from(*old(self), *final(self), kind, id, r),
            id < old(self).channel(kind).receiver_count() ==> received(
                old(self).channel(kind),
                final(self).channel(kind),
                id as nat,
                r,
            ),
            id >= old(self).channel(kind).receiver_count() ==> r == Err::<Option<Event>, Error>(
                Error::Closed,
            ) && final(self).channel(kind) == old(self).channel(kind),
            forall|k: EventKind| k != kind ==> #[trigger] final(self).channel(k) == old(self).channel(k),
            final(self).same_settings(*old(self)),
    {
        let i = kind.index();
        proof {
            lemma_kinds_differ(kind);
        }
        if id >= self.channels[i].receiver_len() {
            return Err(Error::Closed);
        }
        self.channels[i].try_recv(id)
    }

    /// Gives up receiver `id` of `kind`; it gets no further events.
    pub fn release(&mut self, kind: EventKind, id: usize)
        requires
            old(self).wf(),
        ensures
            final(self).wf(),
            id < old(self).channel(kind).receiver_count() ==> !final(self).channel(
                kind,
            ).is_receiver(id as nat),
            final(self).channel(kind).receiver_count() == old(self).channel(kind).receiver_count(),
            forall|j: nat|
                j < old(self).channel(kind).receiver_count() && j != id ==> (final(self).channel(
                    kind,
                ).is_receiver(j) == old(self).channel(kind).is_receiver(j) && final(self).channel(
                    kind,
                ).pending(j) == old(self).channel(kind).pending(j)),
            forall|k: EventKind| k != kind ==> #[trigger] final(self).channel(k) == old(self).channel(k),
            final(self).same_settings(*old(self)),
    {
        let i = kind.index();
        proof {
            lemma_kinds_differ(kind);
        }
        if id < self.channels[i].receiver_len() {
            self.channels[i].release(id);
        }
    }

    /// Closes every channel: receivers read what they hold, then `Error::Closed`.
    pub fn close_channels(&mut self)
        requires
            old(self).wf(),
        ensures
            final(self).wf(),
            forall|k: EventKind| closed_from(old(self).channel(k), #[trigger] final(self).channel(k)),
            final(self).same_settings(*old(self)),
    {
        let mut i: usize = 0;
        while i < EVENT_KIND_COUNT
            invariant
                i <= EVENT_KIND_COUNT,
                self.channels@.len() == EVENT_KIND_COUNT,
                forall|j: int|
                    0 <= j < EVENT_KIND_COUNT ==> (#[trigger] self.channels@[j]).wf()
                        && self.channels@[j].spec_capacity() == EventKind::kind_at(
                        j as usize,
                    ).spec_capacity(),
                forall|j: int| 0 <= j < i ==> closed_from(old(self).channels@[j], #[trigger] self.channels@[j]),
                forall|j: int| i <= j < EVENT_KIND_COUNT ==> #[trigger] self.channels@[j] == old(self).channels@[j],
                self.same_settings(*old(self)),
            decreases EVENT_KIND_COUNT - i,
        {
            self.channels[i].close();
            i = i + 1;
        }
        proof {
            assert forall|k: EventKind| closed_from(old(self).channel(k), #[trigger] self.channel(k)) by {
                lemma_kind_index(k);
            }
        }
    }

    /// Everything but the channels is as in `other`.
    pub open spec fn same_settings(&self, other: WindowState) -> bool {
        &&& self.cursor == other.cursor
        &&& self.ime_enabled == other.ime_enabled
        &&& self.ime_composition_window_visibility == other.ime_composition_window_visibility
        &&& self.ime_candidate_window_visibility == other.ime_candidate_window_visibility
        &&& self.ime_position == other.ime_position
        &&& self.close == other.close
    }
}

/// `new` is `old` after receiver `id` of `kind` tried to read one event and got `r`.
pub open spec fn read_from(
    old: WindowState,
    new: WindowState,
    kind: EventKind,
    id: usize,
    r: Result<Option<Event>, Error>,
) -> bool {
    &&& new.wf()
    &&& id < old.channel(kind).receiver_count() ==> received(
        old.channel(kind),
        new.channel(kind),
        id as nat,
        r,
    )
    &&& id >= old.channel(kind).receiver_count() ==> r == Err::<Option<Event>, Error>(Error::Closed)
        && new.channel(kind) == old.channel(kind)
    &&& forall|k: EventKind| k != kind ==> #[trigger] new.channel(k) == old.channel(k)
    &&& new.same_settings(old)
}

/// `new` is `old` after `ev` was sent on the channel of its kind.
pub open spec fn delivered(old: WindowState, new: WindowState, ev: Event) -> bool {
    &&& new.wf()
    &&& sent(old.channel(ev.spec_kind()), new.channel(ev.spec_kind()), ev)
    &&& forall|k: EventKind| k != ev.spec_kind() ==> #[trigger] new.channel(k) == old.channel(k)
    &&& new.same_settings(old)
}

proof fn lemma_kind_index(k: EventKind)
    ensures
        k.spec_index() < EVENT_KIND_COUNT,
        EventKind::kind_at(k.spec_index() as usize) == k,
{
}

proof fn lemma_kinds_differ(k: EventKind)
    ensures
        k.spec_index() < EVENT_KIND_COUNT,
        forall|j: EventKind| j != k ==> #[trigger] j.spec_index() != k.spec_index(),
{
    assert forall|j: EventKind| j != k implies #[trigger] j.spec_index() != k.spec_index() by {
        lemma_kind_index(j);
        lemma_kind_index(k);
    }
}

} // verus!
