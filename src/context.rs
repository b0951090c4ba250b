//! The dispatcher thread's state: the registry of live windows and the interaction
//! state that spans several messages. Every decision that a decoded message or a command
//! leads to is made here; carrying it out on the native window is left to the caller.
use vstd::prelude::*;

use crate::channel::{closed_from, keep_last, sent};
use crate::close::{on_close_attempt, on_confirm, on_discard, on_register, CloseAction};
use crate::device::MouseState;
use crate::error::Error;
use crate::event::{Event, EventKind};
use crate::geometry::{PhysicalPoint, PhysicalSize};
use crate::registry::Registry;
use crate::resource::Cursor;
use crate::window::{delivered, read_from, Receiver, WindowConfig, WindowHandle, WindowState};

verus! {

/// What a pointer move means for the window under the pointer.
#[derive(Clone, Copy, PartialEq, Eq, Structural, Debug)]
pub enum PointerMove {
    /// The pointer came in: start tracking its leaving and show this cursor, if any.
    Entered(Option<Cursor>),
    /// The pointer moved within a window that it had entered already.
    Moved,
}

/// `new` is the window `old` after its destruction: every channel is closed, the
/// receivers of `Closed` events hold one more, and every other receiver holds what it
/// held.
pub open spec fn destroyed(old: WindowState, new: WindowState) -> bool {
    &&& new.wf()
    &&& forall|k: EventKind|
        {
            &&& (#[trigger] new.channel(k)).is_closed()
            &&& new.channel(k).receiver_count() == old.channel(k).receiver_count()
            &&& forall|j: nat|
                j < old.channel(k).receiver_count() ==> new.channel(k).is_receiver(j)
                    == old.channel(k).is_receiver(j)
        }
    &&& forall|k: EventKind, j: nat|
        k != EventKind::Closed && j < old.channel(k).receiver_count() ==> #[trigger] new.channel(
            k,
        ).pending(j) == old.channel(k).pending(j)
    &&& forall|j: nat|
        j < old.channel(EventKind::Closed).receiver_count() && old.channel(
            EventKind::Closed,
        ).is_receiver(j) && !old.channel(EventKind::Closed).is_closed() ==> #[trigger] new.channel(EventKind::Closed).pending(j) == keep_last(
            old.channel(EventKind::Closed).pending(j).push(Event::Closed),
            old.channel(EventKind::Closed).spec_capacity(),
        )
}

/// The dispatcher's state.
pub struct Context {
    /// The live windows.
    pub registry: Registry,
    /// Destroyed windows whose receivers may still hold unread events.
    pub retired: Registry,
    /// A resize or move gesture is in progress.
    pub resizing: bool,
    /// The window that the pointer is in, as far as the dispatcher has seen.
    pub entered_cursor_window: Option<WindowHandle>,
}

impl Context {
    pub open spec fn wf(&self) -> bool {
        self.registry.wf() && self.retired.wf()
    }

    /// The live windows, by the integer value of their handles.
    pub open spec fn windows(&self) -> Map<isize, WindowState> {
        self.registry.view()
    }

    pub fn new() -> (r: Context)
        ensures
            r.wf(),
            r.windows().is_empty(),
            !r.resizing,
            r.entered_cursor_window is None,
    {
        Context {
            registry: Registry::new(),
            retired: Registry::new(),
            resizing: false,
            entered_cursor_window: None,
        }
    }

    /// Registers a window that was just created.
    pub fn insert_window(&mut self, handle: WindowHandle, config: WindowConfig)
        requires
            old(self).wf(),
        ensures
            final(self).wf(),
            final(self).windows().contains_key(handle.0),
            final(self).windows().dom() == old(self).windows().dom().insert(handle.0),
            final(self).windows()[handle.0].cursor == config.cursor,
            final(self).windows()[handle.0].ime_enabled == config.enable_ime,
            !final(self).windows().is_empty(),
            final(self).resizing == old(self).resizing,
            final(self).entered_cursor_window == old(self).entered_cursor_window,
    {
        let state = WindowState::new(config);
        self.registry.insert(handle, state);
    }

    /// Handles the destruction of a window: its receivers get a `Closed` event, then
    /// their channels close, and the window leaves the registry. Returns whether this
    /// emptied the registry, which is what ends the dispatcher's loop.
    pub fn destroy_window(&mut self, handle: WindowHandle) -> (emptied: bool)
        requires
            old(self).wf(),
        ensures
            final(self).wf(),
            final(self).windows() == old(self).windows().remove(handle.0),
            emptied == (old(self).windows().contains_key(handle.0) && final(self).windows().is_empty()),
            old(self).windows().contains_key(handle.0) ==> final(self).retired.view().contains_key(
                handle.0,
            ) && destroyed(old(self).windows()[handle.0], final(self).retired.view()[handle.0]),
            final(self).resizing == old(self).resizing,
    {
        match self.registry.remove(handle) {
            Some(mut state) => {
                let ghost before = state;
                state.deliver(Event::Closed);
                let ghost middle = state;
                state.close_channels();
                proof {
                    assert forall|k: EventKind, j: nat|
                        k != EventKind::Closed && j < before.channel(k).receiver_count() implies #[trigger] state.channel(
                            k,
                        ).pending(j) == before.channel(k).pending(j) by {
                        assert(closed_from(middle.channel(k), state.channel(k)));
                        assert(middle.channel(k) == before.channel(k));
                    }
                    assert forall|j: nat|
                        j < before.channel(EventKind::Closed).receiver_count() && before.channel(
                            EventKind::Closed,
                        ).is_receiver(j) && !before.channel(
                            EventKind::Closed,
                        ).is_closed() implies #[trigger] state.channel(EventKind::Closed).pending(j)
                        == keep_last(
                        before.channel(EventKind::Closed).pending(j).push(Event::Closed),
                        before.channel(EventKind::Closed).spec_capacity(),
                    ) by {
                        assert(closed_from(
                            middle.channel(EventKind::Closed),
                            state.channel(EventKind::Closed),
                        ));
                        assert(Event::Closed.spec_kind() == EventKind::Closed);
                        assert(sent(
                            before.channel(EventKind::Closed),
                            middle.channel(EventKind::Closed),
                            Event::Closed,
                        ));
                    }
                    assert forall|k: EventKind| #[trigger] state.channel(k).is_closed() && state.channel(k).receiver_count() == before.channel(k).receiver_count() && forall|j: nat|
                        j < before.channel(k).receiver_count() ==> state.channel(k).is_receiver(j)
                            == before.channel(k).is_receiver(j) by {
                        assert(closed_from(middle.channel(k), state.channel(k)));
                        if k == EventKind::Closed {
                            assert(sent(before.channel(k), middle.channel(k), Event::Closed));
                        } else {
                            assert(middle.channel(k) == before.channel(k));
                        }
                    }
                }
                self.retired.insert(handle, state);
                self.registry.is_empty()
            },
            None => false,
        }
    }

    /// Takes window `handle` out of the registry as it is, without telling its receivers.
    pub fn remove_window(&mut self, handle: WindowHandle) -> (r: Option<WindowState>)
        requires
            old(self).wf(),
        ensures
            final(self).wf(),
            final(self).windows() == old(self).windows().remove(handle.0),
            old(self).windows().contains_key(handle.0) ==> r == Some(old(self).windows()[handle.0]),
            !old(self).windows().contains_key(handle.0) ==> r is None,
            final(self).retired == old(self).retired,
    {
        self.registry.remove(handle)
    }

    /// Whether no window is live.
    pub fn window_map_is_empty(&self) -> (r: bool)
        ensures
            r == self.windows().is_empty(),
    {
        self.registry.is_empty()
    }

    /// The state of the live window `handle`, if there is one.
    pub fn get_window(&self, handle: WindowHandle) -> (r: Option<&WindowState>)
        ensures
            self.windows().contains_key(handle.0) ==> r == Some(&self.windows()[handle.0]),
            !self.windows().contains_key(handle.0) ==> r is None,
    {
        self.registry.get(handle)
    }

    /// Whether `handle` no longer names a live window.
    pub fn is_closed(&self, handle: WindowHandle) -> (r: bool)
        ensures
            r == !self.windows().contains_key(handle.0),
    {
        !self.registry.contains(handle)
    }

    /// A new receiver of events of `kind` of window `handle`.
    pub fn subscribe(&mut self, handle: WindowHandle, kind: EventKind) -> (r: Receiver)
        requires
            old(self).wf(),
        ensures
            old(self).windows().contains_key(handle.0) ==> final(self).windows() == old(self).windows().insert(handle.0, final(self).windows()[handle.0]),
            final(self).wf(),
            final(self).windows().dom() == old(self).windows().dom(),
            r.window == handle,
            r.kind == kind,
            old(self).windows().contains_key(handle.0) ==> (r.id matches Some(id) && {
                &&& id == old(self).windows()[handle.0].channel(kind).receiver_count()
                &&& final(self).windows()[handle.0].channel(kind).is_receiver(id as nat)
                &&& final(self).windows()[handle.0].channel(kind).pending(id as nat) == Seq::<
                    Event,
                >::empty()
            }),
            !old(self).windows().contains_key(handle.0) ==> r.id is None && final(self).windows()
                == old(self).windows(),
    {
        match self.registry.remove(handle) {
            Some(mut state) => {
                let id = state.subscribe(kind);
                self.registry.insert(handle, state);
                Receiver { window: handle, kind, id: Some(id) }
            },
            None => Receiver { window: handle, kind, id: None },
        }
    }

    /// Reads one event for `receiver` without waiting: from the live window, or after
    /// the window's destruction, what the receiver still held; then `Error::Closed`.
    pub fn try_recv(&mut self, receiver: Receiver) -> (r: Result<Option<Event>, Error>)
        requires
            old(self).wf(),
        ensures
            old(self).windows().contains_key(receiver.window.0) ==> final(self).windows() == old(self).windows().insert(receiver.window.0, final(self).windows()[receiver.window.0]),
            old(self).windows().contains_key(receiver.window.0) ==> final(self).retired == old(self).retired,
            final(self).wf(),
            final(self).windows().dom() == old(self).windows().dom(),
            receiver.id is None ==> r == Err::<Option<Event>, Error>(Error::Closed),
            receiver.id is Some && old(self).windows().contains_key(receiver.window.0)
                ==> read_from(
                old(self).windows()[receiver.window.0],
                final(self).windows()[receiver.window.0],
                receiver.kind,
                receiver.id->0,
                r,
            ),
            receiver.id is Some && !old(self).windows().contains_key(receiver.window.0)
                && old(self).retired.view().contains_key(receiver.window.0) ==> read_from(
                old(self).retired.view()[receiver.window.0],
                final(self).retired.view()[receiver.window.0],
                receiver.kind,
                receiver.id->0,
                r,
            ),
            !old(self).windows().contains_key(receiver.window.0) && !old(self).retired.view().contains_key(receiver.window.0) ==> r == Err::<Option<Event>, Error>(
                Error::Closed,
            ),
    {
        let id = match receiver.id {
            Some(id) => id,
            None => return Err(Error::Closed),
        };
        match self.registry.remove(receiver.window) {
            Some(mut state) => {
                let r = state.try_recv(receiver.kind, id);
                self.registry.insert(receiver.window, state);
                r
            },
            None => match self.retired.remove(receiver.window) {
                Some(mut state) => {
                    let r = state.try_recv(receiver.kind, id);
                    self.retired.insert(receiver.window, state);
                    r
                },
                None => Err(Error::Closed),
            },
        }
    }

    /// Gives up `receiver`: it holds no events any more and gets no new ones.
    pub fn release(&mut self, receiver: Receiver)
        requires
            old(self).wf(),
        ensures
            old(self).windows().contains_key(receiver.window.0) ==> final(self).windows() == old(self).windows().insert(receiver.window.0, final(self).windows()[receiver.window.0]),
            old(self).windows().contains_key(receiver.window.0) ==> final(self).retired == old(self).retired,
            final(self).wf(),
            final(self).windows().dom() == old(self).windows().dom(),
            receiver.id is Some && old(self).windows().contains_key(receiver.window.0) && receiver.id->0
                < old(self).windows()[receiver.window.0].channel(receiver.kind).receiver_count()
                ==> !final(self).windows()[receiver.window.0].channel(receiver.kind).is_receiver(
                (receiver.id->0) as nat,
            ),
    {
        let id = match receiver.id {
            Some(id) => id,
            None => return ,
        };
        match self.registry.remove(receiver.window) {
            Some(mut state) => {
                state.release(receiver.kind, id);
                self.registry.insert(receiver.window, state);
            },
            None => match self.retired.remove(receiver.window) {
                Some(mut state) => {
                    state.release(receiver.kind, id);
                    self.retired.insert(receiver.window, state);
                },
                None => {},
            },
        }
    }

    /// Sends `ev` to the receivers of window `handle`; `false` when there is no such
    /// window, in which case nothing changes.
    pub fn deliver(&mut self, handle: WindowHandle, ev: Event) -> (r: bool)
        requires
            old(self).wf(),
        ensures
            final(self).wf(),
            r == old(self).windows().contains_key(handle.0),
            final(self).windows().dom() == old(self).windows().dom(),
            r ==> delivered(old(self).windows()[handle.0], final(self).windows()[handle.0], ev),
            forall|h: isize| h != handle.0 && #[trigger] old(self).windows().contains_key(h) ==> final(self).windows()[h] == old(self).windows()[h],
            !r ==> final(self).windows() == old(self).windows(),
            final(self).resizing == old(self).resizing,
            final(self).entered_cursor_window == old(self).entered_cursor_window,
    {
        match self.registry.remove(handle) {
            Some(mut state) => {
                state.deliver(ev);
                self.registry.insert(handle, state);
                true
            },
            None => false,
        }
    }

    /// Handles a pointer move over window `handle`. The first move after the pointer
    /// left every window is an entry; later ones are moves. `None` when there is no such
    /// window.
    pub fn cursor_moved(&mut self, handle: WindowHandle, state: MouseState) -> (r: Option<
        PointerMove,
    >)
        requires
            old(self).wf(),
        ensures
            old(self).windows().contains_key(handle.0) ==> final(self).windows() == old(self).windows().insert(handle.0, final(self).windows()[handle.0]),
            final(self).wf(),
            final(self).windows().dom() == old(self).windows().dom(),
            !old(self).windows().contains_key(handle.0) ==> r is None && final(self).windows()
                == old(self).windows() && final(self).entered_cursor_window == old(self).entered_cursor_window,
            old(self).windows().contains_key(handle.0) && old(self).entered_cursor_window is None
                ==> {
                &&& r == Some(PointerMove::Entered(old(self).windows()[handle.0].cursor))
                &&& final(self).entered_cursor_window == Some(handle)
                &&& delivered(
                    old(self).windows()[handle.0],
                    final(self).windows()[handle.0],
                    Event::CursorEntered(state),
                )
            },
            old(self).windows().contains_key(handle.0) && old(self).entered_cursor_window is Some
                ==> {
                &&& r == Some(PointerMove::Moved)
                &&& final(self).entered_cursor_window == old(self).entered_cursor_window
                &&& delivered(
                    old(self).windows()[handle.0],
                    final(self).windows()[handle.0],
                    Event::CursorMoved(state),
                )
            },
    {
        let cursor = match self.registry.get(handle) {
            Some(w) => w.cursor,
            None => return None,
        };
        if self.entered_cursor_window.is_none() {
            self.entered_cursor_window = Some(handle);
            self.deliver(handle, Event::CursorEntered(state));
            Some(PointerMove::Entered(cursor))
        } else {
            self.deliver(handle, Event::CursorMoved(state));
            Some(PointerMove::Moved)
        }
    }

    /// Handles the pointer leaving window `handle`; `false` when there is no such window.
    pub fn cursor_left(&mut self, handle: WindowHandle, state: MouseState) -> (r: bool)
        requires
            old(self).wf(),
        ensures
            old(self).windows().contains_key(handle.0) ==> final(self).windows() == old(self).windows().insert(handle.0, final(self).windows()[handle.0]),
            final(self).wf(),
            r == old(self).windows().contains_key(handle.0),
            r ==> final(self).entered_cursor_window is None && delivered(
                old(self).windows()[handle.0],
                final(self).windows()[handle.0],
                Event::CursorLeft(state),
            ),
            !r ==> final(self).windows() == old(self).windows() && final(self).entered_cursor_window
                == old(self).entered_cursor_window,
    {
        if !self.registry.contains(handle) {
            return false;
        }
        self.entered_cursor_window = None;
        self.deliver(handle, Event::CursorLeft(state))
    }

    /// A resize or move gesture began.
    pub fn begin_resize(&mut self)
        ensures
            final(self).resizing,
            final(self).registry == old(self).registry,
            final(self).retired == old(self).retired,
            final(self).entered_cursor_window == old(self).entered_cursor_window,
    {
        self.resizing = true;
    }

    /// A resize or move gesture ended with the client area at `size`; its window's
    /// receivers get a `Sized` event. `false` when there is no such window.
    pub fn end_resize(&mut self, handle: WindowHandle, size: PhysicalSize<u32>) -> (r: bool)
        requires
            old(self).wf(),
        ensures
            old(self).windows().contains_key(handle.0) ==> final(self).windows() == old(self).windows().insert(handle.0, final(self).windows()[handle.0]),
            final(self).wf(),
            !final(self).resizing,
            r == old(self).windows().contains_key(handle.0),
            r ==> delivered(
                old(self).windows()[handle.0],
                final(self).windows()[handle.0],
                Event::Sized(size),
            ),
            !r ==> final(self).windows() == old(self).windows(),
    {
        self.resizing = false;
        self.deliver(handle, Event::Sized(size))
    }

    /// Registers the close-request receiver of window `handle`. `false` when there is no
    /// such window or it has a receiver already.
    pub fn register_close_receiver(&mut self, handle: WindowHandle) -> (r: bool)
        requires
            old(self).wf(),
        ensures
            old(self).windows().contains_key(handle.0) ==> final(self).windows() == old(self).windows().insert(handle.0, final(self).windows()[handle.0]),
            final(self).wf(),
            final(self).windows().dom() == old(self).windows().dom(),
            old(self).windows().contains_key(handle.0) ==> r == on_register(
                old(self).windows()[handle.0].close,
            ).1 && final(self).windows()[handle.0].close == on_register(
                old(self).windows()[handle.0].close,
            ).0,
            !old(self).windows().contains_key(handle.0) ==> !r && final(self).windows() == old(self).windows(),
    {
        match self.registry.remove(handle) {
            Some(mut state) => {
                let r = state.close.register();
                self.registry.insert(handle, state);
                r
            },
            None => false,
        }
    }

    /// Handles an attempt to close window `handle`: `Some` of what to do next, `None`
    /// when there is no such window (the system's default handling then applies).
    pub fn close_attempt(&mut self, handle: WindowHandle) -> (r: Option<CloseAction>)
        requires
            old(self).wf(),
        ensures
            old(self).windows().contains_key(handle.0) ==> final(self).windows() == old(self).windows().insert(handle.0, final(self).windows()[handle.0]),
            final(self).wf(),
            final(self).windows().dom() == old(self).windows().dom(),
            old(self).windows().contains_key(handle.0) ==> r == Some(
                on_close_attempt(old(self).windows()[handle.0].close).1,
            ) && final(self).windows()[handle.0].close == on_close_attempt(
                old(self).windows()[handle.0].close,
            ).0,
            !old(self).windows().contains_key(handle.0) ==> r is None && final(self).windows() == old(self).windows(),
    {
        match self.registry.remove(handle) {
            Some(mut state) => {
                let r = state.close.close_attempt();
                self.registry.insert(handle, state);
                Some(r)
            },
            None => None,
        }
    }

    /// The receiver confirmed the close request of window `handle`: `Some(Destroy)`, or
    /// `None` when the window is gone already.
    pub fn close_confirmed(&mut self, handle: WindowHandle) -> (r: Option<CloseAction>)
        requires
            old(self).wf(),
        ensures
            old(self).windows().contains_key(handle.0) ==> final(self).windows() == old(self).windows().insert(handle.0, final(self).windows()[handle.0]),
            final(self).wf(),
            final(self).windows().dom() == old(self).windows().dom(),
            old(self).windows().contains_key(handle.0) ==> r == Some(
                on_confirm(old(self).windows()[handle.0].close).1,
            ) && final(self).windows()[handle.0].close == on_confirm(
                old(self).windows()[handle.0].close,
            ).0,
            !old(self).windows().contains_key(handle.0) ==> r is None && final(self).windows() == old(self).windows(),
    {
        match self.registry.remove(handle) {
            Some(mut state) => {
                let r = state.close.confirm();
                self.registry.insert(handle, state);
                Some(r)
            },
            None => None,
        }
    }

    /// The receiver dropped the close request of window `handle`: the window stays
    /// open. `false` when the window is gone already.
    pub fn close_discarded(&mut self, handle: WindowHandle) -> (r: bool)
        requires
            old(self).wf(),
        ensures
            old(self).windows().contains_key(handle.0) ==> final(self).windows() == old(self).windows().insert(handle.0, final(self).windows()[handle.0]),
            final(self).wf(),
            final(self).windows().dom() == old(self).windows().dom(),
            r == old(self).windows().contains_key(handle.0),
            r ==> final(self).windows()[handle.0].close == on_discard(
                old(self).windows()[handle.0].close,
            ).0,
            !r ==> final(self).windows() == old(self).windows(),
    {
        match self.registry.remove(handle) {
            Some(mut state) => {
                state.close.discard();
                self.registry.insert(handle, state);
                true
            },
            None => false,
        }
    }

    /// The close-request receiver of window `handle` went away.
    pub fn close_receiver_gone(&mut self, handle: WindowHandle) -> (r: bool)
        requires
            old(self).wf(),
        ensures
            old(self).windows().contains_key(handle.0) ==> final(self).windows() == old(self).windows().insert(handle.0, final(self).windows()[handle.0]),
            final(self).wf(),
            final(self).windows().dom() == old(self).windows().dom(),
            r == old(self).windows().contains_key(handle.0),
            r ==> !final(self).windows()[handle.0].close.has_receiver
                && !final(self).windows()[handle.0].close.outstanding,
            !r ==> final(self).windows() == old(self).windows(),
    {
        match self.registry.remove(handle) {
            Some(mut state) => {
                state.close.receiver_gone();
                self.registry.insert(handle, state);
                true
            },
            None => false,
        }
    }

    /// Sets the cursor shown over window `handle`; `false` when there is no such window.
    pub fn set_cursor(&mut self, handle: WindowHandle, cursor: Option<Cursor>) -> (r: bool)
        requires
            old(self).wf(),
        ensures
            final(self).wf(),
            final(self).windows().dom() == old(self).windows().dom(),
            r == old(self).windows().contains_key(handle.0),
            r ==> final(self).windows() == old(self).windows().insert(
                handle.0,
                WindowState { cursor, ..old(self).windows()[handle.0] },
            ),
            !r ==> final(self).windows() == old(self).windows(),
    {
        match self.registry.remove(handle) {
            Some(mut state) => {
                state.cursor = cursor;
                self.registry.insert(handle, state);
                true
            },
            None => false,
        }
    }

    /// Records whether the input method is enabled for window `handle`; `false` when
    /// there is no such window.
    pub fn set_ime_enabled(&mut self, handle: WindowHandle, enabled: bool) -> (r: bool)
        requires
            old(self).wf(),
        ensures
            final(self).wf(),
            final(self).windows().dom() == old(self).windows().dom(),
            r == old(self).windows().contains_key(handle.0),
            r ==> final(self).windows() == old(self).windows().insert(
                handle.0,
                WindowState { ime_enabled: enabled, ..old(self).windows()[handle.0] },
            ),
            !r ==> final(self).windows() == old(self).windows(),
    {
        match self.registry.remove(handle) {
            Some(mut state) => {
                state.ime_enabled = enabled;
                self.registry.insert(handle, state);
                true
            },
            None => false,
        }
    }

    /// Whether the input method is enabled for window `handle`; `Error::Closed` when
    /// there is no such window.
    pub fn ime_enabled(&self, handle: WindowHandle) -> (r: Result<bool, Error>)
        ensures
            self.windows().contains_key(handle.0) ==> r == Ok::<bool, Error>(
                self.windows()[handle.0].ime_enabled,
            ),
            !self.windows().contains_key(handle.0) ==> r == Err::<bool, Error>(Error::Closed),
    {
        match self.registry.get(handle) {
            Some(state) => Ok(state.ime_enabled),
            None => Err(Error::Closed),
        }
    }

    /// Sets where the input method places its windows for window `handle`; `false` when
    /// there is no such window.
    pub fn set_ime_position(&mut self, handle: WindowHandle, position: PhysicalPoint<i32>) -> (r:
        bool)
        requires
            old(self).wf(),
        ensures
            final(self).wf(),
            final(self).windows().dom() == old(self).windows().dom(),
            r == old(self).windows().contains_key(handle.0),
            r ==> final(self).windows() == old(self).windows().insert(
                handle.0,
                WindowState { ime_position: position, ..old(self).windows()[handle.0] },
            ),
            !r ==> final(self).windows() == old(self).windows(),
    {
        match self.registry.remove(handle) {
            Some(mut state) => {
                state.ime_position = position;
                self.registry.insert(handle, state);
                true
            },
            None => false,
        }
    }
}

} // verus!
