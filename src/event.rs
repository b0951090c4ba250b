//! The events that a window reports, and their kinds.
use vstd::prelude::*;

use crate::device::{ButtonState, KeyCode, MouseButton, MouseState};
use crate::geometry::{PhysicalPoint, PhysicalSize, ScreenPoint};
use crate::ime::{CandidateList, Composition};

verus! {

/// A mouse button went down or up.
#[derive(Clone, Copy, Debug)]
pub struct MouseInput {
    pub button: MouseButton,
    pub button_state: ButtonState,
    pub mouse_state: MouseState,
}

/// A mouse wheel turned by `delta`, in multiples of the system's wheel step.
#[derive(Clone, Copy, Debug)]
pub struct MouseWheel {
    pub delta: i16,
    pub mouse_state: MouseState,
}

/// A key went down or up; `prev_state` is the key's state before this event.
#[derive(Clone, Copy, Debug)]
pub struct KeyInput {
    pub state: ButtonState,
    pub key_code: KeyCode,
    pub prev_state: ButtonState,
}

/// Files dropped on a window, with the point where they were dropped.
#[derive(Clone, Debug)]
pub struct DropFiles {
    pub position: PhysicalPoint<i32>,
    pub files: Vec<String>,
}

/// The kinds of events a window reports; each kind has its own channel.
#[derive(Clone, Copy, PartialEq, Eq, Structural, Hash, Debug)]
pub enum EventKind {
    /// A repaint of the window is due.
    Draw,
    /// The pointer came into the window.
    CursorEntered,
    /// The pointer left the window.
    CursorLeft,
    /// The pointer moved inside the window.
    CursorMoved,
    /// A mouse button went down or up.
    MouseInput,
    /// The vertical wheel turned.
    MouseWheel,
    /// The horizontal wheel turned.
    MouseHWheel,
    /// A key went down or up.
    KeyInput,
    /// A character was typed.
    CharInput,
    /// The input method began a composition.
    ImeStartComposition,
    /// The composition string changed.
    ImeComposition,
    /// The input method ended a composition, with its result.
    ImeEndComposition,
    /// The window moved.
    Moved,
    /// The client area is being resized.
    Sizing,
    /// A resize gesture ended, with the final client size.
    Sized,
    /// The window became the active one.
    Activated,
    /// The window stopped being the active one.
    Inactivated,
    /// The resolution of the window changed.
    DpiChanged,
    /// Files were dropped on the window.
    DropFiles,
    /// The window was destroyed.
    Closed,
}

/// How many kinds of events there are.
pub const EVENT_KIND_COUNT: usize = 20;

impl EventKind {
    /// The position of the kind's channel among a window's channels.
    pub open spec fn spec_index(self) -> nat {
        match self {
            EventKind::Draw => 0,
            EventKind::CursorEntered => 1,
            EventKind::CursorLeft => 2,
            EventKind::CursorMoved => 3,
            EventKind::MouseInput => 4,
            EventKind::MouseWheel => 5,
            EventKind::MouseHWheel => 6,
            EventKind::KeyInput => 7,
            EventKind::CharInput => 8,
            EventKind::ImeStartComposition => 9,
            EventKind::ImeComposition => 10,
            EventKind::ImeEndComposition => 11,
            EventKind::Moved => 12,
            EventKind::Sizing => 13,
            EventKind::Sized => 14,
            EventKind::Activated => 15,
            EventKind::Inactivated => 16,
            EventKind::DpiChanged => 17,
            EventKind::DropFiles => 18,
            EventKind::Closed => 19,
        }
    }

    /// How many unread events a receiver of this kind can hold: many for streams of
    /// input, one for events that only report the latest state.
    pub open spec fn spec_capacity(self) -> nat {
        match self {
            EventKind::Draw => 8,
            EventKind::CursorEntered => 8,
            EventKind::CursorLeft => 8,
            EventKind::CursorMoved => 128,
            EventKind::MouseInput => 64,
            EventKind::MouseWheel => 64,
            EventKind::MouseHWheel => 64,
            EventKind::KeyInput => 256,
            EventKind::CharInput => 256,
            EventKind::ImeStartComposition => 1,
            EventKind::ImeComposition => 1,
            EventKind::ImeEndComposition => 1,
            EventKind::Moved => 128,
            EventKind::Sizing => 128,
            EventKind::Sized => 1,
            EventKind::Activated => 1,
            EventKind::Inactivated => 1,
            EventKind::DpiChanged => 1,
            EventKind::DropFiles => 1,
            EventKind::Closed => 1,
        }
    }

    /// The kind whose channel has position `i`.
    pub open spec fn kind_at(i: usize) -> EventKind {
        match i {
            0 => EventKind::Draw,
            1 => EventKind::CursorEntered,
            2 => EventKind::CursorLeft,
            3 => EventKind::CursorMoved,
            4 => EventKind::MouseInput,
            5 => EventKind::MouseWheel,
            6 => EventKind::MouseHWheel,
            7 => EventKind::KeyInput,
            8 => EventKind::CharInput,
            9 => EventKind::ImeStartComposition,
            10 => EventKind::ImeComposition,
            11 => EventKind::ImeEndComposition,
            12 => EventKind::Moved,
            13 => EventKind::Sizing,
            14 => EventKind::Sized,
            15 => EventKind::Activated,
            16 => EventKind::Inactivated,
            17 => EventKind::DpiChanged,
            18 => EventKind::DropFiles,
            _ => EventKind::Closed,
        }
    }

    /// The position of the kind's channel among a window's channels.
    pub fn index(self) -> (r: usize)
        ensures
            r == self.spec_index(),
            r < EVENT_KIND_COUNT,
            EventKind::kind_at(r) == self,
    {
        match self {
            EventKind::Draw => 0,
            EventKind::CursorEntered => 1,
            EventKind::CursorLeft => 2,
            EventKind::CursorMoved => 3,
            EventKind::MouseInput => 4,
            EventKind::MouseWheel => 5,
            EventKind::MouseHWheel => 6,
            EventKind::KeyInput => 7,
            EventKind::CharInput => 8,
            EventKind::ImeStartComposition => 9,
            EventKind::ImeComposition => 10,
            EventKind::ImeEndComposition => 11,
            EventKind::Moved => 12,
            EventKind::Sizing => 13,
            EventKind::Sized => 14,
            EventKind::Activated => 15,
            EventKind::Inactivated => 16,
            EventKind::DpiChanged => 17,
            EventKind::DropFiles => 18,
            EventKind::Closed => 19,
        }
    }

    /// How many unread events a receiver of this kind can hold.
    pub fn capacity(self) -> (r: usize)
        ensures
            r == self.spec_capacity(),
            r >= 1,
    {
        match self {
            EventKind::Draw => 8,
            EventKind::CursorEntered => 8,
            EventKind::CursorLeft => 8,
            EventKind::CursorMoved => 128,
            EventKind::MouseInput => 64,
            EventKind::MouseWheel => 64,
            EventKind::MouseHWheel => 64,
            EventKind::KeyInput => 256,
            EventKind::CharInput => 256,
            EventKind::ImeStartComposition => 1,
            EventKind::ImeComposition => 1,
            EventKind::ImeEndComposition => 1,
            EventKind::Moved => 128,
            EventKind::Sizing => 128,
            EventKind::Sized => 1,
            EventKind::Activated => 1,
            EventKind::Inactivated => 1,
            EventKind::DpiChanged => 1,
            EventKind::DropFiles => 1,
            EventKind::Closed => 1,
        }
    }

    /// The kind whose channel has position `i`.
    pub fn from_index(i: usize) -> (r: EventKind)
        requires
            i < EVENT_KIND_COUNT,
        ensures
            r == EventKind::kind_at(i),
            r.spec_index() == i,
    {
        match i {
            0 => EventKind::Draw,
            1 => EventKind::CursorEntered,
            2 => EventKind::CursorLeft,
            3 => EventKind::CursorMoved,
            4 => EventKind::MouseInput,
            5 => EventKind::MouseWheel,
            6 => EventKind::MouseHWheel,
            7 => EventKind::KeyInput,
            8 => EventKind::CharInput,
            9 => EventKind::ImeStartComposition,
            10 => EventKind::ImeComposition,
            11 => EventKind::ImeEndComposition,
            12 => EventKind::Moved,
            13 => EventKind::Sizing,
            14 => EventKind::Sized,
            15 => EventKind::Activated,
            16 => EventKind::Inactivated,
            17 => EventKind::DpiChanged,
            18 => EventKind::DropFiles,
            _ => EventKind::Closed,
        }
    }
}

/// An event of a window, with what it carries.
#[derive(Clone, Debug)]
pub enum Event {
    Draw,
    CursorEntered(MouseState),
    CursorLeft(MouseState),
    CursorMoved(MouseState),
    MouseInput(MouseInput),
    MouseWheel(MouseWheel),
    MouseHWheel(MouseWheel),
    KeyInput(KeyInput),
    CharInput(char),
    ImeStartComposition,
    ImeComposition(Composition, Option<CandidateList>),
    ImeEndComposition(Option<String>),
    Moved(ScreenPoint<i32>),
    Sizing(PhysicalSize<u32>),
    Sized(PhysicalSize<u32>),
    Activated,
    Inactivated,
    DpiChanged(u32),
    DropFiles(DropFiles),
    Closed,
}

impl Event {
    /// The kind of the event.
    pub open spec fn spec_kind(&self) -> EventKind {
        match self {
            Event::Draw => EventKind::Draw,
            Event::CursorEntered(_) => EventKind::CursorEntered,
            Event::CursorLeft(_) => EventKind::CursorLeft,
            Event::CursorMoved(_) => EventKind::CursorMoved,
            Event::MouseInput(_) => EventKind::MouseInput,
            Event::MouseWheel(_) => EventKind::MouseWheel,
            Event::MouseHWheel(_) => EventKind::MouseHWheel,
            Event::KeyInput(_) => EventKind::KeyInput,
            Event::CharInput(_) => EventKind::CharInput,
            Event::ImeStartComposition => EventKind::ImeStartComposition,
            Event::ImeComposition(..) => EventKind::ImeComposition,
            Event::ImeEndComposition(_) => EventKind::ImeEndComposition,
            Event::Moved(_) => EventKind::Moved,
            Event::Sizing(_) => EventKind::Sizing,
            Event::Sized(_) => EventKind::Sized,
            Event::Activated => EventKind::Activated,
            Event::Inactivated => EventKind::Inactivated,
            Event::DpiChanged(_) => EventKind::DpiChanged,
            Event::DropFiles(_) => EventKind::DropFiles,
            Event::Closed => EventKind::Closed,
        }
    }

    /// The kind of the event.
    pub fn kind(&self) -> (r: EventKind)
        ensures
            r == self.spec_kind(),
    {
        match self {
            Event::Draw => EventKind::Draw,
            Event::CursorEntered(_) => EventKind::CursorEntered,
            Event::CursorLeft(_) => EventKind::CursorLeft,
            Event::CursorMoved(_) => EventKind::CursorMoved,
            Event::MouseInput(_) => EventKind::MouseInput,
            Event::MouseWheel(_) => EventKind::MouseWheel,
            Event::MouseHWheel(_) => EventKind::MouseHWheel,
            Event::KeyInput(_) => EventKind::KeyInput,
            Event::CharInput(_) => EventKind::CharInput,
            Event::ImeStartComposition => EventKind::ImeStartComposition,
            Event::ImeComposition(..) => EventKind::ImeComposition,
            Event::ImeEndComposition(_) => EventKind::ImeEndComposition,
            Event::Moved(_) => EventKind::Moved,
            Event::Sizing(_) => EventKind::Sizing,
            Event::Sized(_) => EventKind::Sized,
            Event::Activated => EventKind::Activated,
            Event::Inactivated => EventKind::Inactivated,
            Event::DpiChanged(_) => EventKind::DpiChanged,
            Event::DropFiles(_) => EventKind::DropFiles,
            Event::Closed => EventKind::Closed,
        }
    }
}

} // verus!
