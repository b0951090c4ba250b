//! Window styles and the configuration a window is built from.
use vstd::prelude::*;

use crate::geometry::{
    Logical, LogicalSize, PhysicalSize, Point, Screen, ScreenPoint, Size, DEFAULT_DPI,
};
use crate::resource::{Cursor, Icon};
use crate::window::WindowConfig;

verus! {

/// Window style bits of the windowing system.
pub const WS_OVERLAPPED: u32 = 0x0000_0000;

pub const WS_CAPTION: u32 = 0x00c0_0000;

pub const WS_SYSMENU: u32 = 0x0008_0000;

pub const WS_THICKFRAME: u32 = 0x0004_0000;

pub const WS_MINIMIZEBOX: u32 = 0x0002_0000;

pub const WS_MAXIMIZEBOX: u32 = 0x0001_0000;

pub const WS_POPUP: u32 = 0x8000_0000;

/// A title bar, a system menu, a resizing frame, and minimize and maximize boxes.
pub const WS_OVERLAPPEDWINDOW: u32 = 0x00cf_0000;

/// Anything that gives a window's style bits and extended style bits.
pub trait StyleObject {
    spec fn spec_value(&self) -> u32;

    spec fn spec_ex(&self) -> u32;

    fn value(&self) -> (r: u32)
        ensures
            r == self.spec_value(),
    ;

    fn ex(&self) -> (r: u32)
        ensures
            r == self.spec_ex(),
    ;
}

/// A window with no frame and no title bar.
#[derive(Clone, Copy, Debug)]
pub struct BorderlessStyle;

impl StyleObject for BorderlessStyle {
    open spec fn spec_value(&self) -> u32 {
        WS_POPUP
    }

    open spec fn spec_ex(&self) -> u32 {
        0
    }

    fn value(&self) -> (r: u32) {
        WS_POPUP
    }

    fn ex(&self) -> (r: u32) {
        0
    }
}

/// Style bits and extended style bits of a framed window.
#[derive(Clone, Copy, Debug)]
pub struct Style {
    pub value: u32,
    pub ex: u32,
}

/// `v` with the bits of `flag` set when `on`, cleared otherwise.
pub open spec fn with_flag(v: u32, flag: u32, on: bool) -> u32 {
    if on {
        v | flag
    } else {
        v & !flag
    }
}

impl Style {
    /// An ordinary overlapped window.
    pub fn new() -> (r: Style)
        ensures
            r.value == WS_OVERLAPPEDWINDOW,
            r.ex == 0,
    {
        Style { value: WS_OVERLAPPEDWINDOW, ex: 0 }
    }

    /// A dialog: title bar and system menu, not resizable.
    pub fn dialog() -> (r: Style)
        ensures
            r.value == WS_OVERLAPPED | WS_CAPTION | WS_SYSMENU,
            r.ex == 0,
    {
        Style { value: WS_OVERLAPPED | WS_CAPTION | WS_SYSMENU, ex: 0 }
    }

    /// A window with no frame.
    pub fn borderless() -> (r: BorderlessStyle) {
        BorderlessStyle
    }

    /// With or without a resizing frame.
    pub fn resizable(self, resizable: bool) -> (r: Style)
        ensures
            r.value == with_flag(self.value, WS_THICKFRAME, resizable),
            r.ex == self.ex,
    {
        Style { value: set_flag(self.value, WS_THICKFRAME, resizable), ex: self.ex }
    }

    /// With or without a minimize box.
    pub fn has_minimize_box(self, flag: bool) -> (r: Style)
        ensures
            r.value == with_flag(self.value, WS_MINIMIZEBOX, flag),
            r.ex == self.ex,
    {
        Style { value: set_flag(self.value, WS_MINIMIZEBOX, flag), ex: self.ex }
    }

    /// With or without a maximize box.
    pub fn has_maximize_box(self, flag: bool) -> (r: Style)
        ensures
            r.value == with_flag(self.value, WS_MAXIMIZEBOX, flag),
            r.ex == self.ex,
    {
        Style { value: set_flag(self.value, WS_MAXIMIZEBOX, flag), ex: self.ex }
    }
}

fn set_flag(v: u32, flag: u32, on: bool) -> (r: u32)
    ensures
        r == with_flag(v, flag, on),
{
    if on {
        v | flag
    } else {
        v & !flag
    }
}

impl Default for Style {
    fn default() -> (r: Style)
        ensures
            r.value == WS_OVERLAPPEDWINDOW,
            r.ex == 0,
    {
        Style::new()
    }
}

impl StyleObject for Style {
    open spec fn spec_value(&self) -> u32 {
        self.value
    }

    open spec fn spec_ex(&self) -> u32 {
        self.ex
    }

    fn value(&self) -> (r: u32) {
        self.value
    }

    fn ex(&self) -> (r: u32) {
        self.ex
    }
}

/// The size a window is asked to have, in logical or in physical pixels.
#[derive(Clone, Copy, Debug)]
pub enum WindowSize {
    Logical(LogicalSize<u32>),
    Physical(PhysicalSize<u32>),
}

impl WindowSize {
    /// Whether the size can be brought to physical pixels at `dpi` without overflow.
    pub open spec fn fits_at(self, dpi: u32) -> bool {
        match self {
            WindowSize::Logical(s) => s.0.width * dpi <= u32::MAX && s.0.height * dpi <= u32::MAX,
            WindowSize::Physical(_) => true,
        }
    }

    /// The size in physical pixels at resolution `dpi`.
    pub fn to_physical(&self, dpi: u32) -> (r: PhysicalSize<u32>)
        requires
            self.fits_at(dpi),
        ensures
            match *self {
                WindowSize::Logical(s) => r.0.width == s.0.width * dpi / (DEFAULT_DPI as int)
                    && r.0.height == s.0.height * dpi / (DEFAULT_DPI as int),
                WindowSize::Physical(s) => r == s,
            },
    {
        match self {
            WindowSize::Logical(s) => s.to_physical(dpi),
            WindowSize::Physical(s) => *s,
        }
    }
}

/// How a window is to be created.
#[derive(Clone, Debug)]
pub struct Builder {
    pub title: String,
    pub position: ScreenPoint<i32>,
    pub size: WindowSize,
    pub visibility: bool,
    pub icon: Option<Icon>,
    pub cursor: Option<Cursor>,
    pub enable_ime: bool,
    pub ime_composition_window_visibility: bool,
    pub ime_candidate_window_visibility: bool,
    pub accept_drop_files: bool,
    pub style: Style,
}

impl Builder {
    /// An untitled, visible, overlapped 640 by 480 logical-pixel window at the screen's
    /// origin, with the arrow cursor and the input method enabled and its windows shown.
    pub fn new() -> (r: Builder)
        ensures
            r.title@ == Seq::<char>::empty(),
            r.position == Screen(Point { x: 0i32, y: 0i32 }),
            r.size == WindowSize::Logical(Logical(Size { width: 640u32, height: 480u32 })),
            r.visibility,
            r.icon is None,
            r.cursor == Some(Cursor::Arrow),
            r.enable_ime,
            r.ime_composition_window_visibility,
            r.ime_candidate_window_visibility,
            !r.accept_drop_files,
            r.style.value == WS_OVERLAPPEDWINDOW,
            r.style.ex == 0,
    {
        Builder {
            title: String::new(),
            position: Screen(Point::new(0, 0)),
            size: WindowSize::Logical(Logical(Size::new(640, 480))),
            visibility: true,
            icon: None,
            cursor: Some(Cursor::Arrow),
            enable_ime: true,
            ime_composition_window_visibility: true,
            ime_candidate_window_visibility: true,
            accept_drop_files: false,
            style: Style::new(),
        }
    }

    pub fn title(self, title: &str) -> (r: Builder)
        ensures
            r.title@ == title@,
            r.position == self.position,
            r.style == self.style,
    {
        Builder { title: title.to_string(), ..self }
    }

    pub fn position(self, position: ScreenPoint<i32>) -> (r: Builder)
        ensures
            r.position == position,
            r.title == self.title,
    {
        Builder { position, ..self }
    }

    pub fn size(self, size: WindowSize) -> (r: Builder)
        ensures
            r.size == size,
            r.title == self.title,
    {
        Builder { size, ..self }
    }

    pub fn visible(self, visibility: bool) -> (r: Builder)
        ensures
            r.visibility == visibility,
            r.title == self.title,
    {
        Builder { visibility, ..self }
    }

    pub fn icon(self, icon: Icon) -> (r: Builder)
        ensures
            r.icon == Some(icon),
            r.title == self.title,
    {
        Builder { icon: Some(icon), ..self }
    }

    pub fn cursor(self, cursor: Option<Cursor>) -> (r: Builder)
        ensures
            r.cursor == cursor,
            r.title == self.title,
    {
        Builder { cursor, ..self }
    }

    pub fn enable_ime(self, enable: bool) -> (r: Builder)
        ensures
            r.enable_ime == enable,
            r.title == self.title,
    {
        Builder { enable_ime: enable, ..self }
    }

    pub fn visible_ime_composition_window(self, visibility: bool) -> (r: Builder)
        ensures
            r.ime_composition_window_visibility == visibility,
            r.title == self.title,
    {
        Builder { ime_composition_window_visibility: visibility, ..self }
    }

    pub fn visible_ime_candidate_window(self, visibility: bool) -> (r: Builder)
        ensures
            r.ime_candidate_window_visibility == visibility,
            r.title == self.title,
    {
        Builder { ime_candidate_window_visibility: visibility, ..self }
    }

    pub fn accept_drop_files(self, flag: bool) -> (r: Builder)
        ensures
            r.accept_drop_files == flag,
            r.title == self.title,
    {
        Builder { accept_drop_files: flag, ..self }
    }

    /// Takes the style bits of `object`.
    pub fn style<S: StyleObject>(self, object: S) -> (r: Builder)
        ensures
            r.style.value == object.spec_value(),
            r.style.ex == object.spec_ex(),
            r.title == self.title,
    {
        let value = object.value();
        let ex = object.ex();
        Builder { style: Style { value, ex }, ..self }
    }

    /// What the dispatcher keeps of the builder once the window exists.
    pub fn config(&self) -> (r: WindowConfig)
        ensures
            r.cursor == self.cursor,
            r.enable_ime == self.enable_ime,
            r.ime_composition_window_visibility == self.ime_composition_window_visibility,
            r.ime_candidate_window_visibility == self.ime_candidate_window_visibility,
    {
        WindowConfig {
            cursor: self.cursor,
            enable_ime: self.enable_ime,
            ime_composition_window_visibility: self.ime_composition_window_visibility,
            ime_candidate_window_visibility: self.ime_candidate_window_visibility,
        }
    }
}

} // verus!
