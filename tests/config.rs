use awita::context::Context;
use awita::device::{MouseButton, MouseButtons};
use awita::error::Error;
use awita::event::{Event, EventKind};
use awita::geometry::{Logical, Physical, Point, Screen, Size};
use awita::ime::{Attribute, CandidateList, Composition};
use awita::resource::{Cursor, Icon};
use awita::style::{
    Builder, Style, StyleObject, WindowSize, WS_MAXIMIZEBOX, WS_MINIMIZEBOX, WS_OVERLAPPEDWINDOW,
    WS_POPUP, WS_THICKFRAME,
};
use awita::window::WindowHandle;

#[test]
fn styles_set_and_clear_bits() {
    let s = Style::new();
    assert_eq!(s.value(), WS_OVERLAPPEDWINDOW);
    let fixed = s.resizable(false).has_maximize_box(false);
    assert_eq!(fixed.value & WS_THICKFRAME, 0);
    assert_eq!(fixed.value & WS_MAXIMIZEBOX, 0);
    assert_eq!(fixed.value & WS_MINIMIZEBOX, WS_MINIMIZEBOX);
    let back = fixed.resizable(true).has_minimize_box(false);
    assert_eq!(back.value & WS_THICKFRAME, WS_THICKFRAME);
    assert_eq!(back.value & WS_MINIMIZEBOX, 0);
    assert_eq!(Style::dialog().value, 0x00c8_0000);
    assert_eq!(Style::borderless().value(), WS_POPUP);
    assert_eq!(Style::borderless().ex(), 0);
    assert_eq!(Style::default().value, WS_OVERLAPPEDWINDOW);
}

#[test]
fn builder_defaults_and_setters() {
    let b = Builder::new();
    assert_eq!(b.title, "");
    assert!(b.visibility);
    assert!(b.cursor == Some(Cursor::Arrow));
    assert!(!b.accept_drop_files);
    let b = b
        .title("hello")
        .position(Screen(Point::new(10, 20)))
        .size(WindowSize::Physical(Physical(Size::new(300, 200))))
        .visible(false)
        .icon(Icon::Resource(3))
        .cursor(None)
        .enable_ime(false)
        .visible_ime_composition_window(false)
        .visible_ime_candidate_window(false)
        .accept_drop_files(true)
        .style(Style::borderless());
    assert_eq!(b.title, "hello");
    assert_eq!(b.position.x, 10);
    assert!(!b.visibility);
    assert!(b.icon == Some(Icon::Resource(3)));
    assert!(b.accept_drop_files);
    assert_eq!(b.style.value, WS_POPUP);
    let c = b.config();
    assert!(c.cursor.is_none());
    assert!(!c.enable_ime);
    assert!(!c.ime_composition_window_visibility);
    let s = b.size.to_physical(192);
    assert_eq!((s.width, s.height), (300, 200));
    let logical = WindowSize::Logical(Logical(Size::new(640, 480))).to_physical(192);
    assert_eq!((logical.width, logical.height), (1280, 960));
    assert!(Cursor::default() == Cursor::Arrow);
}

#[test]
fn released_receiver_reads_closed_through_context() {
    let mut ctx = Context::new();
    let w = WindowHandle(2);
    ctx.insert_window(w, Builder::new().config());
    assert!(!ctx.window_map_is_empty());
    assert!(ctx.get_window(w).is_some());
    let rx = ctx.subscribe(w, EventKind::Draw);
    let other = ctx.subscribe(w, EventKind::Draw);
    ctx.deliver(w, Event::Draw);
    ctx.release(rx);
    assert_eq!(ctx.try_recv(rx).err(), Some(Error::Closed));
    assert!(matches!(ctx.try_recv(other), Ok(Some(Event::Draw))));
}

#[test]
fn button_lists_follow_bits() {
    let b = MouseButton::Ex3 | MouseButton::Left;
    assert!(b.to_vec() == vec![MouseButton::Left, MouseButton::Ex3]);
    assert!(MouseButtons(0).to_vec().is_empty());
}

#[test]
fn composition_and_candidates_iterate_in_order() {
    let c = Composition::new(&['x', 'y'], &[Attribute::Input, Attribute::Converted]);
    let chars: Vec<char> = c.iter().map(|ch| ch.c).collect();
    assert_eq!(chars, vec!['x', 'y']);
    assert_eq!(c.as_slice().len(), 2);
    let l = CandidateList::new(vec!["a".to_string()], 0);
    assert_eq!(l.iter().count(), 1);
    assert_eq!(l.as_slice()[0], "a");
}

#[test]
fn removing_a_window_keeps_others() {
    let mut ctx = Context::new();
    ctx.insert_window(WindowHandle(1), Builder::new().config());
    ctx.insert_window(WindowHandle(2), Builder::new().config());
    assert!(ctx.remove_window(WindowHandle(1)).is_some());
    assert!(ctx.remove_window(WindowHandle(1)).is_none());
    assert!(!ctx.is_closed(WindowHandle(2)));
    assert!(!ctx.window_map_is_empty());
}
