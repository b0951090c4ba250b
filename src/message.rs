//! Reading the fields that the windowing system packs into a message's two parameters,
//! and building the events that the message reports.
use vstd::prelude::*;

use crate::device::{
    ButtonState, KeyCode, MouseButton, MouseButtons, MouseState, VirtualKey, VirtualKeyCode,
};
use crate::event::{Event, KeyInput, MouseInput, MouseWheel};
use crate::geometry::{Physical, PhysicalPoint, PhysicalSize, Point, Size};

verus! {

/// Button-state flags of a mouse message: left, right, middle, first and second extra.
pub const MK_LBUTTON: u32 = 0x0001;

pub const MK_RBUTTON: u32 = 0x0002;

pub const MK_MBUTTON: u32 = 0x0010;

pub const MK_XBUTTON1: u32 = 0x0020;

pub const MK_XBUTTON2: u32 = 0x0040;

/// Input-method context flags: show the composition window, show all candidate windows.
pub const ISC_SHOWUICOMPOSITIONWINDOW: u32 = 0x8000_0000;

pub const ISC_SHOWUIALLCANDIDATEWINDOW: u32 = 0x0000_000f;

/// The low 16 bits of `x`, as a signed value.
pub fn loword(x: i32) -> (r: i16)
    ensures
        r == (x & 0xffff) as i16,
{
    (x & 0xffff) as i16
}

/// Bits 16 to 31 of `x`, as a signed value.
pub fn hiword(x: i32) -> (r: i16)
    ensures
        r == ((x >> 16) & 0xffff) as i16,
{
    ((x >> 16) & 0xffff) as i16
}

/// The horizontal coordinate packed into a pointer message's `lparam`.
pub fn x_lparam(lparam: isize) -> (r: i16)
    ensures
        r == ((lparam as i32) & 0xffff) as i16,
{
    loword(lparam as i32)
}

/// The vertical coordinate packed into a pointer message's `lparam`.
pub fn y_lparam(lparam: isize) -> (r: i16)
    ensures
        r == (((lparam as i32) >> 16) & 0xffff) as i16,
{
    hiword(lparam as i32)
}

/// The point packed into a pointer message's `lparam`, in client coordinates.
pub fn lparam_to_point(lparam: isize) -> (r: PhysicalPoint<i32>)
    ensures
        r.0.x == ((lparam as i32) & 0xffff) as i16 as i32,
        r.0.y == (((lparam as i32) >> 16) & 0xffff) as i16 as i32,
{
    Physical(Point::new(x_lparam(lparam) as i32, y_lparam(lparam) as i32))
}

/// The wheel turn packed into a wheel message's `wparam`.
pub fn wheel_delta(wparam: usize) -> (r: i16)
    ensures
        r == (((wparam as i32) >> 16) & 0xffff) as i16,
{
    hiword(wparam as i32)
}

/// The button-state flags packed into a pointer message's `wparam`.
pub fn button_states(wparam: usize) -> (r: u32)
    ensures
        r == ((wparam as i32) & 0xffff) as i16 as u32,
{
    loword(wparam as i32) as u32
}

/// The mask of `b` when `flag` is set in `v`, else zero.
fn button_bit(v: u32, flag: u32, b: MouseButton) -> (r: u32)
    ensures
        r == flag_bit(v, flag, b),
{
    if v & flag != 0 {
        b.bits()
    } else {
        0
    }
}

/// The set of mouse buttons held down, from the button-state flags of a pointer
/// message's `wparam`: each flag that is set puts its button in the set.
pub fn mouse_buttons(wparam: usize) -> (r: MouseButtons)
    ensures
        r == mouse_buttons_spec(wparam),
{
    let v = button_states(wparam);
    let bits: u32 = 0u32 | button_bit(v, MK_LBUTTON, MouseButton::Left) | button_bit(
        v,
        MK_RBUTTON,
        MouseButton::Right,
    ) | button_bit(v, MK_MBUTTON, MouseButton::Middle) | button_bit(v, MK_XBUTTON1, MouseButton::Ex0)
        | button_bit(v, MK_XBUTTON2, MouseButton::Ex1);
    MouseButtons(bits)
}

/// Where the pointer is and which buttons are down, from a pointer message.
pub fn mouse_state(wparam: usize, lparam: isize) -> (r: MouseState)
    ensures
        r.position == lparam_to_point_spec(lparam),
        r.buttons == mouse_buttons_spec(wparam),
{
    MouseState { position: lparam_to_point(lparam), buttons: mouse_buttons(wparam) }
}

/// The point packed into `lparam`.
pub open spec fn lparam_to_point_spec(lparam: isize) -> PhysicalPoint<i32> {
    Physical(
        Point {
            x: ((lparam as i32) & 0xffff) as i16 as i32,
            y: (((lparam as i32) >> 16) & 0xffff) as i16 as i32,
        },
    )
}

/// The mask of `b` when `flag` is set in `v`, else zero.
pub open spec fn flag_bit(v: u32, flag: u32, b: MouseButton) -> u32 {
    if v & flag != 0 {
        b.spec_bits()
    } else {
        0
    }
}

/// The buttons whose flags are set in `wparam`.
pub open spec fn mouse_buttons_spec(wparam: usize) -> MouseButtons {
    let v = ((wparam as i32) & 0xffff) as i16 as u32;
    MouseButtons(
        0u32 | flag_bit(v, MK_LBUTTON, MouseButton::Left) | flag_bit(v, MK_RBUTTON, MouseButton::Right)
            | flag_bit(v, MK_MBUTTON, MouseButton::Middle) | flag_bit(v, MK_XBUTTON1, MouseButton::Ex0)
            | flag_bit(v, MK_XBUTTON2, MouseButton::Ex1),
    )
}

/// Which extra button an extra-button message names: the first is `Ex0`. `None` when
/// the number packed into `wparam` names no extra button.
pub fn xbutton(wparam: usize) -> (r: Option<MouseButton>)
    ensures
        ({
            let n = (((wparam as i32) >> 16) & 0xffff) as i16 as u32;
            &&& 1 <= n <= 29 ==> (r matches Some(b) && b.spec_index() == n + 2)
            &&& !(1 <= n <= 29) ==> r is None
        }),
{
    let n = hiword(wparam as i32) as u32;
    if n >= 1 && n <= 29 {
        Some(MouseButton::ex(n - 1))
    } else {
        None
    }
}

/// The event of a button message: which button, whether it went down or up, and the
/// pointer's state.
pub fn mouse_input_event(
    button: MouseButton,
    button_state: ButtonState,
    wparam: usize,
    lparam: isize,
) -> (r: Event)
    ensures
        r == Event::MouseInput(
            MouseInput {
                button,
                button_state,
                mouse_state: MouseState {
                    position: lparam_to_point_spec(lparam),
                    buttons: mouse_buttons_spec(wparam),
                },
            },
        ),
{
    Event::MouseInput(MouseInput { button, button_state, mouse_state: mouse_state(wparam, lparam) })
}

/// The event of a wheel message, for the horizontal wheel when `horizontal` holds.
pub fn wheel_event(horizontal: bool, wparam: usize, lparam: isize) -> (r: Event)
    ensures
        ({
            let w = MouseWheel {
                delta: (((wparam as i32) >> 16) & 0xffff) as i16,
                mouse_state: MouseState {
                    position: lparam_to_point_spec(lparam),
                    buttons: mouse_buttons_spec(wparam),
                },
            };
            r == if horizontal {
                Event::MouseHWheel(w)
            } else {
                Event::MouseWheel(w)
            }
        }),
{
    let w = MouseWheel { delta: wheel_delta(wparam), mouse_state: mouse_state(wparam, lparam) };
    if horizontal {
        Event::MouseHWheel(w)
    } else {
        Event::MouseWheel(w)
    }
}

/// Virtual-key codes that a key message reports for a modifier without saying which
/// side: shift, control, alt.
pub const VK_SHIFT: u32 = 0x10;

pub const VK_CONTROL: u32 = 0x11;

pub const VK_MENU: u32 = 0x12;

/// The scan code packed into a key message's `lparam`.
pub open spec fn scan_code_of(lparam: isize) -> u32 {
    ((lparam >> 16) & 0xff) as u32
}

/// Whether a key message's `lparam` marks an extended key (the right-hand modifiers).
pub open spec fn is_extended(lparam: isize) -> bool {
    (lparam >> 24) & 0x01 != 0
}

/// Whether a key message's `lparam` says the key was down before the message.
pub open spec fn was_down(lparam: isize) -> bool {
    (lparam >> 30) & 0x01 != 0
}

/// The side-specific virtual-key code of a key message. A control or alt key becomes
/// its left or right key by the extended flag; a shift key becomes `shift_by_scan_code`,
/// the code that the system maps the message's scan code to.
pub open spec fn side_key(vkey: u32, extended: bool, shift_by_scan_code: u32) -> u32 {
    if vkey == VK_SHIFT {
        shift_by_scan_code
    } else if vkey == VK_CONTROL {
        if extended {
            VirtualKey::RCtrl.spec_code()
        } else {
            VirtualKey::LCtrl.spec_code()
        }
    } else if vkey == VK_MENU {
        if extended {
            VirtualKey::RAlt.spec_code()
        } else {
            VirtualKey::LAlt.spec_code()
        }
    } else {
        vkey
    }
}

/// The event of a key message. `state` says whether the message reports a key going
/// down or up; `shift_by_scan_code` is the virtual-key code that the system maps the
/// message's scan code to, used for the shift keys.
pub fn key_input_event(state: ButtonState, wparam: usize, lparam: isize, shift_by_scan_code: u32) -> (r:
    KeyInput)
    ensures
        r.state == state,
        r.key_code.scan_code == scan_code_of(lparam),
        r.key_code.vkey == VirtualKeyCode(
            side_key(wparam as u32, is_extended(lparam), shift_by_scan_code),
        ),
        r.prev_state == if was_down(lparam) {
            ButtonState::Pressed
        } else {
            ButtonState::Released
        },
{
    let scan_code = ((lparam >> 16) & 0xff) as u32;
    let extended = (lparam >> 24) & 0x01 != 0;
    let v = wparam as u32;
    let vkey = if v == VK_SHIFT {
        shift_by_scan_code
    } else if v == VK_CONTROL {
        if extended {
            VirtualKey::RCtrl.code()
        } else {
            VirtualKey::LCtrl.code()
        }
    } else if v == VK_MENU {
        if extended {
            VirtualKey::RAlt.code()
        } else {
            VirtualKey::LAlt.code()
        }
    } else {
        v
    };
    let prev_state = if (lparam >> 30) & 0x01 != 0 {
        ButtonState::Pressed
    } else {
        ButtonState::Released
    };
    KeyInput { state, key_code: KeyCode { vkey: VirtualKeyCode(vkey), scan_code }, prev_state }
}

/// Whether `v` is a Unicode scalar value, the values that a `char` can hold.
pub open spec fn is_scalar_value(v: u32) -> bool {
    v < 0xd800 || (0xe000 <= v && v <= 0x10ffff)
}

/// Relies on `char::from_u32`: `Some` exactly for the Unicode scalar values, holding
/// the character with that code.
#[verifier::external_body]
fn char_from_u32(v: u32) -> (r: Option<char>)
    ensures
        r is Some == is_scalar_value(v),
        r is Some ==> r->0 as u32 == v,
{
    char::from_u32(v)
}

/// The character of a character message, when its code is a Unicode scalar value.
pub fn char_of(wparam: usize) -> (r: Option<char>)
    ensures
        is_scalar_value(wparam as u32) ==> (r matches Some(c) && c as u32 == wparam as u32),
        !is_scalar_value(wparam as u32) ==> r is None,
{
    char_from_u32(wparam as u32)
}

/// The client size packed into a size message's `lparam`.
pub fn size_of(lparam: isize) -> (r: PhysicalSize<u32>)
    ensures
        r.0.width == ((lparam as i32) & 0xffff) as i16 as u32,
        r.0.height == (((lparam as i32) >> 16) & 0xffff) as i16 as u32,
{
    let value = lparam as i32;
    Physical(Size::new(loword(value) as u32, hiword(value) as u32))
}

/// The event of an activation message: the low word of `wparam` is zero when the window
/// lost the activation.
pub fn activate_event(wparam: usize) -> (r: Event)
    ensures
        ((wparam as i32) & 0xffff) as i16 as u32 == 0 ==> r is Inactivated,
        ((wparam as i32) & 0xffff) as i16 as u32 != 0 ==> r is Activated,
{
    if loword(wparam as i32) as u32 == 0 {
        Event::Inactivated
    } else {
        Event::Activated
    }
}

/// The input-method context flags to pass on, with the flags of the input method's own
/// windows cleared where the window hides them.
pub fn ime_context_flags(
    lparam: isize,
    composition_window_visible: bool,
    candidate_window_visible: bool,
) -> (r: u32)
    ensures
        r == ((lparam as u32) & (if composition_window_visible {
            0xffff_ffffu32
        } else {
            !ISC_SHOWUICOMPOSITIONWINDOW
        }) & (if candidate_window_visible {
            0xffff_ffffu32
        } else {
            !ISC_SHOWUIALLCANDIDATEWINDOW
        })),
{
    let v = lparam as u32;
    let a: u32 = if composition_window_visible {
        0xffff_ffff
    } else {
        !ISC_SHOWUICOMPOSITIONWINDOW
    };
    let b: u32 = if candidate_window_visible {
        0xffff_ffff
    } else {
        !ISC_SHOWUIALLCANDIDATEWINDOW
    };
    v & a & b
}

/// A client size of `width` by `height` at resolution `prev_dpi`, scaled to resolution
/// `next_dpi` with Rust's integer division.
pub fn scale_client_size(width: i32, height: i32, next_dpi: i32, prev_dpi: i32) -> (r:
    PhysicalSize<u32>)
    requires
        prev_dpi > 0,
        i32::MIN <= width * next_dpi <= i32::MAX,
        i32::MIN <= height * next_dpi <= i32::MAX,
    ensures
        r.0.width == crate::geometry::trunc_div(width * next_dpi, prev_dpi as int) as i32 as u32,
        r.0.height == crate::geometry::trunc_div(height * next_dpi, prev_dpi as int) as i32 as u32,
{
    let w = crate::geometry::div_toward_zero(width * next_dpi, prev_dpi);
    let h = crate::geometry::div_toward_zero(height * next_dpi, prev_dpi);
    Physical(Size::new(w as u32, h as u32))
}

} // verus!
