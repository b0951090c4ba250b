//! Mouse buttons, button masks and virtual-key codes.
use vstd::prelude::*;

use crate::geometry::PhysicalPoint;

verus! {

/// Whether a mouse button or a key is down or up.
#[derive(Clone, Copy, PartialEq, Eq, Structural, Hash, Debug)]
pub enum ButtonState {
    Pressed,
    Released,
}

/// The state of a key; keys and buttons share the two states.
pub type KeyState = ButtonState;

/// A mouse button. Each button owns one bit of a 32-bit button mask:
/// `Left` bit 0, `Right` bit 1, `Middle` bit 2 and `ExN` bit `3 + N`.
#[derive(Clone, Copy, PartialEq, Eq, Structural, Hash, Debug)]
pub enum MouseButton {
    Left,
    Right,
    Middle,
    Ex0,
    Ex1,
    Ex2,
    Ex3,
    Ex4,
    Ex5,
    Ex6,
    Ex7,
    Ex8,
    Ex9,
    Ex10,
    Ex11,
    Ex12,
    Ex13,
    Ex14,
    Ex15,
    Ex16,
    Ex17,
    Ex18,
    Ex19,
    Ex20,
    Ex21,
    Ex22,
    Ex23,
    Ex24,
    Ex25,
    Ex26,
    Ex27,
    Ex28,
}

/// A 32-bit mask with exactly one bit set.
pub open spec fn is_single_bit(n: u32) -> bool {
    exists|i: u32| i < 32 && n == #[trigger] (1u32 << i)
}

impl MouseButton {
    /// The bit position of the button in a button mask.
    pub open spec fn spec_index(self) -> u32 {
        match self {
            MouseButton::Left => 0,
            MouseButton::Right => 1,
            MouseButton::Middle => 2,
            MouseButton::Ex0 => 3,
            MouseButton::Ex1 => 4,
            MouseButton::Ex2 => 5,
            MouseButton::Ex3 => 6,
            MouseButton::Ex4 => 7,
            MouseButton::Ex5 => 8,
            MouseButton::Ex6 => 9,
            MouseButton::Ex7 => 10,
            MouseButton::Ex8 => 11,
            MouseButton::Ex9 => 12,
            MouseButton::Ex10 => 13,
            MouseButton::Ex11 => 14,
            MouseButton::Ex12 => 15,
            MouseButton::Ex13 => 16,
            MouseButton::Ex14 => 17,
            MouseButton::Ex15 => 18,
            MouseButton::Ex16 => 19,
            MouseButton::Ex17 => 20,
            MouseButton::Ex18 => 21,
            MouseButton::Ex19 => 22,
            MouseButton::Ex20 => 23,
            MouseButton::Ex21 => 24,
            MouseButton::Ex22 => 25,
            MouseButton::Ex23 => 26,
            MouseButton::Ex24 => 27,
            MouseButton::Ex25 => 28,
            MouseButton::Ex26 => 29,
            MouseButton::Ex27 => 30,
            MouseButton::Ex28 => 31,
        }
    }

    /// The button that owns bit `i` of a mask.
    pub open spec fn button_at(i: u32) -> MouseButton {
        match i {
            0 => MouseButton::Left,
            1 => MouseButton::Right,
            2 => MouseButton::Middle,
            3 => MouseButton::Ex0,
            4 => MouseButton::Ex1,
            5 => MouseButton::Ex2,
            6 => MouseButton::Ex3,
            7 => MouseButton::Ex4,
            8 => MouseButton::Ex5,
            9 => MouseButton::Ex6,
            10 => MouseButton::Ex7,
            11 => MouseButton::Ex8,
            12 => MouseButton::Ex9,
            13 => MouseButton::Ex10,
            14 => MouseButton::Ex11,
            15 => MouseButton::Ex12,
            16 => MouseButton::Ex13,
            17 => MouseButton::Ex14,
            18 => MouseButton::Ex15,
            19 => MouseButton::Ex16,
            20 => MouseButton::Ex17,
            21 => MouseButton::Ex18,
            22 => MouseButton::Ex19,
            23 => MouseButton::Ex20,
            24 => MouseButton::Ex21,
            25 => MouseButton::Ex22,
            26 => MouseButton::Ex23,
            27 => MouseButton::Ex24,
            28 => MouseButton::Ex25,
            29 => MouseButton::Ex26,
            30 => MouseButton::Ex27,
            _ => MouseButton::Ex28,
        }
    }

    /// The one-bit mask of the button.
    pub open spec fn spec_bits(self) -> u32 {
        1u32 << self.spec_index()
    }

    /// The bit position of the button in a button mask.
    pub fn index(self) -> (r: u32)
        ensures
            r == self.spec_index(),
            r < 32,
    {
        match self {
            MouseButton::Left => 0,
            MouseButton::Right => 1,
            MouseButton::Middle => 2,
            MouseButton::Ex0 => 3,
            MouseButton::Ex1 => 4,
            MouseButton::Ex2 => 5,
            MouseButton::Ex3 => 6,
            MouseButton::Ex4 => 7,
            MouseButton::Ex5 => 8,
            MouseButton::Ex6 => 9,
            MouseButton::Ex7 => 10,
            MouseButton::Ex8 => 11,
            MouseButton::Ex9 => 12,
            MouseButton::Ex10 => 13,
            MouseButton::Ex11 => 14,
            MouseButton::Ex12 => 15,
            MouseButton::Ex13 => 16,
            MouseButton::Ex14 => 17,
            MouseButton::Ex15 => 18,
            MouseButton::Ex16 => 19,
            MouseButton::Ex17 => 20,
            MouseButton::Ex18 => 21,
            MouseButton::Ex19 => 22,
            MouseButton::Ex20 => 23,
            MouseButton::Ex21 => 24,
            MouseButton::Ex22 => 25,
            MouseButton::Ex23 => 26,
            MouseButton::Ex24 => 27,
            MouseButton::Ex25 => 28,
            MouseButton::Ex26 => 29,
            MouseButton::Ex27 => 30,
            MouseButton::Ex28 => 31,
        }
    }

    /// The one-bit mask of the button.
    pub fn bits(self) -> (r: u32)
        ensures
            r == self.spec_bits(),
    {
        1u32 << self.index()
    }

    /// The button that owns bit `i` of a mask.
    pub fn from_index(i: u32) -> (r: MouseButton)
        requires
            i < 32,
        ensures
            r.spec_index() == i,
            r == MouseButton::button_at(i),
    {
        match i {
            0 => MouseButton::Left,
            1 => MouseButton::Right,
            2 => MouseButton::Middle,
            3 => MouseButton::Ex0,
            4 => MouseButton::Ex1,
            5 => MouseButton::Ex2,
            6 => MouseButton::Ex3,
            7 => MouseButton::Ex4,
            8 => MouseButton::Ex5,
            9 => MouseButton::Ex6,
            10 => MouseButton::Ex7,
            11 => MouseButton::Ex8,
            12 => MouseButton::Ex9,
            13 => MouseButton::Ex10,
            14 => MouseButton::Ex11,
            15 => MouseButton::Ex12,
            16 => MouseButton::Ex13,
            17 => MouseButton::Ex14,
            18 => MouseButton::Ex15,
            19 => MouseButton::Ex16,
            20 => MouseButton::Ex17,
            21 => MouseButton::Ex18,
            22 => MouseButton::Ex19,
            23 => MouseButton::Ex20,
            24 => MouseButton::Ex21,
            25 => MouseButton::Ex22,
            26 => MouseButton::Ex23,
            27 => MouseButton::Ex24,
            28 => MouseButton::Ex25,
            29 => MouseButton::Ex26,
            30 => MouseButton::Ex27,
            _ => MouseButton::Ex28,
        }
    }

    /// The extra button number `n`, counted from zero.
    pub fn ex(n: u32) -> (r: MouseButton)
        requires
            n <= 28,
        ensures
            r.spec_index() == n + 3,
            r.spec_bits() == 1u32 << (n + 3),
    {
        MouseButton::from_index(n + 3)
    }

    /// The button whose one-bit mask is `n`.
    pub fn from_u32(n: u32) -> (r: MouseButton)
        requires
            is_single_bit(n),
        ensures
            r.spec_bits() == n,
    {
        let mut i: u32 = 0;
        while i < 32
            invariant
                i <= 32,
                forall|j: u32| j < i ==> n != #[trigger] (1u32 << j),
            decreases 32 - i,
        {
            if (1u32 << i) == n {
                return MouseButton::from_index(i);
            }
            i = i + 1;
        }
        proof {
            let w = choose|w: u32| w < 32 && n == #[trigger] (1u32 << w);
            assert(n != (1u32 << w));
        }
        MouseButton::Left
    }
}

/// The one-bit masks of a sequence of buttons, or-ed together.
pub open spec fn mask_of(s: Seq<MouseButton>) -> u32
    decreases s.len(),
{
    if s.len() == 0 {
        0
    } else {
        mask_of(s.drop_last()) | s.last().spec_bits()
    }
}

proof fn lemma_button_at_index(b: MouseButton)
    ensures
        MouseButton::button_at(b.spec_index()) == b,
        b.spec_index() < 32,
{
}

/// Or-ing in the bit of button `m` sets that bit and leaves every other bit as it was.
proof fn lemma_or_bit(x: u32, m: u32, i: u32)
    requires
        m < 32,
        i < 32,
    ensures
        ((x | (1u32 << m)) & (1u32 << i) == (1u32 << i)) == ((x & (1u32 << i) == (1u32 << i))
            || i == m),
{
    assert(((x | (1u32 << m)) & (1u32 << i) == (1u32 << i)) == ((x & (1u32 << i) == (1u32 << i))
        || i == m)) by (bit_vector)
        requires
            m < 32,
            i < 32,
    ;
}

/// A button's bit is set in the mask of a sequence exactly when the button is in it.
pub proof fn lemma_mask_of_contains(s: Seq<MouseButton>, b: MouseButton)
    ensures
        (mask_of(s) & b.spec_bits() == b.spec_bits()) == s.contains(b),
    decreases s.len(),
{
    lemma_button_at_index(b);
    if s.len() == 0 {
        let i = b.spec_index();
        assert((0u32 & (1u32 << i)) == 0u32 && (1u32 << i) != 0u32) by (bit_vector)
            requires
                i < 32,
        ;
    } else {
        let init = s.drop_last();
        lemma_mask_of_contains(init, b);
        lemma_button_at_index(s.last());
        lemma_or_bit(mask_of(init), s.last().spec_index(), b.spec_index());
        assert(s =~= init.push(s.last()));
        if b == s.last() {
            assert(s.contains(b)) by {
                assert(s[s.len() - 1] == b);
            }
        } else {
            assert(b.spec_index() != s.last().spec_index());
            assert(s.contains(b) == init.contains(b)) by {
                if s.contains(b) {
                    let k = choose|k: int| 0 <= k < s.len() && s[k] == b;
                    assert(init[k] == b);
                }
                if init.contains(b) {
                    let k = choose|k: int| 0 <= k < init.len() && init[k] == b;
                    assert(s[k] == b);
                }
            }
        }
    }
}

/// A set of mouse buttons, held as a mask with one bit per button.
#[derive(Clone, Copy, Debug)]
pub struct MouseButtons(pub u32);

impl MouseButtons {
    /// Whether `button` is in the set.
    pub open spec fn contains_spec(self, button: MouseButton) -> bool {
        self.0 & button.spec_bits() == button.spec_bits()
    }

    /// Whether bit `i` of the mask is set.
    pub open spec fn has(self, i: u32) -> bool {
        self.0 & (1u32 << i) != 0
    }

    /// The set of the given buttons.
    pub fn new(buttons: &[MouseButton]) -> (r: MouseButtons)
        ensures
            r.0 == mask_of(buttons@),
            forall|b: MouseButton| #[trigger] r.contains_spec(b) == buttons@.contains(b),
    {
        let mut bits: u32 = 0;
        let mut k: usize = 0;
        while k < buttons.len()
            invariant
                k <= buttons@.len(),
                bits == mask_of(buttons@.subrange(0, k as int)),
            decreases buttons@.len() - k,
        {
            proof {
                let s = buttons@.subrange(0, k as int + 1);
                assert(s.drop_last() =~= buttons@.subrange(0, k as int));
            }
            bits = bits | buttons[k].bits();
            k = k + 1;
        }
        assert(buttons@.subrange(0, k as int) =~= buttons@);
        proof {
            assert forall|b: MouseButton| #[trigger] MouseButtons(bits).contains_spec(b) == buttons@.contains(b) by {
                lemma_mask_of_contains(buttons@, b);
            }
        }
        MouseButtons(bits)
    }

    /// Whether no button is in the set.
    pub fn is_empty(&self) -> (r: bool)
        ensures
            r == (self.0 == 0),
    {
        self.0 == 0
    }

    /// Whether `button` is in the set.
    pub fn contains(&self, button: MouseButton) -> (r: bool)
        ensures
            r == self.contains_spec(button),
            r == self.has(button.spec_index()),
    {
        let b = button.bits();
        let x = self.0;
        let i = button.index();
        assert((x & (1u32 << i) == (1u32 << i)) == (x & (1u32 << i) != 0)) by (bit_vector)
            requires
                i < 32,
        ;
        (x & b) == b
    }

    /// The buttons among bits `0` to `n - 1` of the set, lowest bit first.
    pub open spec fn buttons_below(self, n: u32) -> Seq<MouseButton>
        decreases n,
    {
        if n == 0 {
            Seq::empty()
        } else if self.has((n - 1) as u32) {
            self.buttons_below((n - 1) as u32).push(MouseButton::button_at((n - 1) as u32))
        } else {
            self.buttons_below((n - 1) as u32)
        }
    }

    /// The buttons of the set, lowest bit first.
    pub fn to_vec(&self) -> (r: Vec<MouseButton>)
        ensures
            r@ == self.buttons_below(32),
    {
        let mut out: Vec<MouseButton> = Vec::new();
        let mut i: u32 = 0;
        while i < 32
            invariant
                i <= 32,
                out@ == self.buttons_below(i),
            decreases 32 - i,
        {
            if self.0 & (1u32 << i) != 0 {
                out.push(MouseButton::from_index(i));
            }
            i = i + 1;
        }
        out
    }

    /// The buttons of the set, in the order of their bits.
    pub fn iter(&self) -> (r: MouseButtonsIter)
        ensures
            r.buttons() == *self,
            r.position() == 0,
    {
        MouseButtonsIter { buttons: *self, index: 0 }
    }
}

impl From<u32> for MouseButtons {
    fn from(src: u32) -> (r: MouseButtons) {
        MouseButtons(src)
    }
}

impl vstd::std_specs::convert::FromSpecImpl<u32> for MouseButtons {
    open spec fn obeys_from_spec() -> bool {
        true
    }

    open spec fn from_spec(v: u32) -> MouseButtons {
        MouseButtons(v)
    }
}

/// Walks the buttons of a set, lowest bit first.
#[derive(Clone)]
pub struct MouseButtonsIter {
    buttons: MouseButtons,
    index: u32,
}

impl MouseButtonsIter {
    /// The set being walked.
    pub closed spec fn buttons(self) -> MouseButtons {
        self.buttons
    }

    /// The first bit not yet looked at.
    pub closed spec fn position(self) -> u32 {
        self.index
    }

    /// The button with the lowest bit at or after the current position, if any.
    pub fn next(&mut self) -> (r: Option<MouseButton>)
        ensures
            final(self).buttons() == old(self).buttons(),
            match r {
                Some(b) => {
                    &&& old(self).position() <= b.spec_index() < 32
                    &&& old(self).buttons().has(b.spec_index())
                    &&& forall|j: u32|
                        old(self).position() <= j < b.spec_index() ==> !old(self).buttons().has(j)
                    &&& final(self).position() == b.spec_index() + 1
                },
                None => {
                    &&& forall|j: u32| old(self).position() <= j < 32 ==> !old(self).buttons().has(j)
                    &&& final(self).position() == old(self).position()
                },
            },
    {
        let start = self.index;
        let mask = self.buttons;
        let mut i: u32 = start;
        while i < 32
            invariant
                i >= start,
                *self == *old(self),
                start == old(self).index,
                mask == old(self).buttons,
                forall|j: u32| start <= j < i ==> !mask.has(j),
            decreases 32 - i,
        {
            if mask.0 & (1u32 << i) != 0 {
                self.index = i + 1;
                return Some(MouseButton::from_index(i));
            }
            i = i + 1;
        }
        None
    }
}

impl std::ops::BitOr<MouseButton> for MouseButton {
    type Output = MouseButtons;

    fn bitor(self, rhs: MouseButton) -> (r: MouseButtons) {
        MouseButtons(self.bits() | rhs.bits())
    }
}

impl vstd::std_specs::ops::BitOrSpecImpl<MouseButton> for MouseButton {
    open spec fn obeys_bitor_spec() -> bool {
        true
    }

    open spec fn bitor_req(self, rhs: MouseButton) -> bool {
        true
    }

    open spec fn bitor_spec(self, rhs: MouseButton) -> MouseButtons {
        MouseButtons(self.spec_bits() | rhs.spec_bits())
    }
}

impl std::ops::BitOr<MouseButton> for MouseButtons {
    type Output = MouseButtons;

    fn bitor(self, rhs: MouseButton) -> (r: MouseButtons) {
        MouseButtons(self.0 | rhs.bits())
    }
}

impl vstd::std_specs::ops::BitOrSpecImpl<MouseButton> for MouseButtons {
    open spec fn obeys_bitor_spec() -> bool {
        true
    }

    open spec fn bitor_req(self, rhs: MouseButton) -> bool {
        true
    }

    open spec fn bitor_spec(self, rhs: MouseButton) -> MouseButtons {
        MouseButtons(self.0 | rhs.spec_bits())
    }
}

impl std::ops::BitOr<MouseButtons> for MouseButton {
    type Output = MouseButtons;

    fn bitor(self, rhs: MouseButtons) -> (r: MouseButtons) {
        MouseButtons(self.bits() | rhs.0)
    }
}

impl vstd::std_specs::ops::BitOrSpecImpl<MouseButtons> for MouseButton {
    open spec fn obeys_bitor_spec() -> bool {
        true
    }

    open spec fn bitor_req(self, rhs: MouseButtons) -> bool {
        true
    }

    open spec fn bitor_spec(self, rhs: MouseButtons) -> MouseButtons {
        MouseButtons(self.spec_bits() | rhs.0)
    }
}

impl std::ops::BitOr<MouseButtons> for MouseButtons {
    type Output = MouseButtons;

    fn bitor(self, rhs: MouseButtons) -> (r: MouseButtons) {
        MouseButtons(self.0 | rhs.0)
    }
}

impl vstd::std_specs::ops::BitOrSpecImpl<MouseButtons> for MouseButtons {
    open spec fn obeys_bitor_spec() -> bool {
        true
    }

    open spec fn bitor_req(self, rhs: MouseButtons) -> bool {
        true
    }

    open spec fn bitor_spec(self, rhs: MouseButtons) -> MouseButtons {
        MouseButtons(self.0 | rhs.0)
    }
}

/// Where the pointer is and which buttons are down.
#[derive(Clone, Copy, Debug)]
pub struct MouseState {
    pub position: PhysicalPoint<i32>,
    pub buttons: MouseButtons,
}

/// A virtual key, named by its code.
#[derive(Clone, Copy, PartialEq, Eq, Structural, Hash, Debug)]
pub enum VirtualKey {
    BackSpace,
    Tab,
    Enter,
    Shift,
    Ctrl,
    Alt,
    Pause,
    CapsLock,
    Esc,
    Space,
    PageUp,
    PageDown,
    End,
    Home,
    Left,
    Up,
    Right,
    Down,
    PrintScreen,
    Insert,
    Delete,
    _0,
    _1,
    _2,
    _3,
    _4,
    _5,
    _6,
    _7,
    _8,
    _9,
    A,
    B,
    C,
    D,
    E,
    F,
    G,
    H,
    I,
    J,
    K,
    L,
    M,
    N,
    O,
    P,
    Q,
    R,
    S,
    T,
    U,
    V,
    W,
    X,
    Y,
    Z,
    NumPad0,
    NumPad1,
    NumPad2,
    NumPad3,
    NumPad4,
    NumPad5,
    NumPad6,
    NumPad7,
    NumPad8,
    NumPad9,
    NumMul,
    NumAdd,
    NumDecimal,
    NumSub,
    NumDiv,
    F1,
    F2,
    F3,
    F4,
    F5,
    F6,
    F7,
    F8,
    F9,
    F10,
    F11,
    F12,
    F13,
    F14,
    F15,
    F16,
    F17,
    F18,
    F19,
    F20,
    F21,
    F22,
    F23,
    F24,
    NumLock,
    ScrollLock,
    LShift,
    RShift,
    LCtrl,
    RCtrl,
    LAlt,
    RAlt,
}

impl VirtualKey {
    /// The virtual-key code of the key.
    pub open spec fn spec_code(self) -> u32 {
        match self {
            VirtualKey::BackSpace => 0x08,
            VirtualKey::Tab => 0x09,
            VirtualKey::Enter => 0x0d,
            VirtualKey::Shift => 0x10,
            VirtualKey::Ctrl => 0x11,
            VirtualKey::Alt => 0x12,
            VirtualKey::Pause => 0x13,
            VirtualKey::CapsLock => 0x14,
            VirtualKey::Esc => 0x1b,
            VirtualKey::Space => 0x20,
            VirtualKey::PageUp => 0x21,
            VirtualKey::PageDown => 0x22,
            VirtualKey::End => 0x23,
            VirtualKey::Home => 0x24,
            VirtualKey::Left => 0x25,
            VirtualKey::Up => 0x26,
            VirtualKey::Right => 0x27,
            VirtualKey::Down => 0x28,
            VirtualKey::PrintScreen => 0x2c,
            VirtualKey::Insert => 0x2d,
            VirtualKey::Delete => 0x2e,
            VirtualKey::_0 => 0x30,
            VirtualKey::_1 => 0x31,
            VirtualKey::_2 => 0x32,
            VirtualKey::_3 => 0x33,
            VirtualKey::_4 => 0x34,
            VirtualKey::_5 => 0x35,
            VirtualKey::_6 => 0x36,
            VirtualKey::_7 => 0x37,
            VirtualKey::_8 => 0x38,
            VirtualKey::_9 => 0x39,
            VirtualKey::A => 0x41,
            VirtualKey::B => 0x42,
            VirtualKey::C => 0x43,
            VirtualKey::D => 0x44,
            VirtualKey::E => 0x45,
            VirtualKey::F => 0x46,
            VirtualKey::G => 0x47,
            VirtualKey::H => 0x48,
            VirtualKey::I => 0x49,
            VirtualKey::J => 0x4a,
            VirtualKey::K => 0x4b,
            VirtualKey::L => 0x4c,
            VirtualKey::M => 0x4d,
            VirtualKey::N => 0x4e,
            VirtualKey::O => 0x4f,
            VirtualKey::P => 0x50,
            VirtualKey::Q => 0x51,
            VirtualKey::R => 0x52,
            VirtualKey::S => 0x53,
            VirtualKey::T => 0x54,
            VirtualKey::U => 0x55,
            VirtualKey::V => 0x56,
            VirtualKey::W => 0x57,
            VirtualKey::X => 0x58,
            VirtualKey::Y => 0x59,
            VirtualKey::Z => 0x5a,
            VirtualKey::NumPad0 => 0x60,
            VirtualKey::NumPad1 => 0x61,
            VirtualKey::NumPad2 => 0x62,
            VirtualKey::NumPad3 => 0x63,
            VirtualKey::NumPad4 => 0x64,
            VirtualKey::NumPad5 => 0x65,
            VirtualKey::NumPad6 => 0x66,
            VirtualKey::NumPad7 => 0x67,
            VirtualKey::NumPad8 => 0x68,
            VirtualKey::NumPad9 => 0x69,
            VirtualKey::NumMul => 0x6a,
            VirtualKey::NumAdd => 0x6b,
            VirtualKey::NumDecimal => 0x6c,
            VirtualKey::NumSub => 0x6d,
            VirtualKey::NumDiv => 0x6e,
            VirtualKey::F1 => 0x70,
            VirtualKey::F2 => 0x71,
            VirtualKey::F3 => 0x72,
            VirtualKey::F4 => 0x73,
            VirtualKey::F5 => 0x74,
            VirtualKey::F6 => 0x75,
            VirtualKey::F7 => 0x76,
            VirtualKey::F8 => 0x77,
            VirtualKey::F9 => 0x78,
            VirtualKey::F10 => 0x79,
            VirtualKey::F11 => 0x7a,
            VirtualKey::F12 => 0x7b,
            VirtualKey::F13 => 0x7c,
            VirtualKey::F14 => 0x7d,
            VirtualKey::F15 => 0x7e,
            VirtualKey::F16 => 0x7f,
            VirtualKey::F17 => 0x80,
            VirtualKey::F18 => 0x81,
            VirtualKey::F19 => 0x82,
            VirtualKey::F20 => 0x83,
            VirtualKey::F21 => 0x84,
            VirtualKey::F22 => 0x85,
            VirtualKey::F23 => 0x86,
            VirtualKey::F24 => 0x87,
            VirtualKey::NumLock => 0x90,
            VirtualKey::ScrollLock => 0x91,
            VirtualKey::LShift => 0xa0,
            VirtualKey::RShift => 0xa1,
            VirtualKey::LCtrl => 0xa2,
            VirtualKey::RCtrl => 0xa3,
            VirtualKey::LAlt => 0xa4,
            VirtualKey::RAlt => 0xa5,
        }
    }

    /// The virtual-key code of the key.
    pub fn code(self) -> (r: u32)
        ensures
            r == self.spec_code(),
    {
        match self {
            VirtualKey::BackSpace => 0x08,
            VirtualKey::Tab => 0x09,
            VirtualKey::Enter => 0x0d,
            VirtualKey::Shift => 0x10,
            VirtualKey::Ctrl => 0x11,
            VirtualKey::Alt => 0x12,
            VirtualKey::Pause => 0x13,
            VirtualKey::CapsLock => 0x14,
            VirtualKey::Esc => 0x1b,
            VirtualKey::Space => 0x20,
            VirtualKey::PageUp => 0x21,
            VirtualKey::PageDown => 0x22,
            VirtualKey::End => 0x23,
            VirtualKey::Home => 0x24,
            VirtualKey::Left => 0x25,
            VirtualKey::Up => 0x26,
            VirtualKey::Right => 0x27,
            VirtualKey::Down => 0x28,
            VirtualKey::PrintScreen => 0x2c,
            VirtualKey::Insert => 0x2d,
            VirtualKey::Delete => 0x2e,
            VirtualKey::_0 => 0x30,
            VirtualKey::_1 => 0x31,
            VirtualKey::_2 => 0x32,
            VirtualKey::_3 => 0x33,
            VirtualKey::_4 => 0x34,
            VirtualKey::_5 => 0x35,
            VirtualKey::_6 => 0x36,
            VirtualKey::_7 => 0x37,
            VirtualKey::_8 => 0x38,
            VirtualKey::_9 => 0x39,
            VirtualKey::A => 0x41,
            VirtualKey::B => 0x42,
            VirtualKey::C => 0x43,
            VirtualKey::D => 0x44,
            VirtualKey::E => 0x45,
            VirtualKey::F => 0x46,
            VirtualKey::G => 0x47,
            VirtualKey::H => 0x48,
            VirtualKey::I => 0x49,
            VirtualKey::J => 0x4a,
            VirtualKey::K => 0x4b,
            VirtualKey::L => 0x4c,
            VirtualKey::M => 0x4d,
            VirtualKey::N => 0x4e,
            VirtualKey::O => 0x4f,
            VirtualKey::P => 0x50,
            VirtualKey::Q => 0x51,
            VirtualKey::R => 0x52,
            VirtualKey::S => 0x53,
            VirtualKey::T => 0x54,
            VirtualKey::U => 0x55,
            VirtualKey::V => 0x56,
            VirtualKey::W => 0x57,
            VirtualKey::X => 0x58,
            VirtualKey::Y => 0x59,
            VirtualKey::Z => 0x5a,
            VirtualKey::NumPad0 => 0x60,
            VirtualKey::NumPad1 => 0x61,
            VirtualKey::NumPad2 => 0x62,
            VirtualKey::NumPad3 => 0x63,
            VirtualKey::NumPad4 => 0x64,
            VirtualKey::NumPad5 => 0x65,
            VirtualKey::NumPad6 => 0x66,
            VirtualKey::NumPad7 => 0x67,
            VirtualKey::NumPad8 => 0x68,
            VirtualKey::NumPad9 => 0x69,
            VirtualKey::NumMul => 0x6a,
            VirtualKey::NumAdd => 0x6b,
            VirtualKey::NumDecimal => 0x6c,
            VirtualKey::NumSub => 0x6d,
            VirtualKey::NumDiv => 0x6e,
            VirtualKey::F1 => 0x70,
            VirtualKey::F2 => 0x71,
            VirtualKey::F3 => 0x72,
            VirtualKey::F4 => 0x73,
            VirtualKey::F5 => 0x74,
            VirtualKey::F6 => 0x75,
            VirtualKey::F7 => 0x76,
            VirtualKey::F8 => 0x77,
            VirtualKey::F9 => 0x78,
            VirtualKey::F10 => 0x79,
            VirtualKey::F11 => 0x7a,
            VirtualKey::F12 => 0x7b,
            VirtualKey::F13 => 0x7c,
            VirtualKey::F14 => 0x7d,
            VirtualKey::F15 => 0x7e,
            VirtualKey::F16 => 0x7f,
            VirtualKey::F17 => 0x80,
            VirtualKey::F18 => 0x81,
            VirtualKey::F19 => 0x82,
            VirtualKey::F20 => 0x83,
            VirtualKey::F21 => 0x84,
            VirtualKey::F22 => 0x85,
            VirtualKey::F23 => 0x86,
            VirtualKey::F24 => 0x87,
            VirtualKey::NumLock => 0x90,
            VirtualKey::ScrollLock => 0x91,
            VirtualKey::LShift => 0xa0,
            VirtualKey::RShift => 0xa1,
            VirtualKey::LCtrl => 0xa2,
            VirtualKey::RCtrl => 0xa3,
            VirtualKey::LAlt => 0xa4,
            VirtualKey::RAlt => 0xa5,
        }
    }
}

/// A virtual-key code as the system reports it.
#[derive(Clone, Copy, PartialEq, Eq, Structural, Hash, Debug)]
pub struct VirtualKeyCode(pub u32);

/// Whether `code` stands for `key`. The generic modifiers `Shift`, `Ctrl` and `Alt` stand for
/// both their left and right keys; any other key stands for its own code only.
pub open spec fn key_matches(code: u32, key: VirtualKey) -> bool {
    match key {
        VirtualKey::Shift => code == VirtualKey::LShift.spec_code() || code
            == VirtualKey::RShift.spec_code(),
        VirtualKey::Ctrl => code == VirtualKey::LCtrl.spec_code() || code
            == VirtualKey::RCtrl.spec_code(),
        VirtualKey::Alt => code == VirtualKey::LAlt.spec_code() || code
            == VirtualKey::RAlt.spec_code(),
        _ => code == key.spec_code(),
    }
}

impl VirtualKeyCode {
    /// The code of a digit key `0` to `8` or of a letter key `A` to `Y`; the
    /// codes of these keys are the character codes of their labels.
    pub fn from_char(c: char) -> (r: Option<VirtualKeyCode>)
        ensures
            0x30 <= (c as u32) && (c as u32) <= 0x38 ==> r == Some(VirtualKeyCode(c as u32)),
            0x41 <= (c as u32) && (c as u32) <= 0x59 ==> r == Some(VirtualKeyCode(c as u32)),
            !(0x30 <= (c as u32) && (c as u32) <= 0x38) && !(0x41 <= (c as u32) && (c as u32)
                <= 0x59) ==> r is None,
    {
        let v: u32 = c as u32;
        let digit_zero: u32 = VirtualKey::_0.code();
        let letter_a: u32 = VirtualKey::A.code();
        if digit_zero <= v && v <= 0x38 {
            Some(VirtualKeyCode(digit_zero + (v - 0x30)))
        } else if letter_a <= v && v <= 0x59 {
            Some(VirtualKeyCode(letter_a + (v - 0x41)))
        } else {
            None
        }
    }

    /// The code of the function key `F<n>`, for `n` from 1 to 24.
    pub fn f(n: u32) -> (r: Option<VirtualKeyCode>)
        ensures
            1 <= n <= 24 ==> r == Some(VirtualKeyCode((0x70 + n - 1) as u32)),
            !(1 <= n <= 24) ==> r is None,
    {
        if n >= 1 && n <= 24 {
            Some(VirtualKeyCode(VirtualKey::F1.code() + n - 1))
        } else {
            None
        }
    }
}

/// A key as reported with a key event: its virtual-key code and its scan code.
#[derive(Clone, Copy, Debug)]
pub struct KeyCode {
    pub vkey: VirtualKeyCode,
    pub scan_code: u32,
}

impl PartialEq<VirtualKey> for VirtualKeyCode {
    fn eq(&self, other: &VirtualKey) -> (r: bool) {
        match other {
            VirtualKey::Shift => self.0 == VirtualKey::LShift.code() || self.0
                == VirtualKey::RShift.code(),
            VirtualKey::Ctrl => self.0 == VirtualKey::LCtrl.code() || self.0
                == VirtualKey::RCtrl.code(),
            VirtualKey::Alt => self.0 == VirtualKey::LAlt.code() || self.0
                == VirtualKey::RAlt.code(),
            _ => self.0 == other.code(),
        }
    }
}

impl vstd::std_specs::cmp::PartialEqSpecImpl<VirtualKey> for VirtualKeyCode {
    open spec fn obeys_eq_spec() -> bool {
        true
    }

    open spec fn eq_spec(&self, other: &VirtualKey) -> bool {
        key_matches(self.0, *other)
    }
}

impl PartialEq<VirtualKeyCode> for VirtualKey {
    fn eq(&self, other: &VirtualKeyCode) -> (r: bool) {
        other.eq(self)
    }
}

impl vstd::std_specs::cmp::PartialEqSpecImpl<VirtualKeyCode> for VirtualKey {
    open spec fn obeys_eq_spec() -> bool {
        true
    }

    open spec fn eq_spec(&self, other: &VirtualKeyCode) -> bool {
        key_matches(other.0, *self)
    }
}

impl PartialEq<VirtualKey> for KeyCode {
    fn eq(&self, other: &VirtualKey) -> (r: bool) {
        self.vkey.eq(other)
    }
}

impl vstd::std_specs::cmp::PartialEqSpecImpl<VirtualKey> for KeyCode {
    open spec fn obeys_eq_spec() -> bool {
        true
    }

    open spec fn eq_spec(&self, other: &VirtualKey) -> bool {
        key_matches(self.vkey.0, *other)
    }
}

impl PartialEq<KeyCode> for VirtualKey {
    fn eq(&self, other: &KeyCode) -> (r: bool) {
        other.eq(self)
    }
}

impl vstd::std_specs::cmp::PartialEqSpecImpl<KeyCode> for VirtualKey {
    open spec fn obeys_eq_spec() -> bool {
        true
    }

    open spec fn eq_spec(&self, other: &KeyCode) -> bool {
        key_matches(other.vkey.0, *self)
    }
}

impl From<VirtualKey> for VirtualKeyCode {
    fn from(src: VirtualKey) -> (r: VirtualKeyCode) {
        VirtualKeyCode(src.code())
    }
}

impl vstd::std_specs::convert::FromSpecImpl<VirtualKey> for VirtualKeyCode {
    open spec fn obeys_from_spec() -> bool {
        true
    }

    open spec fn from_spec(v: VirtualKey) -> VirtualKeyCode {
        VirtualKeyCode(v.spec_code())
    }
}

} // verus!
