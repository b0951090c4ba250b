use awita::device::{
    ButtonState, KeyCode, KeyState, MouseButton, MouseButtons, VirtualKey, VirtualKeyCode,
};

#[test]
fn device_mouse_ex() {
    for i in 0..=28u32 {
        assert!(MouseButton::ex(i).bits() == 1u32 << (3 + i));
    }
}

#[test]
fn device_u32_to_mouse_buton() {
    assert!(MouseButton::Left == MouseButton::from_u32(1u32 << 0));
    assert!(MouseButton::Right == MouseButton::from_u32(1u32 << 1));
    assert!(MouseButton::Middle == MouseButton::from_u32(1u32 << 2));
}

#[test]
fn mouse_buttons_iter() {
    let buttons = MouseButtons::new(&[MouseButton::Left, MouseButton::Middle, MouseButton::Ex1]);
    let mut iter = buttons.iter();
    assert!(Some(MouseButton::Left) == iter.next());
    assert!(Some(MouseButton::Middle) == iter.next());
    assert!(Some(MouseButton::Ex1) == iter.next());
    assert!(None == iter.next());
}

#[test]
fn mouse_button_bitor_mouse_button() {
    let ret = MouseButton::Left | MouseButton::Right;
    let mut iter = ret.iter();
    assert!(Some(MouseButton::Left) == iter.next());
    assert!(Some(MouseButton::Right) == iter.next());
    assert!(None == iter.next());
}

#[test]
fn mouse_buttons_bitor_mouse_button() {
    let buttons = MouseButton::Left | MouseButton::Right;
    let ret = buttons | MouseButton::Middle;
    let mut iter = ret.iter();
    assert!(Some(MouseButton::Left) == iter.next());
    assert!(Some(MouseButton::Right) == iter.next());
    assert!(Some(MouseButton::Middle) == iter.next());
    assert!(None == iter.next());
}

#[test]
fn mouse_button_bitor_mouse_buttons() {
    let buttons = MouseButton::Left | MouseButton::Right;
    let ret = MouseButton::Middle | buttons;
    let mut iter = ret.iter();
    assert!(Some(MouseButton::Left) == iter.next());
    assert!(Some(MouseButton::Right) == iter.next());
    assert!(Some(MouseButton::Middle) == iter.next());
    assert!(None == iter.next());
}

#[test]
fn mouse_buttons_bitor_mouse_buttons() {
    let b0 = MouseButton::Left | MouseButton::Right;
    let b1 = MouseButton::Middle | MouseButton::Ex28;
    let ret = b0 | b1;
    let mut iter = ret.iter();
    assert!(Some(MouseButton::Left) == iter.next());
    assert!(Some(MouseButton::Right) == iter.next());
    assert!(Some(MouseButton::Middle) == iter.next());
    assert!(Some(MouseButton::Ex28) == iter.next());
    assert!(None == iter.next());
}

#[test]
fn virtual_key_code_from_char() {
    for (i, c) in ('0'..'9').enumerate() {
        let fc = VirtualKeyCode::from_char(c).unwrap();
        assert!(fc == VirtualKeyCode(VirtualKey::_0.code() + i as u32));
    }
    for (i, c) in ('A'..'Z').enumerate() {
        let fc = VirtualKeyCode::from_char(c).unwrap();
        assert!(fc == VirtualKeyCode(VirtualKey::A.code() + i as u32));
    }
    assert!(VirtualKeyCode::from_char('!').is_none());
}

#[test]
fn f_keys() {
    for i in 1u32..24 {
        let f = VirtualKeyCode::f(i).unwrap();
        assert!(f == VirtualKeyCode(VirtualKey::F1.code() + i - 1));
    }
    assert!(VirtualKeyCode::f(25).is_none());
}

#[test]
fn key_code_eq() {
    assert!(VirtualKeyCode(VirtualKey::LShift.code()) == VirtualKey::Shift);
    assert!(VirtualKeyCode(VirtualKey::RShift.code()) == VirtualKey::Shift);
    assert!(VirtualKeyCode(VirtualKey::LCtrl.code()) == VirtualKey::Ctrl);
    assert!(VirtualKeyCode(VirtualKey::RCtrl.code()) == VirtualKey::Ctrl);
    assert!(VirtualKeyCode(VirtualKey::LAlt.code()) == VirtualKey::Alt);
    assert!(VirtualKeyCode(VirtualKey::RAlt.code()) == VirtualKey::Alt);
}

#[test]
fn button_state_and_key_state() {
    assert!(ButtonState::Pressed == KeyState::Pressed);
}

#[test]
fn mouse_buttons_new_and_contains() {
    let buttons = MouseButtons::new(&[MouseButton::Right, MouseButton::Ex0]);
    assert_eq!(buttons.0, 0b1010);
    assert!(buttons.contains(MouseButton::Right));
    assert!(buttons.contains(MouseButton::Ex0));
    assert!(!buttons.contains(MouseButton::Left));
    assert!(!buttons.is_empty());
    assert!(MouseButtons::new(&[]).is_empty());
    assert!(MouseButtons::from(0u32).is_empty());
}

#[test]
fn mouse_button_indices() {
    assert_eq!(MouseButton::Left.index(), 0);
    assert_eq!(MouseButton::Middle.bits(), 4);
    assert_eq!(MouseButton::Ex28.bits(), 1u32 << 31);
    assert!(MouseButton::from_index(5) == MouseButton::Ex2);
}

#[test]
fn virtual_key_codes_and_sides() {
    assert_eq!(VirtualKey::Enter.code(), 0x0d);
    assert_eq!(VirtualKey::NumDiv.code(), 0x6e);
    assert_eq!(VirtualKey::F24.code(), 0x87);
    assert!(VirtualKeyCode(VirtualKey::A.code()) == VirtualKey::A);
    assert!(!(VirtualKeyCode(VirtualKey::A.code()) == VirtualKey::B));
    assert!(!(VirtualKeyCode(VirtualKey::Shift.code()) == VirtualKey::Shift));
    assert!(VirtualKey::Ctrl == VirtualKeyCode(VirtualKey::RCtrl.code()));
    let key = KeyCode { vkey: VirtualKeyCode(VirtualKey::LAlt.code()), scan_code: 56 };
    assert!(key == VirtualKey::Alt);
    assert!(VirtualKey::Alt == key);
    assert!(VirtualKeyCode::from(VirtualKey::Space) == VirtualKeyCode(0x20));
    assert!(VirtualKeyCode::from_char('9').is_none());
    assert!(VirtualKeyCode::from_char('Z').is_none());
    assert!(VirtualKeyCode::f(0).is_none());
    assert!(VirtualKeyCode::f(24) == Some(VirtualKeyCode(0x87)));
}
