use awita::device::{ButtonState, MouseButton, VirtualKey};
use awita::event::Event;
use awita::ime::{attributes_from_codes, Attribute, CandidateList, Composition};
use awita::message::{
    activate_event, char_of, hiword, ime_context_flags, key_input_event, loword, lparam_to_point,
    mouse_buttons, mouse_input_event, scale_client_size, size_of, wheel_event, xbutton,
};

#[test]
fn words_are_signed_halves() {
    assert_eq!(loword(0x0001_fffe), -2);
    assert_eq!(hiword(0x0001_fffe), 1);
    assert_eq!(hiword(-1), -1);
    let p = lparam_to_point(0x0010_ffff);
    assert_eq!((p.x, p.y), (-1, 16));
}

#[test]
fn button_flags_map_to_buttons() {
    let b = mouse_buttons(0x0001 | 0x0010 | 0x0040 | 0x0004);
    assert!(b.contains(MouseButton::Left));
    assert!(b.contains(MouseButton::Middle));
    assert!(b.contains(MouseButton::Ex1));
    assert!(!b.contains(MouseButton::Right));
    assert!(!b.contains(MouseButton::Ex0));
    assert_eq!(b.0, 0b10101);
}

#[test]
fn extra_buttons_are_numbered_from_one() {
    assert!(xbutton(1 << 16) == Some(MouseButton::Ex0));
    assert!(xbutton(2 << 16) == Some(MouseButton::Ex1));
    assert!(xbutton(0).is_none());
}

#[test]
fn key_messages_pick_the_side() {
    let right_ctrl = key_input_event(ButtonState::Pressed, 0x11, (1 << 24) | (0x1d << 16), 0);
    assert!(right_ctrl.key_code.vkey == VirtualKey::RCtrl);
    assert_eq!(right_ctrl.key_code.scan_code, 0x1d);
    assert!(right_ctrl.prev_state == ButtonState::Released);
    let left_alt = key_input_event(ButtonState::Released, 0x12, 1 << 30, 0);
    assert!(left_alt.key_code.vkey == VirtualKey::LAlt);
    assert!(left_alt.prev_state == ButtonState::Pressed);
    assert!(left_alt.state == ButtonState::Released);
    let shift = key_input_event(ButtonState::Pressed, 0x10, 0, 0xa1);
    assert!(shift.key_code.vkey == VirtualKey::RShift);
    let a = key_input_event(ButtonState::Pressed, 0x41, 0, 0);
    assert!(a.key_code.vkey == VirtualKey::A);
}

#[test]
fn characters_are_checked() {
    assert_eq!(char_of(0x41), Some('A'));
    assert_eq!(char_of(0x3042), Some('\u{3042}'));
    assert_eq!(char_of(0xd800), None);
    assert_eq!(char_of(0x11_0000), None);
}

#[test]
fn events_from_messages() {
    match mouse_input_event(MouseButton::Right, ButtonState::Pressed, 0x0002, 0x0005_0006) {
        Event::MouseInput(m) => {
            assert!(m.button == MouseButton::Right);
            assert_eq!((m.mouse_state.position.x, m.mouse_state.position.y), (6, 5));
            assert!(m.mouse_state.buttons.contains(MouseButton::Right));
        }
        _ => panic!("wrong event"),
    }
    match wheel_event(true, 0xff88_0000, 0) {
        Event::MouseHWheel(w) => assert_eq!(w.delta, -120),
        _ => panic!("wrong event"),
    }
    assert!(matches!(wheel_event(false, 120 << 16, 0), Event::MouseWheel(_)));
    assert!(matches!(activate_event(0), Event::Inactivated));
    assert!(matches!(activate_event(2), Event::Activated));
    let s = size_of(0x0258_0320);
    assert_eq!((s.width, s.height), (800, 600));
}

#[test]
fn ime_flags_hide_windows() {
    assert_eq!(ime_context_flags(-1, true, true), 0xffff_ffff);
    assert_eq!(ime_context_flags(-1, false, true), 0x7fff_ffff);
    assert_eq!(ime_context_flags(-1, true, false), 0xffff_fff0);
}

#[test]
fn client_size_scales_between_resolutions() {
    let s = scale_client_size(640, 480, 144, 96);
    assert_eq!((s.width, s.height), (960, 720));
}

#[test]
fn composition_pairs_chars_and_attributes() {
    let attrs = attributes_from_codes(&[0, 1, 5]).unwrap();
    assert!(attrs == vec![Attribute::Input, Attribute::TargetConverted, Attribute::FixedConverted]);
    assert!(attributes_from_codes(&[0, 9]).is_none());
    let c = Composition::new(&['a', 'b', 'c', 'd'], &attrs);
    assert_eq!(c.len(), 3);
    assert!(!c.is_empty());
    assert_eq!(c.get(1).c, 'b');
    assert!(c.get(2).attr == Attribute::FixedConverted);
    let list = CandidateList::new(vec!["x".to_string(), "y".to_string()], 1);
    assert_eq!(list.len(), 2);
    assert_eq!(list.get(1), "y");
    assert_eq!(list.selection(), 1);
    assert!(!list.is_empty());
}
