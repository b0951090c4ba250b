use awita::channel::Channel;
use awita::close::{CloseAction, CloseState};
use awita::context::{Context, PointerMove};
use awita::device::{ButtonState, KeyCode, MouseButton, MouseButtons, MouseState, VirtualKeyCode};
use awita::dispatcher::{Dispatcher, FaultSlot, FinishSignal, Phase};
use awita::error::Error;
use awita::event::{Event, EventKind, KeyInput};
use awita::geometry::{Physical, Point, Size};
use awita::registry::Registry;
use awita::resource::Cursor;
use awita::window::{WindowConfig, WindowHandle, WindowState};

fn config() -> WindowConfig {
    WindowConfig {
        cursor: Some(Cursor::Arrow),
        enable_ime: true,
        ime_composition_window_visibility: true,
        ime_candidate_window_visibility: true,
    }
}

fn key(n: u32) -> Event {
    Event::KeyInput(KeyInput {
        state: ButtonState::Pressed,
        key_code: KeyCode { vkey: VirtualKeyCode(n), scan_code: n },
        prev_state: ButtonState::Released,
    })
}

fn key_number(ev: &Event) -> u32 {
    match ev {
        Event::KeyInput(k) => k.key_code.scan_code,
        _ => panic!("not a key event"),
    }
}

fn pointer() -> MouseState {
    MouseState { position: Physical(Point::new(3, 4)), buttons: MouseButtons(0) }
}

#[test]
fn subscriber_sees_only_later_events() {
    let mut ch: Channel<u32> = Channel::new(4);
    ch.send(1);
    let r = ch.subscribe();
    assert_eq!(ch.try_recv(r), Ok(None));
    ch.send(2);
    ch.send(3);
    assert_eq!(ch.try_recv(r), Ok(Some(2)));
    assert_eq!(ch.try_recv(r), Ok(Some(3)));
    assert_eq!(ch.try_recv(r), Ok(None));
}

#[test]
fn overflow_drops_oldest_per_receiver() {
    let mut ch: Channel<u32> = Channel::new(3);
    let slow = ch.subscribe();
    let fast = ch.subscribe();
    for v in 0..5u32 {
        ch.send(v);
        if v < 2 {
            assert_eq!(ch.try_recv(fast), Ok(Some(v)));
        }
    }
    assert_eq!(ch.try_recv_all(slow), Ok(vec![2, 3, 4]));
    assert_eq!(ch.try_recv_all(fast), Ok(vec![2, 3, 4]));
    assert_eq!(ch.pending_len(slow), 0);
}

#[test]
fn capacity_one_keeps_latest() {
    let mut ch: Channel<u32> = Channel::new(1);
    let r = ch.subscribe();
    ch.send(10);
    ch.send(11);
    assert_eq!(ch.pending_len(r), 1);
    assert_eq!(ch.try_recv(r), Ok(Some(11)));
    assert_eq!(ch.capacity(), 1);
}

#[test]
fn closed_channel_drains_then_reports_closed() {
    let mut ch: Channel<u32> = Channel::new(2);
    let r = ch.subscribe();
    ch.send(5);
    ch.close();
    assert!(ch.closed());
    ch.send(6);
    assert_eq!(ch.try_recv(r), Ok(Some(5)));
    assert_eq!(ch.try_recv(r), Err(Error::Closed));
    assert_eq!(ch.try_recv_all(r), Err(Error::Closed));
}

#[test]
fn released_receiver_reads_closed() {
    let mut ch: Channel<u32> = Channel::new(2);
    let r = ch.subscribe();
    ch.send(1);
    ch.release(r);
    assert!(!ch.is_subscribed(r));
    assert_eq!(ch.try_recv(r), Err(Error::Closed));
}

#[test]
fn key_burst_keeps_newest_256() {
    let mut ctx = Context::new();
    let w1 = WindowHandle(1);
    ctx.insert_window(w1, config());
    let rx = ctx.subscribe(w1, EventKind::KeyInput);
    for n in 0..300u32 {
        assert!(ctx.deliver(w1, key(n)));
    }
    let mut got = Vec::new();
    while let Ok(Some(ev)) = ctx.try_recv(rx) {
        got.push(key_number(&ev));
    }
    assert_eq!(got.len(), 256);
    assert_eq!(got, (44..300u32).collect::<Vec<u32>>());
}

#[test]
fn destroy_wakes_waiting_receiver_with_closed() {
    let mut ctx = Context::new();
    let w1 = WindowHandle(1);
    ctx.insert_window(w1, config());
    let rx = ctx.subscribe(w1, EventKind::CharInput);
    assert_eq!(ctx.try_recv(rx).unwrap().is_none(), true);
    assert!(ctx.destroy_window(w1));
    assert_eq!(ctx.try_recv(rx).err(), Some(Error::Closed));
}

#[test]
fn closed_event_reaches_its_receiver() {
    let mut ctx = Context::new();
    let w = WindowHandle(7);
    ctx.insert_window(w, config());
    let rx = ctx.subscribe(w, EventKind::Closed);
    ctx.destroy_window(w);
    assert!(matches!(ctx.try_recv(rx), Ok(Some(Event::Closed))));
    assert_eq!(ctx.try_recv(rx).err(), Some(Error::Closed));
    let late = ctx.subscribe(w, EventKind::Closed);
    assert!(late.id.is_none());
    assert_eq!(ctx.try_recv(late).err(), Some(Error::Closed));
}

#[test]
fn registry_empties_only_on_last_removal() {
    let mut reg = Registry::new();
    assert!(reg.is_empty());
    reg.insert(WindowHandle(1), WindowState::new(config()));
    assert!(!reg.is_empty());
    reg.insert(WindowHandle(2), WindowState::new(config()));
    assert!(reg.remove(WindowHandle(1)).is_some());
    assert!(!reg.is_empty());
    assert!(reg.remove(WindowHandle(1)).is_none());
    assert!(reg.contains(WindowHandle(2)));
    assert!(reg.get(WindowHandle(2)).is_some());
    assert!(reg.remove(WindowHandle(2)).is_some());
    assert!(reg.is_empty());
}

#[test]
fn shutdown_only_when_last_window_destroyed() {
    let mut ctx = Context::new();
    ctx.insert_window(WindowHandle(1), config());
    ctx.insert_window(WindowHandle(2), config());
    assert!(!ctx.destroy_window(WindowHandle(1)));
    assert!(!ctx.destroy_window(WindowHandle(9)));
    assert!(ctx.is_closed(WindowHandle(1)));
    assert!(!ctx.is_closed(WindowHandle(2)));
    assert!(ctx.destroy_window(WindowHandle(2)));
    assert!(!ctx.destroy_window(WindowHandle(2)));
}

#[test]
fn finished_fires_once_to_every_waiter() {
    let mut f = FinishSignal::new();
    let early = f.add_waiter();
    assert_eq!(f.poll(early), None);
    f.fire(false);
    f.fire(true);
    assert_eq!(f.outcome(), Some(false));
    assert_eq!(f.poll(early), Some(false));
    assert_eq!(f.poll(early), None);
    let late = f.add_waiter();
    assert_eq!(f.poll(late), Some(false));
    assert_eq!(f.poll(late), None);
    let other = f.add_waiter();
    assert_eq!(f.poll(other), Some(false));
}

#[test]
fn close_without_receiver_destroys() {
    let mut ctx = Context::new();
    let w = WindowHandle(3);
    ctx.insert_window(w, config());
    assert_eq!(ctx.close_attempt(w), Some(CloseAction::Destroy));
    assert_eq!(ctx.close_attempt(WindowHandle(4)), None);
}

#[test]
fn close_confirmed_destroys() {
    let mut ctx = Context::new();
    let w = WindowHandle(3);
    ctx.insert_window(w, config());
    assert!(ctx.register_close_receiver(w));
    assert!(!ctx.register_close_receiver(w));
    assert_eq!(ctx.close_attempt(w), Some(CloseAction::Deliver));
    assert_eq!(ctx.close_confirmed(w), Some(CloseAction::Destroy));
    assert!(ctx.destroy_window(w));
    assert!(ctx.is_closed(w));
}

#[test]
fn close_ignored_keeps_window_and_allows_retry() {
    let mut ctx = Context::new();
    let w = WindowHandle(3);
    ctx.insert_window(w, config());
    ctx.register_close_receiver(w);
    assert_eq!(ctx.close_attempt(w), Some(CloseAction::Deliver));
    assert!(ctx.close_discarded(w));
    assert!(!ctx.is_closed(w));
    assert_eq!(ctx.close_attempt(w), Some(CloseAction::Deliver));
    assert_eq!(ctx.close_attempt(w), Some(CloseAction::Destroy));
}

#[test]
fn close_after_receiver_gone_destroys() {
    let mut s = CloseState::new();
    assert!(s.register());
    assert!(!s.register());
    s.receiver_gone();
    assert_eq!(s.close_attempt(), CloseAction::Destroy);
    assert_eq!(s.discard(), CloseAction::KeepOpen);
    assert_eq!(s.confirm(), CloseAction::Destroy);
}

#[test]
fn dispatcher_serves_commands_in_order() {
    let mut d: Dispatcher<u32> = Dispatcher::new();
    assert_eq!(d.current_phase(), Phase::NotStarted);
    assert!(d.post(1));
    assert_eq!(d.current_phase(), Phase::Running);
    assert!(!d.ensure_started());
    assert!(d.post(2));
    assert_eq!(d.on_wake(), Some(1));
    assert_eq!(d.end_turn(false, false), None);
    assert_eq!(d.on_wake(), Some(2));
    assert_eq!(d.on_wake(), None);
    assert_eq!(d.end_turn(true, false), Some(true));
    assert_eq!(d.current_phase(), Phase::CleanFinished);
    assert!(!d.post(3));
    assert_eq!(d.end_turn(false, true), None);
}

#[test]
fn dispatcher_fault_wins() {
    let mut d: Dispatcher<u32> = Dispatcher::new();
    assert!(d.ensure_started());
    assert_eq!(d.end_turn(true, true), Some(false));
    assert_eq!(d.current_phase(), Phase::Faulted);
    assert_eq!(d.on_wake(), None);
}

#[test]
fn fault_goes_to_one_caller() {
    let mut slot: FaultSlot<&str> = FaultSlot::new();
    assert!(!slot.has_fault());
    assert!(slot.capture("first"));
    assert!(!slot.capture("second"));
    assert_eq!(slot.take(), Some("first"));
    assert_eq!(slot.take(), None);
    assert!(slot.has_fault());
    assert!(!slot.capture("third"));
}

#[test]
fn pointer_enters_then_moves_then_leaves() {
    let mut ctx = Context::new();
    let w = WindowHandle(5);
    ctx.insert_window(w, config());
    let entered = ctx.subscribe(w, EventKind::CursorEntered);
    let moved = ctx.subscribe(w, EventKind::CursorMoved);
    let left = ctx.subscribe(w, EventKind::CursorLeft);
    assert_eq!(ctx.cursor_moved(w, pointer()), Some(PointerMove::Entered(Some(Cursor::Arrow))));
    assert_eq!(ctx.cursor_moved(w, pointer()), Some(PointerMove::Moved));
    assert!(ctx.cursor_left(w, pointer()));
    assert_eq!(ctx.entered_cursor_window, None);
    assert!(matches!(ctx.try_recv(entered), Ok(Some(Event::CursorEntered(_)))));
    assert!(matches!(ctx.try_recv(moved), Ok(Some(Event::CursorMoved(_)))));
    assert!(matches!(ctx.try_recv(left), Ok(Some(Event::CursorLeft(_)))));
    assert_eq!(ctx.cursor_moved(WindowHandle(6), pointer()), None);
}

#[test]
fn window_settings_follow_commands() {
    let mut ctx = Context::new();
    let w = WindowHandle(8);
    ctx.insert_window(w, config());
    assert_eq!(ctx.ime_enabled(w), Ok(true));
    assert!(ctx.set_ime_enabled(w, false));
    assert_eq!(ctx.ime_enabled(w), Ok(false));
    assert!(ctx.set_cursor(w, Some(Cursor::Hand)));
    assert!(ctx.set_ime_position(w, Physical(Point::new(10, 20))));
    assert!(!ctx.set_cursor(WindowHandle(9), None));
    assert_eq!(ctx.ime_enabled(WindowHandle(9)), Err(Error::Closed));
    let sized = ctx.subscribe(w, EventKind::Sized);
    ctx.begin_resize();
    assert!(ctx.resizing);
    assert!(ctx.end_resize(w, Physical(Size::new(300, 200))));
    assert!(!ctx.resizing);
    match ctx.try_recv(sized) {
        Ok(Some(Event::Sized(s))) => assert_eq!((s.width, s.height), (300, 200)),
        _ => panic!("no size"),
    }
}

#[test]
fn event_kinds_and_capacities() {
    assert_eq!(EventKind::KeyInput.capacity(), 256);
    assert_eq!(EventKind::CursorMoved.capacity(), 128);
    assert_eq!(EventKind::Closed.capacity(), 1);
    assert!(EventKind::from_index(EventKind::DropFiles.index()) == EventKind::DropFiles);
    assert!(key(1).kind() == EventKind::KeyInput);
    assert!(Event::Draw.kind() == EventKind::Draw);
    assert_eq!(MouseButton::Left.bits(), 1);
}

#[test]
fn error_messages() {
    assert_eq!(Error::Closed.message(), "closed");
    assert_eq!(Error::Api(-5).message(), "Error::Api");
}
