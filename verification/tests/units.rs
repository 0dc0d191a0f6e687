//! Unit tests of the leaf pieces: event translation, the FIFO queue, the
//! executor's forwarding step, and the decimal renderer.

use rustea::counter::{push_decimal, CounterCmd, CounterMsg};
use rustea::executor::forward_result;
use rustea::message::{translate_event, InputEvent, KeyInput, Message, PointerInput, ResizeEvent};
use rustea::queue::Queue;

type Msg = Message<CounterMsg, CounterCmd>;

#[test]
fn translate_key_passes_through() {
    let key = KeyInput { code: 113, modifiers: 2 };
    let m: Msg = translate_event(InputEvent::Key(key));
    match m {
        Message::Key(k) => {
            assert_eq!(k.code, 113);
            assert_eq!(k.modifiers, 2);
        },
        _ => panic!("a key event must stay a key message"),
    }
}

#[test]
fn translate_pointer_passes_through() {
    let p = PointerInput { kind: 1, column: 10, row: 4 };
    let m: Msg = translate_event(InputEvent::Pointer(p));
    match m {
        Message::Pointer(q) => {
            assert_eq!(q.kind, 1);
            assert_eq!(q.column, 10);
            assert_eq!(q.row, 4);
        },
        _ => panic!("a pointer event must stay a pointer message"),
    }
}

#[test]
fn translate_resize_becomes_resize_event() {
    let m: Msg = translate_event(InputEvent::Resize(80, 24));
    match m {
        Message::Resize(ResizeEvent(w, h)) => {
            assert_eq!(w, 80);
            assert_eq!(h, 24);
        },
        _ => panic!("a resize must become a resize-event message"),
    }
}

#[test]
fn queue_is_fifo_and_preserves_values() {
    let mut q: Queue<u64> = Queue::new();
    assert!(q.is_empty());
    assert_eq!(q.dequeue(), None);
    q.enqueue(1);
    q.enqueue(2);
    q.enqueue_all(vec![3, 4]);
    assert_eq!(q.len(), 4);
    assert_eq!(q.dequeue(), Some(1));
    assert_eq!(q.dequeue(), Some(2));
    assert_eq!(q.dequeue(), Some(3));
    assert_eq!(q.dequeue(), Some(4));
    assert_eq!(q.dequeue(), None);
}

#[test]
fn forward_result_appends_message_unchanged() {
    let mut inbox: Queue<Msg> = Queue::new();
    forward_result(Some(Message::App(CounterMsg::Echo(9))), &mut inbox);
    assert_eq!(inbox.len(), 1);
    match inbox.dequeue() {
        Some(Message::App(CounterMsg::Echo(v))) => assert_eq!(v, 9),
        _ => panic!("the forwarded message must come out unchanged"),
    }
}

#[test]
fn forward_result_of_nothing_changes_nothing() {
    let mut inbox: Queue<Msg> = Queue::new();
    inbox.enqueue(Message::Quit);
    forward_result(None, &mut inbox);
    assert_eq!(inbox.len(), 1);
}

#[test]
fn decimal_rendering_exact_values() {
    let mut v: Vec<u8> = Vec::new();
    push_decimal(0, &mut v);
    assert_eq!(v, b"0".to_vec());

    let mut v: Vec<u8> = Vec::new();
    push_decimal(7, &mut v);
    assert_eq!(v, b"7".to_vec());

    let mut v: Vec<u8> = Vec::new();
    push_decimal(10, &mut v);
    assert_eq!(v, b"10".to_vec());

    let mut v: Vec<u8> = Vec::new();
    push_decimal(12345, &mut v);
    assert_eq!(v, b"12345".to_vec());

    let mut v: Vec<u8> = Vec::new();
    push_decimal(u64::MAX, &mut v);
    assert_eq!(v, b"18446744073709551615".to_vec());
}

#[test]
fn decimal_rendering_appends() {
    let mut v: Vec<u8> = b"n=".to_vec();
    push_decimal(42, &mut v);
    assert_eq!(v, b"n=42".to_vec());
}
