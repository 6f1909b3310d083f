use reflex::protocol::wayland::wl_callback::events::Done;
use reflex::sink::{EventQueue, SinkStep};
use reflex::wire::Endian;

#[test]
fn empty_queue_is_done() {
    let mut q: EventQueue<Done> = EventQueue::new();
    assert!(matches!(q.prepare(Endian::Little), Ok(SinkStep::Done)));
    assert!(q.pending().is_empty());
}

#[test]
fn events_go_out_in_order_and_in_pieces() {
    let mut q: EventQueue<Done> = EventQueue::new();
    q.start_send(Done { sender_object_id: 1, callback_data: 5 });
    q.start_send(Done { sender_object_id: 2, callback_data: 6 });
    assert!(matches!(q.prepare(Endian::Little), Ok(SinkStep::Send)));
    assert_eq!(q.pending(), &vec![1, 0, 0, 0, 0, 0, 12, 0, 5, 0, 0, 0]);
    q.sent(5);
    assert_eq!(q.pending(), &vec![0, 12, 0, 5, 0, 0, 0]);
    assert!(matches!(q.prepare(Endian::Little), Ok(SinkStep::Send)));
    assert_eq!(q.pending().len(), 7);
    q.sent(0);
    assert_eq!(q.pending().len(), 7);
    q.sent(100);
    assert!(q.pending().is_empty());
    assert!(matches!(q.prepare(Endian::Little), Ok(SinkStep::Send)));
    assert_eq!(q.pending(), &vec![2, 0, 0, 0, 0, 0, 12, 0, 6, 0, 0, 0]);
    q.sent(12);
    assert!(matches!(q.prepare(Endian::Little), Ok(SinkStep::Done)));
}

#[test]
fn close_marks_the_queue() {
    let mut q: EventQueue<Done> = EventQueue::new();
    assert!(!q.is_closed());
    q.close();
    assert!(q.is_closed());
}
