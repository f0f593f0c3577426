use std::cell::Cell;

use webrtc_mux::{
    Bridge, CloseStep, ConnectionError, Direction, DropRegistry, Multiplexer, MuxerEvent, Phase, Substream,
    SwarmBuilder,
};

type Mux = Multiplexer<&'static str, u32>;

fn inbound(m: &mut Mux, channel: &'static str, waker: u32) -> Substream<&'static str> {
    assert_eq!(m.publish_inbound(channel), Ok(None));
    match m.poll_inbound(waker) {
        Some(Ok(s)) => s,
        _ => panic!("expected an inbound substream"),
    }
}

fn outbound(m: &mut Mux, channel: &'static str) -> Substream<&'static str> {
    match m.poll_outbound(|| Some(channel)) {
        Ok(s) => s,
        Err(e) => panic!("unexpected error {:?}", e),
    }
}

#[test]
fn bridge_delivers_once() {
    let mut b: Bridge<u8, u32> = Bridge::new();
    assert_eq!(b.poll(1), None);
    assert_eq!(b.publish(9), Ok(Some(1)));
    assert!(b.is_filled());
    assert_eq!(b.poll(2), Some(9));
    assert_eq!(b.poll(3), None);
    assert_eq!(b.publish(10), Ok(Some(3)));
    assert_eq!(b.poll(4), Some(10));
}

#[test]
fn bridge_refuses_second_value_before_poll() {
    let mut b: Bridge<u8, u32> = Bridge::new();
    assert_eq!(b.publish(1), Ok(None));
    assert_eq!(b.publish(2), Err(2));
    assert_eq!(b.poll(7), Some(1));
    assert_eq!(b.poll(7), None);
}

#[test]
fn inbound_seen_at_most_once() {
    let mut m = Mux::new();
    let s = inbound(&mut m, "x", 1);
    assert_eq!(*s.channel(), "x");
    assert!(m.poll_inbound(2).is_none());
    assert!(m.poll_inbound(3).is_none());
}

#[test]
fn inbound_arrivals_kept_in_order() {
    let mut m = Mux::new();
    let names = ["a", "b", "c", "d", "e"];
    for (i, name) in names.iter().enumerate() {
        let s = inbound(&mut m, name, 0);
        assert_eq!(*s.channel(), *name);
        assert_eq!(s.token(), i);
        assert_eq!(s.direction(), Direction::Inbound);
    }
    assert_eq!(m.outstanding(), 5);
}

#[test]
fn arrival_before_first_poll_is_kept() {
    let mut m = Mux::new();
    assert_eq!(m.publish_inbound("early"), Ok(None));
    match m.poll_inbound(1) {
        Some(Ok(s)) => assert_eq!(s.into_channel(), "early"),
        _ => panic!("arrival lost"),
    }
}

#[test]
fn arrival_wakes_waiting_poller() {
    let mut m = Mux::new();
    assert!(m.poll_inbound(42).is_none());
    assert_eq!(m.publish_inbound("x"), Ok(Some(42)));
    assert_eq!(m.publish_inbound("y"), Err("y"));
}

#[test]
fn idle_once_after_all_destroyed_in_any_order() {
    let mut m = Mux::new();
    let a = outbound(&mut m, "a");
    let b = inbound(&mut m, "b", 0);
    let c = outbound(&mut m, "c");
    assert_eq!(m.substream_dropped(b.token()), None);
    assert_eq!(m.substream_dropped(c.token()), None);
    assert_eq!(m.poll(1), None);
    assert_eq!(m.substream_dropped(a.token()), Some(1));
    assert_eq!(m.poll(2), Some(MuxerEvent::Idle));
    assert_eq!(m.poll(3), None);
    assert_eq!(m.poll(4), None);
}

#[test]
fn no_idle_while_one_substream_lives() {
    let mut m = Mux::new();
    let a = outbound(&mut m, "a");
    let b = outbound(&mut m, "b");
    let _c = outbound(&mut m, "c");
    m.substream_dropped(b.token());
    m.substream_dropped(a.token());
    assert_eq!(m.poll(1), None);
    assert_eq!(m.outstanding(), 1);
    assert_eq!(m.poll(2), None);
}

#[test]
fn idle_again_after_new_substreams() {
    let mut m = Mux::new();
    let a = outbound(&mut m, "a");
    m.substream_dropped(a.token());
    assert_eq!(m.poll(1), Some(MuxerEvent::Idle));
    assert_eq!(m.poll(1), None);
    let b = outbound(&mut m, "b");
    assert_eq!(m.poll(2), None);
    m.substream_dropped(b.token());
    assert_eq!(m.poll(3), Some(MuxerEvent::Idle));
}

#[test]
fn fresh_connection_is_not_reported_idle() {
    let mut m = Mux::new();
    assert_eq!(m.poll(1), None);
    assert_eq!(m.outstanding(), 0);
}

#[test]
fn destruction_reported_twice_counts_once() {
    let mut m = Mux::new();
    let a = outbound(&mut m, "a");
    let b = outbound(&mut m, "b");
    assert!(m.poll(5).is_none());
    assert_eq!(m.substream_dropped(a.token()), None);
    assert_eq!(m.substream_dropped(a.token()), None);
    assert_eq!(m.substream_dropped(99), None);
    assert_eq!(m.poll(6), None);
    assert_eq!(m.outstanding(), 1);
    assert_eq!(m.substream_dropped(b.token()), Some(6));
    assert_eq!(m.substream_dropped(b.token()), None);
}

#[test]
fn close_twice_releases_once() {
    let mut m = Mux::new();
    assert_eq!(m.phase(), Phase::Open);
    assert_eq!(m.poll_close(), CloseStep::Release);
    assert_eq!(m.phase(), Phase::Closing);
    assert_eq!(m.poll_close(), CloseStep::InProgress);
    assert_eq!(m.finish_close(Ok(())), Ok(()));
    assert_eq!(m.phase(), Phase::Closed);
    assert_eq!(m.poll_close(), CloseStep::Done);
    assert_eq!(m.poll_close(), CloseStep::Done);
}

#[test]
fn failed_release_still_closes() {
    let mut m = Mux::new();
    assert_eq!(m.poll_close(), CloseStep::Release);
    assert_eq!(
        m.finish_close(Err("reset by peer".to_string())),
        Err(ConnectionError::Underlying("reset by peer".to_string()))
    );
    assert_eq!(m.phase(), Phase::Closed);
    assert_eq!(m.poll_close(), CloseStep::Done);
}

#[test]
fn closed_connection_rejects_substreams() {
    let mut m = Mux::new();
    m.poll_close();
    m.finish_close(Ok(())).unwrap();
    assert_eq!(m.publish_inbound("late"), Ok(None));
    assert!(matches!(m.poll_inbound(1), Some(Err(ConnectionError::Closed))));
    let called = Cell::new(false);
    let r = m.poll_outbound(|| {
        called.set(true);
        Some("never")
    });
    assert!(matches!(r, Err(ConnectionError::Closed)));
    assert!(!called.get());
    assert_eq!(m.outstanding(), 0);
}

#[test]
fn closing_connection_rejects_substreams() {
    let mut m = Mux::new();
    assert_eq!(m.poll_close(), CloseStep::Release);
    assert!(matches!(m.poll_inbound(1), Some(Err(ConnectionError::Closed))));
    assert!(matches!(m.poll_outbound(|| Some("x")), Err(ConnectionError::Closed)));
}

#[test]
fn channel_creation_failure() {
    let mut m = Mux::new();
    assert!(matches!(m.poll_outbound(|| None), Err(ConnectionError::CreationFailed)));
    assert_eq!(m.outstanding(), 0);
    let s = outbound(&mut m, "ok");
    assert_eq!(s.token(), 0);
}

#[test]
fn inbound_substream_lifecycle() {
    let mut m = Mux::new();
    assert_eq!(m.publish_inbound("X"), Ok(None));
    let mut s = match m.poll_inbound(1) {
        Some(Ok(s)) => s,
        _ => panic!("expected a substream"),
    };
    assert_eq!(*s.channel(), "X");
    assert_eq!(s.direction(), Direction::Inbound);
    assert_eq!(m.outstanding(), 1);
    assert!(s.close());
    m.substream_dropped(s.token());
    assert_eq!(m.poll(2), Some(MuxerEvent::Idle));
    assert_eq!(m.outstanding(), 0);
    assert_eq!(m.poll(3), None);
    assert_eq!(m.poll(4), None);
}

#[test]
fn two_outbound_substreams() {
    let mut m = Mux::new();
    let mut a = outbound(&mut m, "a");
    let mut b = outbound(&mut m, "b");
    assert_eq!(a.direction(), Direction::Outbound);
    assert_ne!(a.token(), b.token());
    assert_eq!(m.outstanding(), 2);
    assert_eq!(m.poll(1), None);
    assert!(a.close());
    m.substream_dropped(a.token());
    assert_eq!(m.poll(2), None);
    assert_eq!(m.outstanding(), 1);
    assert!(b.close());
    m.substream_dropped(b.token());
    assert_eq!(m.poll(3), Some(MuxerEvent::Idle));
    assert_eq!(m.outstanding(), 0);
}

#[test]
fn substream_close_is_idempotent() {
    let mut m = Mux::new();
    let mut s = outbound(&mut m, "a");
    assert!(!s.is_closed());
    assert!(s.close());
    assert!(!s.close());
    assert!(s.is_closed());
}

#[test]
fn registry_counts_outstanding() {
    let mut r = DropRegistry::new();
    assert_eq!(r.register(), 0);
    assert_eq!(r.register(), 1);
    assert_eq!(r.len(), 2);
    assert!(r.signal(1));
    assert!(!r.signal(1));
    assert!(!r.signal(7));
    assert_eq!(r.len(), 2);
    r.drain();
    assert_eq!(r.len(), 1);
    assert!(!r.signal(1));
    assert!(r.signal(0));
    r.drain();
    assert_eq!(r.len(), 0);
}

#[test]
fn swarm_builder_starts_empty() {
    let _b: SwarmBuilder = SwarmBuilder::new();
}
