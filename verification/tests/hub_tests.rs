use kvm_rs::hub::{DisplayHub, RecvResult};
use kvm_rs::pixel::NormalizedFrame;

fn frame(tag: u8) -> NormalizedFrame {
    NormalizedFrame {
        width: 320,
        height: 240,
        data: vec![tag; 320 * 240 * 3],
    }
}

fn recv_frame(hub: &mut DisplayHub, id: usize) -> NormalizedFrame {
    match hub.recv(id) {
        RecvResult::Frame(f) => f,
        RecvResult::Empty => panic!("expected a frame, hub was empty"),
        RecvResult::Lagged(n) => panic!("expected a frame, lagged by {}", n),
    }
}

#[test]
fn frames_arrive_in_publish_order() {
    let mut hub = DisplayHub::new();
    let id = hub.subscribe();
    assert!(matches!(hub.recv(id), RecvResult::Empty));
    hub.publish(frame(1));
    hub.publish(frame(2));
    hub.publish(frame(3));
    assert_eq!(recv_frame(&mut hub, id).data[0], 1);
    assert_eq!(recv_frame(&mut hub, id).data[0], 2);
    assert_eq!(recv_frame(&mut hub, id).data[0], 3);
    assert!(matches!(hub.recv(id), RecvResult::Empty));
}

#[test]
fn subscriber_starts_at_the_head() {
    let mut hub = DisplayHub::new();
    hub.publish(frame(1));
    let id = hub.subscribe();
    // nothing missed, nothing delivered from before the subscription
    assert!(matches!(hub.recv(id), RecvResult::Empty));
    hub.publish(frame(2));
    assert_eq!(recv_frame(&mut hub, id).data[0], 2);
}

#[test]
fn slow_subscriber_loses_only_the_oldest() {
    let mut hub = DisplayHub::new();
    let id = hub.subscribe();
    // 20 publishes against a 16-frame ring: the 4 oldest fall out
    for tag in 0..20u8 {
        hub.publish(frame(tag));
    }
    match hub.recv(id) {
        RecvResult::Lagged(n) => assert_eq!(n, 4),
        _ => panic!("expected a lag report"),
    }
    // delivery resumes at the oldest retained frame, in order
    for tag in 4..20u8 {
        assert_eq!(recv_frame(&mut hub, id).data[0], tag);
    }
    assert!(matches!(hub.recv(id), RecvResult::Empty));
}

#[test]
fn slow_subscriber_never_blocks_the_producer() {
    let mut hub = DisplayHub::new();
    let _stuck = hub.subscribe();
    // the producer publishes freely however far the subscriber lags
    for tag in 0..200 {
        hub.publish(frame((tag % 251) as u8));
    }
    let snap = hub.snapshot().expect("frames were published");
    assert_eq!(snap.data[0], (199 % 251) as u8);
}

#[test]
fn snapshot_returns_the_latest_frame() {
    let hub = DisplayHub::new();
    assert!(hub.snapshot().is_none());
    let mut hub = hub;
    hub.publish(frame(7));
    assert_eq!(hub.snapshot().unwrap().data[0], 7);
    hub.publish(frame(9));
    assert_eq!(hub.snapshot().unwrap().data[0], 9);
    assert_eq!(hub.snapshot().unwrap().width, 320);
}

#[test]
fn s6_two_subscribers_get_their_own_copies() {
    let mut hub = DisplayHub::new();
    let a = hub.subscribe();
    let b = hub.subscribe();
    hub.publish(frame(5));
    let fa = recv_frame(&mut hub, a);
    let fb = recv_frame(&mut hub, b);
    assert_eq!(fa.data, fb.data);
    // one subscriber going silent does not affect the other
    hub.publish(frame(6));
    hub.publish(frame(7));
    assert_eq!(recv_frame(&mut hub, b).data[0], 6);
    assert_eq!(recv_frame(&mut hub, b).data[0], 7);
    assert!(matches!(hub.recv(b), RecvResult::Empty));
    // the silent one can still catch up independently
    assert_eq!(recv_frame(&mut hub, a).data[0], 6);
}
