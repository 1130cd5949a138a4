use chat_core::bus::Bus;
use chat_core::bus::RecvOutcome;
use chat_core::packet::Packet;
use chat_core::packet::PacketType;

fn msg(uid: u32, text: &str) -> Packet {
    Packet::new(PacketType::NewMessage, uid, String::from(text))
}

#[test]
fn pending_when_nothing_is_published() {
    let bus = Bus::new(10);
    let mut sub = bus.subscribe();
    assert!(matches!(sub.poll(&bus), RecvOutcome::Pending));
}

#[test]
fn subscription_sees_only_later_publishes() {
    let mut bus = Bus::new(10);
    bus.publish(msg(1, "before"));
    let mut sub = bus.subscribe();
    assert!(matches!(sub.poll(&bus), RecvOutcome::Pending));
    bus.publish(msg(1, "after"));
    match sub.poll(&bus) {
        RecvOutcome::Delivered(p) => assert_eq!(p.contents, "after"),
        _ => panic!("expected a delivery"),
    }
}

#[test]
fn deliveries_arrive_in_publish_order() {
    let mut bus = Bus::new(10);
    let mut sub = bus.subscribe();
    bus.publish(msg(1, "first"));
    bus.publish(msg(2, "second"));
    match sub.poll(&bus) {
        RecvOutcome::Delivered(p) => {
            assert_eq!(p.user_id, 1);
            assert_eq!(p.contents, "first");
        },
        _ => panic!("expected a delivery"),
    }
    match sub.poll(&bus) {
        RecvOutcome::Delivered(p) => {
            assert_eq!(p.user_id, 2);
            assert_eq!(p.contents, "second");
        },
        _ => panic!("expected a delivery"),
    }
    assert!(matches!(sub.poll(&bus), RecvOutcome::Pending));
}

#[test]
fn slow_subscriber_is_told_how_much_it_missed() {
    let mut bus = Bus::new(2);
    let mut sub = bus.subscribe();
    bus.publish(msg(1, "a"));
    bus.publish(msg(1, "b"));
    bus.publish(msg(1, "c"));
    bus.publish(msg(1, "d"));
    match sub.poll(&bus) {
        RecvOutcome::Lagged(missed) => assert_eq!(missed, 2),
        _ => panic!("expected a lag notice"),
    }
    match sub.poll(&bus) {
        RecvOutcome::Delivered(p) => assert_eq!(p.contents, "c"),
        _ => panic!("expected the oldest retained packet"),
    }
    match sub.poll(&bus) {
        RecvOutcome::Delivered(p) => assert_eq!(p.contents, "d"),
        _ => panic!("expected a delivery"),
    }
}

#[test]
fn subscriber_within_bound_is_never_dropped() {
    let mut bus = Bus::new(2);
    let mut sub = bus.subscribe();
    bus.publish(msg(1, "a"));
    bus.publish(msg(1, "b"));
    match sub.poll(&bus) {
        RecvOutcome::Delivered(p) => assert_eq!(p.contents, "a"),
        _ => panic!("expected a delivery"),
    }
}
