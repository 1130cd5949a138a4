use chat_core::bus::Bus;
use chat_core::bus::RecvOutcome;
use chat_core::bus::Subscription;
use chat_core::directory::Directory;
use chat_core::handler::Handler;
use chat_core::handler::HandlerState;
use chat_core::handler::InboundEvent;
use chat_core::handler::InboundOutcome;
use chat_core::packet::Packet;
use chat_core::packet::PacketType;

fn packet(kind: PacketType, uid: u32, text: &str) -> Packet {
    Packet::new(kind, uid, String::from(text))
}

fn expect_delivery(sub: &mut Subscription, bus: &Bus) -> Packet {
    match sub.poll(bus) {
        RecvOutcome::Delivered(p) => p,
        _ => panic!("expected a delivery"),
    }
}

/// Connects a client: id assignment, handshake under the given name, roster
/// replay. Returns the handler, its subscription, and the replay packets.
fn connect(
    dir: &mut Directory,
    bus: &mut Bus,
    uid: u32,
    name: &str,
) -> (Handler, Subscription, Vec<Packet>) {
    let (mut h, id_pkt) = Handler::new(uid);
    assert_eq!(id_pkt.packet_type, PacketType::IDAssign);
    assert_eq!(id_pkt.user_id, uid);
    assert_eq!(id_pkt.contents, "");
    let sub = bus.subscribe();
    let hello = packet(PacketType::UsernameChange, uid, name);
    let (connected, replay) = h.on_handshake_packet(dir, &hello).expect("handshake");
    assert_eq!(h.state, HandlerState::Active);
    assert_eq!(connected.packet_type, PacketType::UserConnected);
    assert_eq!(connected.user_id, uid);
    bus.publish(connected);
    (h, sub, replay)
}

#[test]
fn handshake_ignores_other_kinds() {
    let mut dir = Directory::new();
    let (mut h, _) = Handler::new(1);
    let stray = packet(PacketType::NewMessage, 1, "early");
    assert!(h.on_handshake_packet(&mut dir, &stray).is_none());
    assert_eq!(h.state, HandlerState::Handshaking);
    assert_eq!(dir.user_count(), 0);
}

#[test]
fn handshake_trims_the_chosen_name() {
    let mut dir = Directory::new();
    let (mut h, _) = Handler::new(1);
    let hello = packet(PacketType::UsernameChange, 1, "  alice \n");
    let (connected, _) = h.on_handshake_packet(&mut dir, &hello).expect("handshake");
    assert_eq!(connected.contents, "alice");
    assert_eq!(dir.lookup(1).unwrap(), "alice");
}

#[test]
fn connect_and_roster_replay() {
    // Scenario: A handshakes as "alice", then B as "bob". B is replayed A's
    // entry; A learns of B through the broadcast, never through a UserList.
    let mut dir = Directory::new();
    let mut bus = Bus::new(16);
    let (a, mut sub_a, replay_a) = connect(&mut dir, &mut bus, 1, "alice");
    assert!(replay_a.is_empty());
    assert_eq!(dir.lookup(1).unwrap(), "alice");

    let (_b, _sub_b, replay_b) = connect(&mut dir, &mut bus, 2, "bob");
    assert_eq!(replay_b.len(), 1);
    assert_eq!(replay_b[0].packet_type, PacketType::UserList);
    assert_eq!(replay_b[0].user_id, 1);
    assert_eq!(replay_b[0].contents, "alice");

    // A's subscription saw its own UserConnected (not forwarded) and B's.
    let own = expect_delivery(&mut sub_a, &bus);
    assert_eq!(own.user_id, 1);
    assert!(!a.should_forward(&own));
    let theirs = expect_delivery(&mut sub_a, &bus);
    assert_eq!(theirs.packet_type, PacketType::UserConnected);
    assert_eq!(theirs.user_id, 2);
    assert_eq!(theirs.contents, "bob");
    assert!(a.should_forward(&theirs));
    assert!(matches!(sub_a.poll(&bus), RecvOutcome::Pending));
}

#[test]
fn new_message_reaches_both_sides() {
    // Scenario: A sends "hi"; the log gains one entry by A; both A and B are
    // forwarded the broadcast, A included (echo).
    let mut dir = Directory::new();
    let mut bus = Bus::new(16);
    let (mut a, mut sub_a, _) = connect(&mut dir, &mut bus, 1, "alice");
    let (b, mut sub_b, _) = connect(&mut dir, &mut bus, 2, "bob");
    let _ = expect_delivery(&mut sub_a, &bus);
    let _ = expect_delivery(&mut sub_a, &bus);
    let _ = expect_delivery(&mut sub_b, &bus);

    let inbound = packet(PacketType::NewMessage, 1, "hi");
    let out = a.on_inbound(&mut dir, InboundEvent::Data(inbound));
    let republished = match out {
        InboundOutcome::Publish(p) => p,
        _ => panic!("a chat message is republished"),
    };
    assert_eq!(dir.message_count(), 1);
    assert_eq!(dir.message_at(0).sender_id, 1);
    assert_eq!(dir.message_at(0).message, "hi");
    bus.publish(republished);

    let to_a = expect_delivery(&mut sub_a, &bus);
    assert_eq!(to_a.packet_type, PacketType::NewMessage);
    assert_eq!(to_a.contents, "hi");
    assert!(a.should_forward(&to_a), "the sender hears its own message");
    let to_b = expect_delivery(&mut sub_b, &bus);
    assert_eq!(to_b.contents, "hi");
    assert!(b.should_forward(&to_b));
}

#[test]
fn message_text_is_trimmed_in_the_log_but_not_on_the_wire() {
    let mut dir = Directory::new();
    let mut bus = Bus::new(16);
    let (mut a, _sub_a, _) = connect(&mut dir, &mut bus, 1, "alice");
    let inbound = packet(PacketType::NewMessage, 1, "  hi  ");
    let out = a.on_inbound(&mut dir, InboundEvent::Data(inbound));
    match out {
        InboundOutcome::Publish(p) => assert_eq!(p.contents, "  hi  "),
        _ => panic!("a chat message is republished"),
    }
    assert_eq!(dir.message_at(0).message, "hi");
}

#[test]
fn disconnect_removes_and_notifies_the_rest() {
    // Scenario: A's socket closes; A leaves the directory; B is told.
    let mut dir = Directory::new();
    let mut bus = Bus::new(16);
    let (mut a, _sub_a, _) = connect(&mut dir, &mut bus, 1, "alice");
    let (b, mut sub_b, _) = connect(&mut dir, &mut bus, 2, "bob");
    let _ = expect_delivery(&mut sub_b, &bus);

    let out = a.on_inbound(&mut dir, InboundEvent::Eof);
    assert!(matches!(out, InboundOutcome::Shutdown));
    assert_eq!(a.state, HandlerState::Closing);
    let goodbye = a.finish_close(&mut dir);
    assert_eq!(a.state, HandlerState::Closed);
    assert!(dir.lookup(1).is_none());
    assert_eq!(dir.lookup(2).unwrap(), "bob");
    assert_eq!(goodbye.packet_type, PacketType::UserDisconnected);
    assert_eq!(goodbye.user_id, 1);
    bus.publish(goodbye);

    let seen = expect_delivery(&mut sub_b, &bus);
    assert_eq!(seen.packet_type, PacketType::UserDisconnected);
    assert_eq!(seen.user_id, 1);
    assert!(b.should_forward(&seen));
    assert!(!a.should_forward(&seen), "an own roster event is never echoed");
}

#[test]
fn rename_updates_directory_and_echoes_to_sender() {
    // Scenario: A renames to "alicia"; the directory entry changes; the echo
    // goes back to A as well as to B.
    let mut dir = Directory::new();
    let mut bus = Bus::new(16);
    let (mut a, mut sub_a, _) = connect(&mut dir, &mut bus, 1, "alice");
    let (b, mut sub_b, _) = connect(&mut dir, &mut bus, 2, "bob");
    let _ = expect_delivery(&mut sub_a, &bus);
    let _ = expect_delivery(&mut sub_a, &bus);
    let _ = expect_delivery(&mut sub_b, &bus);

    let inbound = packet(PacketType::UsernameChange, 1, "alicia");
    let out = a.on_inbound(&mut dir, InboundEvent::Data(inbound));
    let republished = match out {
        InboundOutcome::Publish(p) => p,
        _ => panic!("a name change is republished"),
    };
    assert_eq!(dir.lookup(1).unwrap(), "alicia");
    bus.publish(republished);

    let to_a = expect_delivery(&mut sub_a, &bus);
    assert_eq!(to_a.packet_type, PacketType::UsernameChange);
    assert_eq!(to_a.user_id, 1);
    assert!(a.should_forward(&to_a), "the sender sees its own name change");
    let to_b = expect_delivery(&mut sub_b, &bus);
    assert!(b.should_forward(&to_b));
}

#[test]
fn unknown_kinds_from_a_client_are_ignored() {
    let mut dir = Directory::new();
    let mut bus = Bus::new(16);
    let (mut a, _sub_a, _) = connect(&mut dir, &mut bus, 1, "alice");
    let stray = packet(PacketType::IDAssign, 1, "");
    let out = a.on_inbound(&mut dir, InboundEvent::Data(stray));
    assert!(matches!(out, InboundOutcome::Ignored));
    assert_eq!(a.state, HandlerState::Active);
    assert_eq!(dir.user_count(), 1);
    assert_eq!(dir.message_count(), 0);
}

#[test]
fn decode_failure_terminates_only_that_connection() {
    // Scenario: a malformed packet on A's connection shuts A down; B's
    // message flow is unaffected.
    let mut dir = Directory::new();
    let mut bus = Bus::new(16);
    let (mut a, _sub_a, _) = connect(&mut dir, &mut bus, 1, "alice");
    let (mut b, mut sub_b, _) = connect(&mut dir, &mut bus, 2, "bob");
    let _ = expect_delivery(&mut sub_b, &bus);

    let out = a.on_inbound(&mut dir, InboundEvent::DecodeFailed);
    assert!(matches!(out, InboundOutcome::Shutdown));
    let goodbye = a.finish_close(&mut dir);
    bus.publish(goodbye);

    assert_eq!(b.state, HandlerState::Active);
    assert_eq!(dir.lookup(2).unwrap(), "bob");
    let inbound = packet(PacketType::NewMessage, 2, "still here");
    let out = b.on_inbound(&mut dir, InboundEvent::Data(inbound));
    let republished = match out {
        InboundOutcome::Publish(p) => p,
        _ => panic!("b's messages still flow"),
    };
    bus.publish(republished);
    let seen = expect_delivery(&mut sub_b, &bus);
    assert_eq!(seen.packet_type, PacketType::UserDisconnected);
    let seen = expect_delivery(&mut sub_b, &bus);
    assert_eq!(seen.contents, "still here");
    assert_eq!(dir.message_count(), 1);
    assert_eq!(dir.message_at(0).sender_id, 2);
}

#[test]
fn rename_after_disconnect_is_tolerated() {
    // The race the design allows: an in-flight rename after removal fails
    // only the operation; the handler survives to its clean shutdown.
    let mut dir = Directory::new();
    let mut bus = Bus::new(16);
    let (mut a, _sub_a, _) = connect(&mut dir, &mut bus, 1, "alice");
    assert!(dir.remove(1).is_ok());
    let inbound = packet(PacketType::UsernameChange, 1, "alicia");
    let out = a.on_inbound(&mut dir, InboundEvent::Data(inbound));
    assert!(matches!(out, InboundOutcome::Publish(_)));
    assert_eq!(a.state, HandlerState::Active);
    assert!(dir.lookup(1).is_none());
}
