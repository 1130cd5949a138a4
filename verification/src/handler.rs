//! The per-connection handler state machine: Handshaking, Active, Closing,
//! Closed. Each accepted socket gets one handler; the surrounding runtime
//! reads and writes the socket and the broadcast channel and hands every
//! decision to the functions here, which mutate the shared directory and say
//! which packets to publish and which to write back to this socket.

use vstd::prelude::*;

use crate::directory::Directory;
use crate::directory::UserView;
use crate::directory::lemma_roster_excludes_newcomer;
use crate::directory::roster_excluding;
use crate::packet::Packet;
use crate::packet::PacketType;
use crate::packet::PacketView;
use crate::text::trim_spec;
use crate::text::trim_str;

verus! {

/// The states of a connection handler.
#[derive(Clone, Copy, PartialEq, Eq, Structural, Debug)]
pub enum HandlerState {
    Handshaking,
    Active,
    Closing,
    Closed,
}

/// One connection handler: its state and the user id assigned to this
/// connection.
pub struct Handler {
    pub state: HandlerState,
    pub uid: u32,
}

/// What the read half of a connection produced: a decoded packet,
/// end-of-stream, or a decode failure. The two failure events are fatal for
/// this connection only.
pub enum InboundEvent {
    Data(Packet),
    Eof,
    DecodeFailed,
}

/// What the handler decided for one inbound event: republish the packet on
/// the bus, do nothing, or shut this connection down.
pub enum InboundOutcome {
    Publish(Packet),
    Ignored,
    Shutdown,
}

/// The forwarding policy: a broadcast packet is written to a connection's
/// socket if and only if it originates from another connection, or is a chat
/// message or name change — those two kinds are echoed back to their own
/// sender, while roster events never are.
pub open spec fn forwarding_policy(own_id: u32, p: PacketView) -> bool {
    p.user_id != own_id || p.packet_type == PacketType::NewMessage || p.packet_type
        == PacketType::UsernameChange
}

/// An own `NewMessage` or `UsernameChange` is always forwarded back to its
/// originator; an own `UserConnected`, `UserDisconnected` or `UserList` is
/// never written back to the originator's socket.
pub proof fn lemma_forwarding_policy(own_id: u32, p: PacketView)
    ensures
        p.packet_type == PacketType::NewMessage || p.packet_type == PacketType::UsernameChange
            ==> forwarding_policy(own_id, p),
        p.user_id == own_id && (p.packet_type == PacketType::UserConnected || p.packet_type
            == PacketType::UserDisconnected || p.packet_type == PacketType::UserList)
            ==> !forwarding_policy(own_id, p),
{
}

/// The `UserList` replay for a roster: one packet per (id, name) pair, in
/// roster order.
pub open spec fn user_list_packets(roster: Seq<(u32, Seq<char>)>) -> Seq<PacketView> {
    roster.map_values(
        |p: (u32, Seq<char>)|
            PacketView { packet_type: PacketType::UserList, user_id: p.0, contents: p.1 },
    )
}

/// A fresh connection id, drawn from the 32-bit random space. Uniqueness is
/// not defended; a collision is accepted in this design.
pub fn fresh_user_id() -> u32 {
    rand::random::<u32>()
}

impl Handler {
    /// A handler for a freshly accepted connection: it enters Handshaking,
    /// and the returned `IDAssign` packet is the first thing written to the
    /// socket.
    pub fn new(uid: u32) -> (r: (Handler, Packet))
        ensures
            r.0.state == HandlerState::Handshaking,
            r.0.uid == uid,
            r.1@.packet_type == PacketType::IDAssign,
            r.1@.user_id == uid,
            r.1@.contents == Seq::<char>::empty(),
    {
        (
            Handler { state: HandlerState::Handshaking, uid },
            Packet::without_contents(PacketType::IDAssign, uid),
        )
    }

    /// One packet read while handshaking. Every kind but `UsernameChange` is
    /// discarded without effect. On `UsernameChange` the trimmed contents
    /// become the display name, and under one directory-lock acquisition the
    /// user is registered, the `UserConnected` event to broadcast is
    /// produced, and the point-to-point `UserList` replay for this socket is
    /// taken — one packet per other registered user, never one for the
    /// newcomer itself. The handler becomes Active.
    pub fn on_handshake_packet(&mut self, dir: &mut Directory, p: &Packet) -> (r: Option<
        (Packet, Vec<Packet>),
    >)
        requires
            old(self).state == HandlerState::Handshaking,
            old(dir)@.users_wf(),
        ensures
            final(self).uid == old(self).uid,
            final(dir)@.users_wf(),
            p@.packet_type != PacketType::UsernameChange ==> {
                &&& r is None
                &&& *final(self) == *old(self)
                &&& *final(dir) == *old(dir)
            },
            p@.packet_type == PacketType::UsernameChange ==> {
                &&& final(self).state == HandlerState::Active
                &&& final(dir)@.messages == old(dir)@.messages
                &&& final(dir)@.contains_uid(old(self).uid)
                &&& final(dir)@.name_of(old(self).uid) == trim_spec(p@.contents)
                &&& (old(dir)@.contains_uid(old(self).uid) ==> final(dir)@.users == old(
                    dir,
                )@.users.update(
                    old(dir)@.index_of(old(self).uid),
                    UserView { uid: old(self).uid, name: trim_spec(p@.contents) },
                ))
                &&& (!old(dir)@.contains_uid(old(self).uid) ==> final(dir)@.users == old(
                    dir,
                )@.users.push(UserView { uid: old(self).uid, name: trim_spec(p@.contents) }))
                &&& (r matches Option::Some(out) && out.0@ == (PacketView {
                    packet_type: PacketType::UserConnected,
                    user_id: old(self).uid,
                    contents: trim_spec(p@.contents),
                }) && out.1@.map_values(|q: Packet| q@) == user_list_packets(
                    roster_excluding(final(dir)@.users, old(self).uid),
                ) && (forall|k: int|
                    0 <= k < out.1@.len() ==> (#[trigger] out.1@[k])@.user_id != old(self).uid))
            },
    {
        match p.packet_type {
            PacketType::UsernameChange => {
                let name = trim_str(p.contents.as_str());
                let connected = Packet::new(PacketType::UserConnected, self.uid, name.clone());
                dir.register(self.uid, name);
                let roster = dir.snapshot_users(self.uid);
                let ghost roster_spec = roster_excluding(dir@.users, self.uid);
                let mut replay: Vec<Packet> = Vec::new();
                proof {
                    assert(replay@.map_values(|q: Packet| q@) =~= user_list_packets(
                        roster_spec.take(0),
                    ));
                }
                let n = roster.len();
                let mut i: usize = 0;
                while i < n
                    invariant
                        i <= n,
                        n == roster.len(),
                        roster@.map_values(|pr: (u32, String)| (pr.0, pr.1@)) == roster_spec,
                        replay@.map_values(|q: Packet| q@) == user_list_packets(
                            roster_spec.take(i as int),
                        ),
                    decreases n - i,
                {
                    let ghost pre = replay@.map_values(|q: Packet| q@);
                    let entry_id = roster[i].0;
                    let entry_name = roster[i].1.clone();
                    replay.push(Packet::new(PacketType::UserList, entry_id, entry_name));
                    proof {
                        assert(roster_spec[i as int] == (roster@[i as int].0, roster@[i as int].1@));
                        assert(replay@.map_values(|q: Packet| q@) =~= pre.push(
                            PacketView {
                                packet_type: PacketType::UserList,
                                user_id: roster_spec[i as int].0,
                                contents: roster_spec[i as int].1,
                            },
                        ));
                        assert(replay@.map_values(|q: Packet| q@) =~= user_list_packets(
                            roster_spec.take(i + 1),
                        ));
                    }
                    i = i + 1;
                }
                proof {
                    assert(roster_spec.take(n as int) =~= roster_spec);
                    lemma_roster_excludes_newcomer(dir@.users, self.uid);
                    assert forall|k: int| 0 <= k < replay@.len()
                        implies (#[trigger] replay@[k])@.user_id != self.uid by {
                        assert(replay@.map_values(|q: Packet| q@)[k] == replay@[k]@);
                        assert(user_list_packets(roster_spec)[k].user_id == roster_spec[k].0);
                    }
                }
                self.state = HandlerState::Active;
                Some((connected, replay))
            },
            _ => None,
        }
    }

    /// One inbound event while Active. End-of-stream or a decode failure
    /// moves the handler to Closing — fatal for this connection only, the
    /// directory is untouched here. A `UsernameChange` swaps this user's
    /// stored name for the trimmed text (an unregistered id fails only that
    /// operation and changes nothing) and republishes the packet exactly as received. A
    /// `NewMessage` appends a chat line — trimmed text, fresh random message
    /// id, this connection as sender — and republishes the packet. Any other
    /// kind from a client is ignored.
    pub fn on_inbound(&mut self, dir: &mut Directory, ev: InboundEvent) -> (r: InboundOutcome)
        requires
            old(self).state == HandlerState::Active,
            old(dir)@.users_wf(),
        ensures
            final(self).uid == old(self).uid,
            final(dir)@.users_wf(),
            (ev is Eof || ev is DecodeFailed) ==> {
                &&& final(self).state == HandlerState::Closing
                &&& r is Shutdown
                &&& *final(dir) == *old(dir)
            },
            ev matches InboundEvent::Data(p) ==> {
                &&& final(self).state == HandlerState::Active
                &&& (p@.packet_type == PacketType::UsernameChange ==> {
                    &&& (old(dir)@.contains_uid(old(self).uid) ==> final(dir)@.users == old(
                        dir,
                    )@.users.update(
                        old(dir)@.index_of(old(self).uid),
                        UserView { uid: old(self).uid, name: trim_spec(p@.contents) },
                    ))
                    &&& (!old(dir)@.contains_uid(old(self).uid) ==> *final(dir) == *old(dir))
                    &&& final(dir)@.messages == old(dir)@.messages
                    &&& (r matches InboundOutcome::Publish(q) && q@ == p@)
                })
                &&& (p@.packet_type == PacketType::NewMessage ==> {
                    &&& final(dir)@.users == old(dir)@.users
                    &&& final(dir)@.messages.len() == old(dir)@.messages.len() + 1
                    &&& final(dir)@.messages.drop_last() == old(dir)@.messages
                    &&& final(dir)@.messages.last().sender_id == old(self).uid
                    &&& final(dir)@.messages.last().message == trim_spec(p@.contents)
                    &&& (r matches InboundOutcome::Publish(q) && q@ == p@)
                })
                &&& (p@.packet_type != PacketType::UsernameChange && p@.packet_type
                    != PacketType::NewMessage ==> {
                    &&& *final(dir) == *old(dir)
                    &&& r is Ignored
                })
            },
    {
        match ev {
            InboundEvent::Eof => {
                self.state = HandlerState::Closing;
                InboundOutcome::Shutdown
            },
            InboundEvent::DecodeFailed => {
                self.state = HandlerState::Closing;
                InboundOutcome::Shutdown
            },
            InboundEvent::Data(p) => {
                match p.packet_type {
                    PacketType::UsernameChange => {
                        let trimmed = trim_str(p.contents.as_str());
                        let renamed = dir.rename(self.uid, trimmed);
                        match renamed {
                            Ok(_) => (),
                            Err(_) => (),
                        }
                        InboundOutcome::Publish(p)
                    },
                    PacketType::NewMessage => {
                        let ghost pre = dir@.messages;
                        let trimmed = trim_str(p.contents.as_str());
                        let _mid = dir.append_message(self.uid, trimmed);
                        proof {
                            assert(dir@.messages.drop_last() =~= pre);
                        }
                        InboundOutcome::Publish(p)
                    },
                    _ => InboundOutcome::Ignored,
                }
            },
        }
    }

    /// Tear-down of a closing connection: under the directory lock the
    /// user's entry is deleted (an already-removed id is tolerated and
    /// changes nothing), and the `UserDisconnected` event to broadcast is
    /// produced. The handler reaches its terminal state.
    pub fn finish_close(&mut self, dir: &mut Directory) -> (r: Packet)
        requires
            old(self).state == HandlerState::Closing,
            old(dir)@.users_wf(),
        ensures
            final(self).uid == old(self).uid,
            final(self).state == HandlerState::Closed,
            final(dir)@.users_wf(),
            final(dir)@.messages == old(dir)@.messages,
            old(dir)@.contains_uid(old(self).uid) ==> final(dir)@.users == old(
                dir,
            )@.users.remove(old(dir)@.index_of(old(self).uid)),
            !old(dir)@.contains_uid(old(self).uid) ==> *final(dir) == *old(dir),
            !final(dir)@.contains_uid(old(self).uid),
            r@.packet_type == PacketType::UserDisconnected,
            r@.user_id == old(self).uid,
            r@.contents == Seq::<char>::empty(),
    {
        let removed = dir.remove(self.uid);
        match removed {
            Ok(_) => (),
            Err(_) => (),
        }
        self.state = HandlerState::Closed;
        Packet::without_contents(PacketType::UserDisconnected, self.uid)
    }

    /// Whether a packet received from the broadcast bus is written to this
    /// connection's socket: the forwarding policy.
    pub fn should_forward(&self, p: &Packet) -> (r: bool)
        ensures
            r == forwarding_policy(self.uid, p@),
    {
        p.user_id != self.uid || p.packet_type == PacketType::NewMessage || p.packet_type
            == PacketType::UsernameChange
    }
}

} // verus!
