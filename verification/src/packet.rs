//! The wire message envelope: the only packet type crossing the wire in
//! either direction, and its mathematical view.

use vstd::prelude::*;

verus! {

/// The closed enumeration of packet kinds. The default / unrecognized value
/// (`Unspecified`) must never be acted upon by any handler.
#[derive(Clone, Copy, PartialEq, Eq, Structural, Debug)]
pub enum PacketType {
    Unspecified,
    IDAssign,
    UserConnected,
    UserDisconnected,
    UserList,
    UsernameChange,
    NewMessage,
}

/// The wire message envelope. `contents` carries a display name for
/// `UsernameChange` / `UserConnected` / `UserList`, free text for
/// `NewMessage`, and is empty for `IDAssign` / `UserDisconnected`.
#[derive(Debug)]
pub struct Packet {
    pub packet_type: PacketType,
    pub user_id: u32,
    pub contents: String,
}

/// Mathematical view of a packet: the contents as a sequence of characters.
pub struct PacketView {
    pub packet_type: PacketType,
    pub user_id: u32,
    pub contents: Seq<char>,
}

impl View for Packet {
    type V = PacketView;

    open spec fn view(&self) -> PacketView {
        PacketView {
            packet_type: self.packet_type,
            user_id: self.user_id,
            contents: self.contents@,
        }
    }
}

impl Clone for Packet {
    fn clone(&self) -> (r: Self)
        ensures
            r@ == self@,
    {
        Packet {
            packet_type: self.packet_type,
            user_id: self.user_id,
            contents: self.contents.clone(),
        }
    }
}

impl Packet {
    /// Builds a packet from its three fields.
    pub fn new(packet_type: PacketType, user_id: u32, contents: String) -> (r: Packet)
        ensures
            r@ == (PacketView { packet_type, user_id, contents: contents@ }),
    {
        Packet { packet_type, user_id, contents }
    }

    /// A packet with empty contents, as sent for `IDAssign` and
    /// `UserDisconnected`.
    pub fn without_contents(packet_type: PacketType, user_id: u32) -> (r: Packet)
        ensures
            r@.packet_type == packet_type,
            r@.user_id == user_id,
            r@.contents == Seq::<char>::empty(),
    {
        Packet { packet_type, user_id, contents: String::new() }
    }
}

} // verus!
