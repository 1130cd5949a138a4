//! The client's local mirror of chat state, built purely from received
//! packets: its own name, the roster of users, and the chat transcript. The
//! terminal front end renders this state; nothing here touches a socket.

use std::collections::HashMap;
use vstd::prelude::*;

use crate::directory::NotFound;
use crate::packet::Packet;
use crate::packet::PacketType;
use crate::text::trim_spec;
use crate::text::trim_str;

verus! {

broadcast use vstd::std_specs::hash::group_hash_axioms;

/// One line of the client's transcript, kept structured; the front end
/// formats it for display.
pub enum ChatLine {
    Joined(String),
    Left(String),
    Renamed(String, String),
    Chat(String, String),
}

/// Mathematical view of a transcript line.
pub enum ChatLineView {
    Joined(Seq<char>),
    Left(Seq<char>),
    Renamed(Seq<char>, Seq<char>),
    Chat(Seq<char>, Seq<char>),
}

impl View for ChatLine {
    type V = ChatLineView;

    open spec fn view(&self) -> ChatLineView {
        match self {
            ChatLine::Joined(name) => ChatLineView::Joined(name@),
            ChatLine::Left(name) => ChatLineView::Left(name@),
            ChatLine::Renamed(from, to) => ChatLineView::Renamed(from@, to@),
            ChatLine::Chat(name, text) => ChatLineView::Chat(name@, text@),
        }
    }
}

/// The client's mirror of the chat: its own name, every known user, and the
/// transcript.
pub struct ClientState {
    pub username: String,
    pub users: HashMap<u32, String>,
    pub messages: Vec<ChatLine>,
}

impl ClientState {
    /// The roster as a map from user id to name.
    pub open spec fn roster(self) -> Map<u32, Seq<char>> {
        self.users@.map_values(|name: String| name@)
    }

    /// The transcript as a sequence of line views.
    pub open spec fn lines(self) -> Seq<ChatLineView> {
        self.messages@.map_values(|line: ChatLine| line@)
    }

    /// An empty mirror: no name, no users, no transcript.
    pub fn new() -> (r: ClientState)
        ensures
            r.username@ == Seq::<char>::empty(),
            r.roster() == Map::<u32, Seq<char>>::empty(),
            r.lines() == Seq::<ChatLineView>::empty(),
    {
        let r = ClientState {
            username: String::new(),
            users: HashMap::new(),
            messages: Vec::new(),
        };
        proof {
            assert(r.roster() =~= Map::<u32, Seq<char>>::empty());
            assert(r.lines() =~= Seq::<ChatLineView>::empty());
        }
        r
    }

    /// Applies one received packet to the mirror, as the server's broadcasts
    /// dictate: `UserConnected` and `UserList` add to the roster (only the
    /// former announces it), `UserDisconnected` removes, `UsernameChange`
    /// swaps the name, `NewMessage` appends a trimmed chat line under the
    /// sender's current name. A roster packet naming an unknown user returns
    /// `NotFound` and changes nothing; kinds a server never broadcasts are
    /// ignored.
    pub fn apply_packet(&mut self, p: &Packet) -> (r: Result<(), NotFound>)
        ensures
            final(self).username == old(self).username,
            match p@.packet_type {
                PacketType::UserConnected => {
                    &&& r is Ok
                    &&& final(self).roster() == old(self).roster().insert(
                        p@.user_id,
                        p@.contents,
                    )
                    &&& final(self).lines() == old(self).lines().push(
                        ChatLineView::Joined(p@.contents),
                    )
                },
                PacketType::UserList => {
                    &&& r is Ok
                    &&& final(self).roster() == old(self).roster().insert(
                        p@.user_id,
                        p@.contents,
                    )
                    &&& final(self).lines() == old(self).lines()
                },
                PacketType::UserDisconnected => {
                    if old(self).roster().dom().contains(p@.user_id) {
                        &&& r is Ok
                        &&& final(self).roster() == old(self).roster().remove(p@.user_id)
                        &&& final(self).lines() == old(self).lines().push(
                            ChatLineView::Left(old(self).roster()[p@.user_id]),
                        )
                    } else {
                        &&& r is Err
                        &&& *final(self) == *old(self)
                    }
                },
                PacketType::UsernameChange => {
                    if old(self).roster().dom().contains(p@.user_id) {
                        &&& r is Ok
                        &&& final(self).roster() == old(self).roster().insert(
                            p@.user_id,
                            p@.contents,
                        )
                        &&& final(self).lines() == old(self).lines().push(
                            ChatLineView::Renamed(old(self).roster()[p@.user_id], p@.contents),
                        )
                    } else {
                        &&& r is Err
                        &&& *final(self) == *old(self)
                    }
                },
                PacketType::NewMessage => {
                    if old(self).roster().dom().contains(p@.user_id) {
                        &&& r is Ok
                        &&& final(self).roster() == old(self).roster()
                        &&& final(self).lines() == old(self).lines().push(
                            ChatLineView::Chat(
                                old(self).roster()[p@.user_id],
                                trim_spec(p@.contents),
                            ),
                        )
                    } else {
                        &&& r is Err
                        &&& *final(self) == *old(self)
                    }
                },
                _ => {
                    &&& r is Ok
                    &&& *final(self) == *old(self)
                },
            },
    {
        let ghost pre = *self;
        match p.packet_type {
            PacketType::UserConnected => {
                self.users.insert(p.user_id, p.contents.clone());
                self.messages.push(ChatLine::Joined(p.contents.clone()));
                proof {
                    assert(self.roster() =~= pre.roster().insert(p@.user_id, p@.contents));
                    assert(self.lines() =~= pre.lines().push(ChatLineView::Joined(p@.contents)));
                }
                Ok(())
            },
            PacketType::UserList => {
                self.users.insert(p.user_id, p.contents.clone());
                proof {
                    assert(self.roster() =~= pre.roster().insert(p@.user_id, p@.contents));
                    assert(self.lines() =~= pre.lines());
                }
                Ok(())
            },
            PacketType::UserDisconnected => {
                let name = match self.users.get(&p.user_id) {
                    Some(n) => n.clone(),
                    None => {
                        return Err(NotFound);
                    },
                };
                self.messages.push(ChatLine::Left(name));
                self.users.remove(&p.user_id);
                proof {
                    assert(self.roster() =~= pre.roster().remove(p@.user_id));
                    assert(self.lines() =~= pre.lines().push(
                        ChatLineView::Left(pre.roster()[p@.user_id]),
                    ));
                }
                Ok(())
            },
            PacketType::UsernameChange => {
                let name = match self.users.get(&p.user_id) {
                    Some(n) => n.clone(),
                    None => {
                        return Err(NotFound);
                    },
                };
                self.users.insert(p.user_id, p.contents.clone());
                self.messages.push(ChatLine::Renamed(name, p.contents.clone()));
                proof {
                    assert(self.roster() =~= pre.roster().insert(p@.user_id, p@.contents));
                    assert(self.lines() =~= pre.lines().push(
                        ChatLineView::Renamed(pre.roster()[p@.user_id], p@.contents),
                    ));
                }
                Ok(())
            },
            PacketType::NewMessage => {
                let name = match self.users.get(&p.user_id) {
                    Some(n) => n.clone(),
                    None => {
                        return Err(NotFound);
                    },
                };
                let text = trim_str(p.contents.as_str());
                self.messages.push(ChatLine::Chat(name, text));
                proof {
                    assert(self.roster() =~= pre.roster());
                    assert(self.lines() =~= pre.lines().push(
                        ChatLineView::Chat(pre.roster()[p@.user_id], trim_spec(p@.contents)),
                    ));
                }
                Ok(())
            },
            _ => Ok(()),
        }
    }
}

/// The client half of the handshake: whether a received packet is the id
/// assignment, and the id it carries. Any other kind is not acted upon.
pub fn id_assignment(p: &Packet) -> (r: Option<u32>)
    ensures
        p@.packet_type == PacketType::IDAssign ==> r == Option::Some(p@.user_id),
        p@.packet_type != PacketType::IDAssign ==> r is None,
{
    match p.packet_type {
        PacketType::IDAssign => Some(p.user_id),
        _ => None,
    }
}

/// The `UsernameChange` packet a client sends to submit its chosen name
/// during the handshake.
pub fn username_packet(uid: u32, name: String) -> (r: Packet)
    ensures
        r@.packet_type == PacketType::UsernameChange,
        r@.user_id == uid,
        r@.contents == name@,
{
    Packet::new(PacketType::UsernameChange, uid, name)
}

} // verus!
