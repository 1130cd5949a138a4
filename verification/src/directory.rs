//! The shared directory: the table of connected users and the append-only
//! message log. It is the one resource mutated by every connection handler;
//! the server wraps it in a single mutual-exclusion domain, and every
//! operation here is one atomic step of that domain.

use vstd::prelude::*;

verus! {

/// One connected participant: the id assigned at connection time and the
/// mutable display name.
pub struct User {
    pub uid: u32,
    pub name: String,
}

/// Mathematical view of a user.
pub struct UserView {
    pub uid: u32,
    pub name: Seq<char>,
}

impl View for User {
    type V = UserView;

    open spec fn view(&self) -> UserView {
        UserView { uid: self.uid, name: self.name@ }
    }
}

/// One chat line: a random message id, the author's user id, and the trimmed
/// text. Log entries are never mutated or deleted.
pub struct Message {
    pub uid: u32,
    pub sender_id: u32,
    pub message: String,
}

/// Mathematical view of a message.
pub struct MessageView {
    pub uid: u32,
    pub sender_id: u32,
    pub message: Seq<char>,
}

impl View for Message {
    type V = MessageView;

    open spec fn view(&self) -> MessageView {
        MessageView { uid: self.uid, sender_id: self.sender_id, message: self.message@ }
    }
}

/// The error of an operation on a user id that is not registered. Recoverable:
/// the offending operation fails, the caller proceeds.
#[derive(Clone, Copy, PartialEq, Eq, Structural, Debug)]
pub struct NotFound;

/// The shared table of connected users and the message log.
pub struct Directory {
    users: Vec<User>,
    messages: Vec<Message>,
}

/// Mathematical view of a directory: the users in registration order and the
/// message log in append order.
pub struct DirectoryView {
    pub users: Seq<UserView>,
    pub messages: Seq<MessageView>,
}

impl View for Directory {
    type V = DirectoryView;

    closed spec fn view(&self) -> DirectoryView {
        DirectoryView {
            users: self.users@.map_values(|u: User| u@),
            messages: self.messages@.map_values(|m: Message| m@),
        }
    }
}

impl DirectoryView {
    /// Whether some user carries the given id.
    pub open spec fn contains_uid(self, id: u32) -> bool {
        exists|i: int| 0 <= i < self.users.len() && self.users[i].uid == id
    }

    /// The position of the user carrying the given id.
    pub open spec fn index_of(self, id: u32) -> int {
        choose|i: int| 0 <= i < self.users.len() && self.users[i].uid == id
    }

    /// The stored display name of the given id.
    pub open spec fn name_of(self, id: u32) -> Seq<char> {
        self.users[self.index_of(id)].name
    }

    /// Well-formedness: no two users carry the same id.
    pub open spec fn users_wf(self) -> bool {
        forall|i: int, j: int|
            0 <= i < j < self.users.len() ==> self.users[i].uid != self.users[j].uid
    }
}

/// The users of `users` other than `exclude`, in stored order, as (id, name)
/// pairs: what a newcomer is shown of the existing roster.
pub open spec fn roster_excluding(users: Seq<UserView>, exclude: u32) -> Seq<(u32, Seq<char>)>
    decreases users.len(),
{
    if users.len() == 0 {
        Seq::empty()
    } else {
        let prefix = roster_excluding(users.drop_last(), exclude);
        let u = users.last();
        if u.uid == exclude {
            prefix
        } else {
            prefix.push((u.uid, u.name))
        }
    }
}

/// A roster snapshot never includes the id it was asked to exclude: the
/// replay sent to a connecting client never lists the client itself.
pub proof fn lemma_roster_excludes_newcomer(users: Seq<UserView>, exclude: u32)
    ensures
        forall|k: int|
            0 <= k < roster_excluding(users, exclude).len()
                ==> (#[trigger] roster_excluding(users, exclude)[k]).0 != exclude,
    decreases users.len(),
{
    if users.len() > 0 {
        lemma_roster_excludes_newcomer(users.drop_last(), exclude);
        let p = roster_excluding(users.drop_last(), exclude);
        let r = roster_excluding(users, exclude);
        assert forall|k: int| 0 <= k < r.len() implies (#[trigger] r[k]).0 != exclude by {
            if k < p.len() {
                assert(r[k] == p[k]);
            } else {
                assert(users.last().uid != exclude);
            }
        }
    }
}

/// Every user other than the excluded one appears in the roster snapshot.
pub proof fn lemma_roster_complete(users: Seq<UserView>, exclude: u32)
    ensures
        forall|i: int|
            0 <= i < users.len() && (#[trigger] users[i]).uid != exclude
                ==> roster_excluding(users, exclude).contains((users[i].uid, users[i].name)),
    decreases users.len(),
{
    if users.len() > 0 {
        lemma_roster_complete(users.drop_last(), exclude);
        let r = roster_excluding(users, exclude);
        let p = roster_excluding(users.drop_last(), exclude);
        assert forall|i: int|
            0 <= i < users.len() && (#[trigger] users[i]).uid != exclude
                implies r.contains((users[i].uid, users[i].name)) by {
            if i < users.len() - 1 {
                assert(users.drop_last()[i] == users[i]);
                let k = choose|k: int|
                    0 <= k < p.len() && p[k] == (users[i].uid, users[i].name);
                if users.last().uid == exclude {
                    assert(r[k] == (users[i].uid, users[i].name));
                } else {
                    assert(r[k] == (users[i].uid, users[i].name));
                }
            } else {
                assert(r.last() == (users[i].uid, users[i].name));
            }
        }
    }
}

/// Under uid uniqueness, a found position is the position `index_of` picks.
proof fn lemma_index_of(d: DirectoryView, id: u32, i: int)
    requires
        d.users_wf(),
        0 <= i < d.users.len(),
        d.users[i].uid == id,
    ensures
        d.contains_uid(id),
        d.index_of(id) == i,
        d.name_of(id) == d.users[i].name,
{
    assert(d.contains_uid(id));
    let k = d.index_of(id);
    assert(0 <= k < d.users.len() && d.users[k].uid == id);
    if k < i {
        assert(d.users[k].uid != d.users[i].uid);
    }
    if i < k {
        assert(d.users[i].uid != d.users[k].uid);
    }
}

impl Directory {
    /// An empty directory: no users, no messages.
    pub fn new() -> (r: Directory)
        ensures
            r@.users == Seq::<UserView>::empty(),
            r@.messages == Seq::<MessageView>::empty(),
            r@.users_wf(),
    {
        let r = Directory { users: Vec::new(), messages: Vec::new() };
        proof {
            assert(r@.users =~= Seq::<UserView>::empty());
            assert(r@.messages =~= Seq::<MessageView>::empty());
        }
        r
    }

    /// Inserts the user entry, or overwrites the stored name when the id is
    /// already registered.
    pub fn register(&mut self, id: u32, name: String)
        requires
            old(self)@.users_wf(),
        ensures
            final(self)@.users_wf(),
            final(self)@.messages == old(self)@.messages,
            old(self)@.contains_uid(id) ==> final(self)@.users == old(self)@.users.update(
                old(self)@.index_of(id),
                UserView { uid: id, name: name@ },
            ),
            !old(self)@.contains_uid(id) ==> final(self)@.users == old(self)@.users.push(
                UserView { uid: id, name: name@ },
            ),
            final(self)@.contains_uid(id),
            final(self)@.name_of(id) == name@,
    {
        let ghost pre = self@;
        let n = self.users.len();
        let mut i: usize = 0;
        loop
            invariant
                i <= n,
                n == self.users.len(),
                forall|j: int| 0 <= j < i ==> self@.users[j].uid != id,
            ensures
                n == self.users.len(),
                i <= n,
                i < n ==> self@.users[i as int].uid == id,
                i == n ==> !self@.contains_uid(id),
                forall|j: int| 0 <= j < i ==> self@.users[j].uid != id,
            decreases n - i,
        {
            if i == n {
                break;
            }
            if self.users[i].uid == id {
                break;
            }
            i = i + 1;
        }
        if i < n {
            proof {
                lemma_index_of(pre, id, i as int);
            }
            self.users[i] = User { uid: id, name };
            proof {
                assert(self@.users =~= pre.users.update(i as int, UserView { uid: id, name: name@ }));
                assert forall|a: int, b: int| 0 <= a < b < self@.users.len()
                    implies (#[trigger] self@.users[a]).uid != (#[trigger] self@.users[b]).uid by {
                    assert(pre.users[a].uid != pre.users[b].uid);
                }
                lemma_index_of(self@, id, i as int);
            }
        } else {
            self.users.push(User { uid: id, name });
            proof {
                assert(self@.users =~= pre.users.push(UserView { uid: id, name: name@ }));
                assert forall|a: int, b: int| 0 <= a < b < self@.users.len()
                    implies (#[trigger] self@.users[a]).uid != (#[trigger] self@.users[b]).uid by {
                    if b < n {
                        assert(pre.users[a].uid != pre.users[b].uid);
                    } else {
                        assert(pre.users[a].uid != id);
                    }
                }
                lemma_index_of(self@, id, n as int);
            }
        }
        proof {
            assert(self@.messages =~= pre.messages);
        }
    }

    /// Atomically swaps the stored name of the given id for the new one.
    /// Returns `NotFound`, and leaves the directory unchanged, when no such id
    /// is registered.
    pub fn rename(&mut self, id: u32, new_name: String) -> (r: Result<(), NotFound>)
        requires
            old(self)@.users_wf(),
        ensures
            final(self)@.users_wf(),
            final(self)@.messages == old(self)@.messages,
            r is Ok <==> old(self)@.contains_uid(id),
            r is Ok ==> final(self)@.users == old(self)@.users.update(
                old(self)@.index_of(id),
                UserView { uid: id, name: new_name@ },
            ),
            r is Ok ==> final(self)@.contains_uid(id) && final(self)@.name_of(id) == new_name@,
            r is Err ==> *final(self) == *old(self),
    {
        let ghost pre = self@;
        let n = self.users.len();
        let mut i: usize = 0;
        loop
            invariant
                i <= n,
                n == self.users.len(),
                forall|j: int| 0 <= j < i ==> self@.users[j].uid != id,
            ensures
                n == self.users.len(),
                i <= n,
                i < n ==> self@.users[i as int].uid == id,
                i == n ==> !self@.contains_uid(id),
            decreases n - i,
        {
            if i == n {
                break;
            }
            if self.users[i].uid == id {
                break;
            }
            i = i + 1;
        }
        if i < n {
            proof {
                lemma_index_of(pre, id, i as int);
            }
            self.users[i] = User { uid: id, name: new_name };
            proof {
                assert(self@.users =~= pre.users.update(i as int, UserView { uid: id, name: new_name@ }));
                assert forall|a: int, b: int| 0 <= a < b < self@.users.len()
                    implies (#[trigger] self@.users[a]).uid != (#[trigger] self@.users[b]).uid by {
                    assert(pre.users[a].uid != pre.users[b].uid);
                }
                lemma_index_of(self@, id, i as int);
                assert(self@.messages =~= pre.messages);
            }
            Ok(())
        } else {
            Err(NotFound)
        }
    }

    /// Deletes the entry of the given id. Returns `NotFound`, and leaves the
    /// directory unchanged, when no such id is registered.
    pub fn remove(&mut self, id: u32) -> (r: Result<(), NotFound>)
        requires
            old(self)@.users_wf(),
        ensures
            final(self)@.users_wf(),
            final(self)@.messages == old(self)@.messages,
            r is Ok <==> old(self)@.contains_uid(id),
            r is Ok ==> final(self)@.users == old(self)@.users.remove(old(self)@.index_of(id)),
            r is Err ==> *final(self) == *old(self),
            !final(self)@.contains_uid(id),
    {
        let ghost pre = self@;
        let n = self.users.len();
        let mut i: usize = 0;
        loop
            invariant
                i <= n,
                n == self.users.len(),
                forall|j: int| 0 <= j < i ==> self@.users[j].uid != id,
            ensures
                n == self.users.len(),
                i <= n,
                i < n ==> self@.users[i as int].uid == id,
                i == n ==> !self@.contains_uid(id),
                forall|j: int| 0 <= j < i ==> self@.users[j].uid != id,
            decreases n - i,
        {
            if i == n {
                break;
            }
            if self.users[i].uid == id {
                break;
            }
            i = i + 1;
        }
        if i < n {
            proof {
                lemma_index_of(pre, id, i as int);
            }
            self.users.remove(i);
            proof {
                assert(self@.users =~= pre.users.remove(i as int));
                assert forall|a: int, b: int| 0 <= a < b < self@.users.len()
                    implies (#[trigger] self@.users[a]).uid != (#[trigger] self@.users[b]).uid by {
                    let pa: int = if a < i { a } else { a + 1 };
                    let pb: int = if b < i { b } else { b + 1 };
                    assert(self@.users[a] == pre.users[pa]);
                    assert(self@.users[b] == pre.users[pb]);
                    assert(pre.users[pa].uid != pre.users[pb].uid);
                }
                assert(self@.messages =~= pre.messages);
                assert forall|k: int| 0 <= k < self@.users.len()
                    implies (#[trigger] self@.users[k]).uid != id by {
                    if k < i {
                        assert(self@.users[k] == pre.users[k]);
                    } else {
                        assert(self@.users[k] == pre.users[k + 1]);
                    }
                }
            }
            Ok(())
        } else {
            Err(NotFound)
        }
    }

    /// The (id, name) pairs of every registered user except `exclude`, in
    /// stored order: the roster replayed to a newly connected client, which
    /// must never include the newcomer itself.
    pub fn snapshot_users(&self, exclude: u32) -> (r: Vec<(u32, String)>)
        ensures
            r@.map_values(|p: (u32, String)| (p.0, p.1@)) == roster_excluding(self@.users, exclude),
            forall|k: int| 0 <= k < r@.len() ==> (#[trigger] r@[k]).0 != exclude,
    {
        let n = self.users.len();
        let mut r: Vec<(u32, String)> = Vec::new();
        proof {
            assert(self@.users.take(0) =~= Seq::<UserView>::empty());
            assert(r@.map_values(|p: (u32, String)| (p.0, p.1@)) =~= roster_excluding(
                self@.users.take(0),
                exclude,
            ));
        }
        let mut i: usize = 0;
        while i < n
            invariant
                i <= n,
                n == self.users.len(),
                r@.map_values(|p: (u32, String)| (p.0, p.1@)) == roster_excluding(
                    self@.users.take(i as int),
                    exclude,
                ),
            decreases n - i,
        {
            let ghost pre = r@.map_values(|p: (u32, String)| (p.0, p.1@));
            let u = &self.users[i];
            if u.uid != exclude {
                r.push((u.uid, u.name.clone()));
            }
            proof {
                assert(self@.users.take(i + 1).drop_last() =~= self@.users.take(i as int));
                assert(self@.users.take(i + 1).last() == self@.users[i as int]);
                if u@.uid != exclude {
                    assert(r@.map_values(|p: (u32, String)| (p.0, p.1@)) =~= pre.push(
                        (u@.uid, u@.name),
                    ));
                } else {
                    assert(r@.map_values(|p: (u32, String)| (p.0, p.1@)) =~= pre);
                }
            }
            i = i + 1;
        }
        proof {
            assert(self@.users.take(n as int) =~= self@.users);
            lemma_roster_excludes_newcomer(self@.users, exclude);
            assert forall|k: int| 0 <= k < r@.len() implies (#[trigger] r@[k]).0 != exclude by {
                assert(r@.map_values(|p: (u32, String)| (p.0, p.1@))[k] == (r@[k].0, r@[k].1@));
            }
        }
        r
    }

    /// Appends a chat line to the log with a freshly drawn message id and
    /// returns that id. The log is never truncated; users are untouched.
    pub fn append_message(&mut self, sender_id: u32, text: String) -> (mid: u32)
        ensures
            final(self)@.users == old(self)@.users,
            final(self)@.messages == old(self)@.messages.push(
                MessageView { uid: mid, sender_id, message: text@ },
            ),
    {
        let ghost pre = self@;
        let mid = rand::random::<u32>();
        self.messages.push(Message { uid: mid, sender_id, message: text });
        proof {
            assert(self@.users =~= pre.users);
            assert(self@.messages =~= pre.messages.push(
                MessageView { uid: mid, sender_id, message: text@ },
            ));
        }
        mid
    }

    /// The stored name of the given id, or `None` when it is not registered.
    pub fn lookup(&self, id: u32) -> (r: Option<&String>)
        requires
            self@.users_wf(),
        ensures
            match r {
                Option::Some(name) => self@.contains_uid(id) && name@ == self@.name_of(id),
                Option::None => !self@.contains_uid(id),
            },
    {
        let n = self.users.len();
        let mut i: usize = 0;
        loop
            invariant
                i <= n,
                n == self.users.len(),
                forall|j: int| 0 <= j < i ==> self@.users[j].uid != id,
            ensures
                n == self.users.len(),
                i <= n,
                i < n ==> self@.users[i as int].uid == id,
                i == n ==> !self@.contains_uid(id),
            decreases n - i,
        {
            if i == n {
                break;
            }
            if self.users[i].uid == id {
                break;
            }
            i = i + 1;
        }
        if i < n {
            proof {
                lemma_index_of(self@, id, i as int);
            }
            Some(&self.users[i].name)
        } else {
            None
        }
    }

    /// How many users are registered.
    pub fn user_count(&self) -> (r: usize)
        ensures
            r == self@.users.len(),
    {
        self.users.len()
    }

    /// How many chat lines the log holds.
    pub fn message_count(&self) -> (r: usize)
        ensures
            r == self@.messages.len(),
    {
        self.messages.len()
    }

    /// The chat line at the given position of the log.
    pub fn message_at(&self, i: usize) -> (r: &Message)
        requires
            i < self@.messages.len(),
        ensures
            r@ == self@.messages[i as int],
    {
        &self.messages[i]
    }
}

} // verus!
