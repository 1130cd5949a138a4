//! The input line: cursor movement and character editing as the terminal
//! client performs them, and the decision what a submitted line becomes — a
//! chat message, a command, or nothing.

use vstd::prelude::*;

use crate::packet::Packet;
use crate::packet::PacketType;
use crate::packet::PacketView;
use crate::text::chars_to_string;
use crate::text::is_space;
use crate::text::next_non_space;
use crate::text::next_space;
use crate::text::lemma_next_non_space;
use crate::text::lemma_next_space;

verus! {

/// One editable input line: its characters and the cursor position.
pub struct LineEditor {
    chars: Vec<char>,
    cursor: usize,
}

impl LineEditor {
    /// The characters of the line.
    pub closed spec fn content(self) -> Seq<char> {
        self.chars@
    }

    /// The cursor position, counted in characters.
    pub closed spec fn cursor_at(self) -> int {
        self.cursor as int
    }

    /// The cursor never stands past the end of the line.
    pub open spec fn wf(self) -> bool {
        0 <= self.cursor_at() <= self.content().len()
    }

    /// An empty line with the cursor at its start.
    pub fn new() -> (r: LineEditor)
        ensures
            r.content() == Seq::<char>::empty(),
            r.cursor_at() == 0,
            r.wf(),
    {
        let r = LineEditor { chars: Vec::new(), cursor: 0 };
        proof {
            assert(r.content() =~= Seq::<char>::empty());
        }
        r
    }

    /// The line's characters, for rendering.
    pub fn chars(&self) -> (r: &Vec<char>)
        ensures
            r@ == self.content(),
    {
        &self.chars
    }

    /// The cursor position, for rendering.
    pub fn cursor_pos(&self) -> (r: usize)
        ensures
            r == self.cursor_at(),
    {
        self.cursor
    }

    /// Moves the cursor one character left, stopping at the start.
    pub fn move_left(&mut self)
        requires
            old(self).wf(),
        ensures
            final(self).wf(),
            final(self).content() == old(self).content(),
            final(self).cursor_at() == if old(self).cursor_at() > 0 {
                old(self).cursor_at() - 1
            } else {
                0
            },
    {
        if self.cursor > 0 {
            self.cursor = self.cursor - 1;
        }
    }

    /// Moves the cursor one character right, stopping at the end.
    pub fn move_right(&mut self)
        requires
            old(self).wf(),
        ensures
            final(self).wf(),
            final(self).content() == old(self).content(),
            final(self).cursor_at() == if old(self).cursor_at() < old(self).content().len() {
                old(self).cursor_at() + 1
            } else {
                old(self).content().len() as int
            },
    {
        if self.cursor < self.chars.len() {
            self.cursor = self.cursor + 1;
        }
    }

    /// Inserts a character at the cursor and moves the cursor past it.
    pub fn insert_char(&mut self, c: char)
        requires
            old(self).wf(),
        ensures
            final(self).wf(),
            final(self).content() == old(self).content().insert(old(self).cursor_at(), c),
            final(self).cursor_at() == old(self).cursor_at() + 1,
    {
        self.chars.insert(self.cursor, c);
        let len_now = self.chars.len();
        assert(self.cursor < len_now);
        self.cursor = self.cursor + 1;
    }

    /// Deletes the character before the cursor, when there is one, and moves
    /// the cursor back onto the gap.
    pub fn delete_char(&mut self)
        requires
            old(self).wf(),
        ensures
            final(self).wf(),
            old(self).cursor_at() > 0 ==> {
                &&& final(self).content() == old(self).content().remove(old(self).cursor_at() - 1)
                &&& final(self).cursor_at() == old(self).cursor_at() - 1
            },
            old(self).cursor_at() == 0 ==> *final(self) == *old(self),
    {
        if self.cursor > 0 {
            self.chars.remove(self.cursor - 1);
            self.cursor = self.cursor - 1;
        }
    }

    /// Empties the line and resets the cursor, as submitting does.
    pub fn clear(&mut self)
        ensures
            final(self).content() == Seq::<char>::empty(),
            final(self).cursor_at() == 0,
            final(self).wf(),
    {
        self.chars.clear();
        self.cursor = 0;
    }
}

/// The command token that renames: `/name`.
pub open spec fn name_cmd() -> Seq<char> {
    seq!['/', 'n', 'a', 'm', 'e']
}

/// What a submitted line starting with `/` becomes: the first two
/// whitespace-separated tokens are read; with fewer than two tokens nothing
/// is sent; when the first token is `/name`, the second becomes a
/// `UsernameChange`; any other command is unknown and nothing is sent.
pub open spec fn parse_command_spec(s: Seq<char>, uid: u32) -> Option<PacketView> {
    let t1s = next_non_space(s, 0);
    let t1e = next_space(s, t1s);
    let t2s = next_non_space(s, t1e);
    let t2e = next_space(s, t2s);
    if t2s >= s.len() {
        Option::None
    } else if s.subrange(t1s, t1e) == name_cmd() {
        Option::Some(
            PacketView {
                packet_type: PacketType::UsernameChange,
                user_id: uid,
                contents: s.subrange(t2s, t2e),
            },
        )
    } else {
        Option::None
    }
}

/// What a submitted line becomes: an empty line or one starting with `!`
/// sends nothing, a line starting with `/` is a command, and anything else
/// is a `NewMessage` carrying the line as it stands.
pub open spec fn compose_spec(s: Seq<char>, uid: u32) -> Option<PacketView> {
    if s.len() == 0 {
        Option::None
    } else if s[0] == '/' {
        parse_command_spec(s, uid)
    } else if s[0] == '!' {
        Option::None
    } else {
        Option::Some(
            PacketView { packet_type: PacketType::NewMessage, user_id: uid, contents: s },
        )
    }
}

/// The first non-whitespace position at or after `from`.
fn scan_non_space(v: &Vec<char>, from: usize) -> (r: usize)
    requires
        from <= v@.len(),
    ensures
        r == next_non_space(v@, from as int),
        from <= r <= v@.len(),
{
    let n = v.len();
    let mut i: usize = from;
    loop
        invariant
            from <= i <= n,
            n == v@.len(),
            next_non_space(v@, from as int) == next_non_space(v@, i as int),
        ensures
            n == v@.len(),
            from <= i <= n,
            next_non_space(v@, from as int) == i,
        decreases n - i,
    {
        if i == n {
            break;
        }
        if !is_space(v[i]) {
            break;
        }
        i = i + 1;
    }
    i
}

/// The first whitespace position at or after `from`.
fn scan_space(v: &Vec<char>, from: usize) -> (r: usize)
    requires
        from <= v@.len(),
    ensures
        r == next_space(v@, from as int),
        from <= r <= v@.len(),
{
    let n = v.len();
    let mut i: usize = from;
    loop
        invariant
            from <= i <= n,
            n == v@.len(),
            next_space(v@, from as int) == next_space(v@, i as int),
        ensures
            n == v@.len(),
            from <= i <= n,
            next_space(v@, from as int) == i,
        decreases n - i,
    {
        if i == n {
            break;
        }
        if is_space(v[i]) {
            break;
        }
        i = i + 1;
    }
    i
}

/// Reads a `/`-command line: exactly the packet `parse_command_spec` names,
/// or nothing.
pub fn parse_command(input: &Vec<char>, uid: u32) -> (r: Option<Packet>)
    ensures
        match r {
            Option::Some(p) => parse_command_spec(input@, uid) == Option::Some(p@),
            Option::None => parse_command_spec(input@, uid) is None,
        },
{
    let t1s = scan_non_space(input, 0);
    let t1e = scan_space(input, t1s);
    let t2s = scan_non_space(input, t1e);
    let t2e = scan_space(input, t2s);
    if t2s >= input.len() {
        return None;
    }
    proof {
        lemma_next_non_space(input@, t1e as int);
        lemma_next_space(input@, t2s as int);
    }
    let tok_ok = if t1e - t1s == 5 {
        input[t1s] == '/' && input[t1s + 1] == 'n' && input[t1s + 2] == 'a' && input[t1s + 3]
            == 'm' && input[t1s + 4] == 'e'
    } else {
        false
    };
    proof {
        let tok = input@.subrange(t1s as int, t1e as int);
        assert(name_cmd().len() == 5);
        if tok == name_cmd() {
            assert(tok.len() == 5);
            assert(tok[0] == input@[t1s as int]);
            assert(tok[1] == input@[t1s + 1]);
            assert(tok[2] == input@[t1s + 2]);
            assert(tok[3] == input@[t1s + 3]);
            assert(tok[4] == input@[t1s + 4]);
        }
        if tok_ok {
            assert(tok =~= name_cmd());
        }
    }
    if tok_ok {
        let mut second: Vec<char> = Vec::new();
        proof {
            assert(second@ =~= input@.subrange(t2s as int, t2s as int));
        }
        let mut i: usize = t2s;
        while i < t2e
            invariant
                t2s <= i <= t2e <= input@.len(),
                second@ == input@.subrange(t2s as int, i as int),
            decreases t2e - i,
        {
            second.push(input[i]);
            proof {
                assert(second@ =~= input@.subrange(t2s as int, i + 1));
            }
            i = i + 1;
        }
        proof {
            assert(second@ =~= input@.subrange(t2s as int, t2e as int));
        }
        Some(Packet::new(PacketType::UsernameChange, uid, chars_to_string(&second)))
    } else {
        None
    }
}

/// What one submitted input line sends, if anything: the decision the
/// terminal client takes on Enter.
pub fn compose_outbound(input: &Vec<char>, uid: u32) -> (r: Option<Packet>)
    ensures
        match r {
            Option::Some(p) => compose_spec(input@, uid) == Option::Some(p@),
            Option::None => compose_spec(input@, uid) is None,
        },
{
    if input.len() == 0 {
        return None;
    }
    let c0 = input[0];
    if c0 == '/' {
        parse_command(input, uid)
    } else if c0 == '!' {
        None
    } else {
        Some(Packet::new(PacketType::NewMessage, uid, chars_to_string(input)))
    }
}

} // verus!
