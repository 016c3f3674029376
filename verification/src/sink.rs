//! Output sinks: destinations to which rendered text is appended, fragment by
//! fragment and in order.

use vstd::prelude::*;
use vstd::string::{StrSliceExecFns, StringExecFns};

verus! {

/// A sink refused a fragment.
#[derive(Debug, Clone, Copy, PartialEq, Eq)]
pub struct WriteError;

/// `after` is `before` followed by some prefix of `text`: the state of a sink
/// in which the writing of `text` was begun and possibly cut short.
pub open spec fn wrote_part_of(before: Seq<char>, text: Seq<char>, after: Seq<char>) -> bool {
    before.is_prefix_of(after) && after.is_prefix_of(before + text)
}

/// Whether a sink with the given room is sure to take `n` characters. A sink
/// without a limit takes any number.
pub open spec fn fits(room: Option<nat>, n: nat) -> bool {
    match room {
        None => true,
        Some(limit) => n <= limit,
    }
}

/// The room that is left of `room` once `n` characters were taken.
pub open spec fn room_after(room: Option<nat>, n: nat) -> Option<nat> {
    match room {
        None => None,
        Some(limit) => Some(
            if n <= limit {
                (limit - n) as nat
            } else {
                0
            },
        ),
    }
}

/// A destination for rendered text.
pub trait Sink {
    /// Everything that this sink has accepted so far, in order.
    spec fn written(&self) -> Seq<char>;

    /// The number of characters that this sink is sure to accept as it
    /// stands, or `None` where it accepts any number.
    spec fn room(&self) -> Option<nat>;

    /// Whether sinks of this type refuse whatever does not fit in their room.
    /// One that is not strict may accept a fragment beyond its room or refuse
    /// it.
    spec fn strict() -> bool;

    /// Appends `s`. A fragment that fits in the room of the sink is accepted.
    /// On success the sink holds exactly what it held followed by `s`; on
    /// failure it holds what it held followed by a prefix of `s`.
    fn write_str(&mut self, s: &str) -> (r: Result<(), WriteError>)
        ensures
            fits(old(self).room(), s@.len()) ==> r is Ok,
            Self::strict() && !fits(old(self).room(), s@.len()) ==> r is Err,
            r is Ok ==> final(self).written() == old(self).written() + s@,
            r is Ok ==> final(self).room() == room_after(old(self).room(), s@.len()),
            r is Err ==> wrote_part_of(old(self).written(), s@, final(self).written()),
    ;
}

/// A string takes everything that is written to it.
impl Sink for String {
    open spec fn written(&self) -> Seq<char> {
        self@
    }

    open spec fn room(&self) -> Option<nat> {
        None
    }

    open spec fn strict() -> bool {
        true
    }

    fn write_str(&mut self, s: &str) -> (r: Result<(), WriteError>) {
        self.append(s);
        Ok(())
    }
}

/// A string buffer with room for a limited number of characters. It takes a
/// fragment whole or not at all.
pub struct BoundedString {
    text: String,
    room: usize,
}

impl BoundedString {
    /// An empty buffer with room for `limit` characters.
    pub fn new(limit: usize) -> (buffer: Self)
        ensures
            buffer.written() == Seq::<char>::empty(),
            buffer.room() == Some(limit as nat),
    {
        BoundedString { text: String::new(), room: limit }
    }

    /// What the buffer holds.
    pub fn as_str(&self) -> (s: &str)
        ensures
            s@ == self.written(),
    {
        self.text.as_str()
    }

    /// The number of characters that the buffer can still take.
    pub fn remaining(&self) -> (n: usize)
        ensures
            self.room() == Some(n as nat),
    {
        self.room
    }
}

impl Sink for BoundedString {
    closed spec fn written(&self) -> Seq<char> {
        self.text@
    }

    closed spec fn room(&self) -> Option<nat> {
        Some(self.room as nat)
    }

    open spec fn strict() -> bool {
        true
    }

    fn write_str(&mut self, s: &str) -> (r: Result<(), WriteError>)
        ensures
            r is Err ==> final(self).written() == old(self).written(),
            r is Err ==> final(self).room() == old(self).room(),
    {
        let n = s.unicode_len();
        if n <= self.room {
            self.text.append(s);
            self.room = self.room - n;
            Ok(())
        } else {
            Err(WriteError)
        }
    }
}

} // verus!
