use vstd::prelude::*;

verus! {

/// The kinds of socket the runtime hands to guests.
#[derive(Clone, Copy, Debug, PartialEq, Eq, Structural)]
pub enum Socket2Type {
    StreamListener,
    DgramListener,
    SocketStream,
    SocketDgram,
}

/// The file types a socket reports.
#[derive(Clone, Copy, Debug, PartialEq, Eq, Structural)]
pub enum SocketFileType {
    SocketStream,
    SocketDgram,
}

/// The kind of the socket a listener accepts: a stream from a stream
/// listener, a datagram socket otherwise.
pub open spec fn accepted_type_of(t: Socket2Type) -> Socket2Type {
    match t {
        Socket2Type::StreamListener => Socket2Type::SocketStream,
        _ => Socket2Type::SocketDgram,
    }
}

/// The file type a socket reports: streams for stream listeners and
/// streams, datagrams for the others.
pub open spec fn file_type_of(t: Socket2Type) -> SocketFileType {
    match t {
        Socket2Type::StreamListener | Socket2Type::SocketStream => SocketFileType::SocketStream,
        Socket2Type::DgramListener | Socket2Type::SocketDgram => SocketFileType::SocketDgram,
    }
}

impl Socket2Type {
    /// The kind of the socket a listener of this kind accepts.
    pub fn accepted(&self) -> (r: Socket2Type)
        ensures
            r == accepted_type_of(*self),
    {
        match self {
            Socket2Type::StreamListener => Socket2Type::SocketStream,
            _ => Socket2Type::SocketDgram,
        }
    }

    /// The file type a socket of this kind reports.
    pub fn get_filetype(&self) -> (r: SocketFileType)
        ensures
            r == file_type_of(*self),
    {
        match self {
            Socket2Type::StreamListener | Socket2Type::SocketStream => SocketFileType::SocketStream,
            Socket2Type::DgramListener | Socket2Type::SocketDgram => SocketFileType::SocketDgram,
        }
    }
}

/// The flag bit of non-blocking descriptors.
pub const NONBLOCK: u16 = 4;

/// Whether descriptor flags make a socket non-blocking: exactly the
/// non-blocking flag does, no flag does not; any other flag is refused.
pub open spec fn nonblocking_of(flags: u16) -> Option<bool> {
    if flags == NONBLOCK {
        Some(true)
    } else if flags == 0 {
        Some(false)
    } else {
        None
    }
}

/// Whether descriptor flags make a socket non-blocking; `None` when they
/// set anything else.
pub fn set_fdflags(flags: u16) -> (r: Option<bool>)
    ensures
        r == nonblocking_of(flags),
{
    if flags == NONBLOCK {
        Some(true)
    } else if flags == 0 {
        Some(false)
    } else {
        None
    }
}

/// A buffer in guest memory: its offset and length.
#[derive(Clone, Copy, Debug, PartialEq, Eq, Structural)]
pub struct ArrayTuple(pub u32, pub u32);

impl ArrayTuple {
    /// The bytes the tuple takes in guest memory.
    pub fn guest_size() -> (r: u32)
        ensures
            r == 8,
    {
        8
    }

    /// The alignment of the tuple in guest memory.
    pub fn guest_align() -> (r: usize)
        ensures
            r == 4,
    {
        4
    }

    /// The tuple stored as the two words at its place: the offset, then the
    /// length.
    pub fn read(words: (u32, u32)) -> (r: ArrayTuple)
        ensures
            r == ArrayTuple(words.0, words.1),
    {
        ArrayTuple(words.0, words.1)
    }

    /// The two words the tuple is stored as: the offset, then the length.
    pub fn write(val: ArrayTuple) -> (r: (u32, u32))
        ensures
            r == (val.0, val.1),
    {
        (val.0, val.1)
    }
}

} // verus!
