//! The transport that frames travel on.

use vstd::prelude::*;

verus! {

/// How many bytes one receive can take. A datagram longer than this is cut.
pub const RECEIVE_BUFFER_SIZE: usize = 4096;

/// A two-way transport of bytes. It knows nothing of frames.
///
/// Both operations block until the transport is done, and report a failure
/// rather than try again. The library assumes that bytes arrive in the order
/// they were sent, none lost and none twice.
pub trait MessageChannel {
    /// Sends `buf`, and says how many of its bytes went out.
    fn send(&mut self, buf: &[u8]) -> Result<usize, ()>;

    /// Receives into `buf`, and says how many bytes came in.
    fn recv(&mut self, buf: &mut [u8]) -> Result<usize, ()>;
}

/// The bytes that a receive into `buf` brought, where `received` is what the
/// receive returned. A channel that failed, or that claims more bytes than
/// `buf` holds, brought nothing.
pub fn received_bytes<'a>(received: Result<usize, ()>, buf: &'a [u8]) -> (r: Option<&'a [u8]>)
    ensures
        match received {
            Ok(n) => if n <= buf.len() {
                r matches Some(bytes) && bytes@ == buf@.subrange(0, n as int)
            } else {
                r is None
            },
            Err(_) => r is None,
        },
{
    match received {
        Ok(n) => if n <= buf.len() {
            Some(&buf[0..n])
        } else {
            None
        },
        Err(_) => None,
    }
}

/// The peer that a channel sends to once it has heard from `from`, and
/// whether it is to be connected now.
///
/// A channel without a peer takes the first one it hears from, and keeps it:
/// a datagram from anyone else does not change where answers go.
pub fn pinned_after<P>(pinned: Option<P>, from: P) -> (r: (P, bool))
    ensures
        match pinned {
            Some(p) => r == (p, false),
            None => r == (from, true),
        },
{
    match pinned {
        Some(p) => (p, false),
        None => (from, true),
    }
}

} // verus!
