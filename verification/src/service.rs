//! The serving side: reading the frames of a datagram and answering each.
//!
//! A datagram may hold several frames. They are served in order, and the
//! answer to each is sent before the next is read. What is left of a datagram
//! after its last whole frame is dropped: a frame that is split over two
//! datagrams is lost. The first fault ends the service of the datagram, and
//! the frames after it are not served.

use crate::channel::received_bytes;
use crate::channel::MessageChannel;
use crate::channel::RECEIVE_BUFFER_SIZE;
use crate::handler::BackendRpcHandler;
use crate::rpc::BackendRpcRetVariant;
use crate::serializer::decoded_argument;
use crate::serializer::return_text;
use crate::serializer::BackendSerializer;
use crate::serializer::ProtocolViolation;
use vstd::prelude::*;

verus! {

/// Why the service of a datagram ended early.
#[derive(Clone, Copy, Debug, PartialEq, Eq, Structural)]
pub enum ServeError {
    /// The channel failed to receive a datagram or to send an answer.
    Transport,
    /// The datagram breaks the protocol.
    Violation(ProtocolViolation),
    /// The handler failed. No answer is sent for such a request.
    HandlerFailed,
    /// The channel sent an answer in part only.
    ShortSend,
}

/// How many bytes of `buf` its whole frames take, one after the other from
/// the start, or the violation that the first frame to break the protocol
/// shows. A whole frame is never empty, so the count moves on with each.
pub open spec fn drained_length(buf: Seq<u8>) -> Result<int, ProtocolViolation>
    decreases buf.len(),
{
    match decoded_argument(buf) {
        Ok(Some((n, _))) => if 0 < n <= buf.len() {
            match drained_length(buf.skip(n)) {
                Ok(m) => Ok(n + m),
                Err(e) => Err(e),
            }
        } else {
            Ok(0)
        },
        Ok(None) => Ok(0),
        Err(e) => Err(e),
    }
}

/// The answer to send for what the handler returned.
pub fn answer_for(outcome: Result<BackendRpcRetVariant, ()>) -> (r: Result<Vec<u8>, ServeError>)
    ensures
        match outcome {
            Ok(ret) => r matches Ok(bytes) && bytes@ == return_text(ret@),
            Err(_) => r == Err::<Vec<u8>, ServeError>(ServeError::HandlerFailed),
        },
{
    match outcome {
        Ok(ret) => Ok(BackendSerializer::serialize_rpc_ret(ret)),
        Err(_) => Err(ServeError::HandlerFailed),
    }
}

/// Whether an answer of `len` bytes went out whole.
pub fn check_sent(sent: Result<usize, ()>, len: usize) -> (r: Result<(), ServeError>)
    ensures
        match sent {
            Ok(n) => if n == len {
                r is Ok
            } else {
                r == Err::<(), ServeError>(ServeError::ShortSend)
            },
            Err(_) => r == Err::<(), ServeError>(ServeError::Transport),
        },
{
    match sent {
        Ok(n) => if n == len {
            Ok(())
        } else {
            Err(ServeError::ShortSend)
        },
        Err(_) => Err(ServeError::Transport),
    }
}

/// How the service of `datagram` ends where its first frame settles it,
/// before the handler or the channel is called: a datagram whose first frame
/// breaks the protocol is refused with that violation, and one that holds no
/// whole frame is served by doing nothing. `None` where the first frame is
/// whole, and the handler and the channel have their say.
pub open spec fn settled_end(datagram: Seq<u8>) -> Option<Result<usize, ServeError>> {
    match decoded_argument(datagram) {
        Err(e) => Some(Err(ServeError::Violation(e))),
        Ok(None) => Some(Ok(0)),
        Ok(Some(_)) => None,
    }
}

/// Whether the service of the datagram `datagram` may have ended in `r`.
///
/// Where the first frame settles the end, `r` is that end. Otherwise `Ok(n)`
/// ends the service of a datagram whose whole frames take its first `n`
/// bytes and break no rule; a violation ends the service of a datagram that
/// shows it; and the channel and the handler may fail the service once a
/// whole frame has been handed to them.
pub open spec fn may_end_in(datagram: Seq<u8>, r: Result<usize, ServeError>) -> bool {
    &&& settled_end(datagram) matches Some(end) ==> r == end
    &&& match r {
        Ok(n) => n <= datagram.len() && drained_length(datagram) == Ok::<int, ProtocolViolation>(
            n as int,
        ),
        Err(ServeError::Violation(e)) => drained_length(datagram) == Err::<
            int,
            ProtocolViolation,
        >(e),
        Err(_) => true,
    }
}

/// What a round of service comes to, given what the channel did: `received`
/// is what the receive returned, `buf` is what the receive buffer held after
/// it, and `r` is how the round ended. A receive that fails, or that claims
/// more bytes than the buffer holds, ends the round as a fault of the
/// channel; otherwise the bytes received are served as one datagram.
pub open spec fn round_may_end_in(
    received: Result<usize, ()>,
    buf: Seq<u8>,
    r: Result<usize, ServeError>,
) -> bool {
    match received {
        Ok(n) => if n <= buf.len() {
            may_end_in(buf.subrange(0, n as int), r)
        } else {
            r == Err::<usize, ServeError>(ServeError::Transport)
        },
        Err(_) => r == Err::<usize, ServeError>(ServeError::Transport),
    }
}

/// The service of the registered procedures, for every channel.
pub trait BackendService {
    /// Serves the frames of one datagram, `received`, in order.
    ///
    /// `Ok(n)` says that every whole frame was served, and that these
    /// frames take the first `n` bytes of `received`. A violation is
    /// reported only if the datagram shows it.
    ///
    /// A datagram that holds no whole frame is served with `Ok(0)`, and one
    /// whose first frame breaks the protocol is refused with that violation:
    /// neither the handler nor the channel is asked. Once a whole frame has
    /// been read, the handler and the channel decide whether the service
    /// goes on.
    fn serve_received<H: BackendRpcHandler>(&mut self, handler: &mut H, received: &[u8]) -> (r:
        Result<usize, ServeError>)
        ensures
            decoded_argument(received@) matches Err(e) ==> r == Err::<usize, ServeError>(
                ServeError::Violation(e),
            ),
            decoded_argument(received@) matches Ok(None) ==> r == Ok::<usize, ServeError>(0),
            may_end_in(received@, r),
    ;

    /// Waits for one datagram and serves its frames. `Ok(n)` says that every
    /// whole frame of the datagram was served, and that these frames took
    /// its first `n` bytes.
    ///
    /// The channel decides whether a datagram comes. How the round ends is
    /// what [`round_may_end_in`] allows for what the channel did.
    fn serve_once<H: BackendRpcHandler>(&mut self, handler: &mut H) -> (r: Result<
        usize,
        ServeError,
    >)
        ensures
            exists|received: Result<usize, ()>, buf: Seq<u8>|
                buf.len() == RECEIVE_BUFFER_SIZE && #[trigger] round_may_end_in(received, buf, r),
            r matches Ok(n) ==> n <= RECEIVE_BUFFER_SIZE,
    ;
}

/// The count of [`drained_length`] for `buf`, taken up at offset `start`:
/// `start` bytes of whole frames, and then the whole frames that follow.
pub open spec fn drained_from(buf: Seq<u8>, start: int) -> Result<int, ProtocolViolation> {
    match drained_length(buf.skip(start)) {
        Ok(m) => Ok(start + m),
        Err(e) => Err(e),
    }
}

impl<C: MessageChannel> BackendService for C {
    fn serve_received<H: BackendRpcHandler>(&mut self, handler: &mut H, received: &[u8]) -> (r:
        Result<usize, ServeError>) {
        let mut start: usize = 0;
        assert(received@.skip(0) == received@);
        loop
            invariant
                start <= received.len(),
                drained_from(received@, start as int) == drained_length(received@),
                start > 0 ==> decoded_argument(received@) matches Ok(Some(_)),
            decreases received.len() - start,
        {
            let rest = &received[start..received.len()];
            assert(rest@ == received@.skip(start as int));
            assert(start == 0 ==> rest@ =~= received@);
            match BackendSerializer::parse_rpc_recv(rest) {
                Ok(Some((n, arg))) => {
                    assert(rest@.skip(n as int) == received@.skip(start + n));
                    start = start + n;
                    let answer = match answer_for(handler.handle_rpc_received(arg)) {
                        Ok(answer) => answer,
                        Err(e) => return Err(e),
                    };
                    match check_sent(self.send(answer.as_slice()), answer.len()) {
                        Ok(()) => {},
                        Err(e) => return Err(e),
                    }
                },
                Ok(None) => return Ok(start),
                Err(e) => return Err(ServeError::Violation(e)),
            }
        }
    }

    fn serve_once<H: BackendRpcHandler>(&mut self, handler: &mut H) -> (r: Result<
        usize,
        ServeError,
    >) {
        let mut buf = [0u8; RECEIVE_BUFFER_SIZE];
        let received = self.recv(&mut buf);
        let r = match received_bytes(received, buf.as_slice()) {
            Some(datagram) => self.serve_received(handler, datagram),
            None => Err(ServeError::Transport),
        };
        proof {
            assert(round_may_end_in(received, buf@, r));
        }
        r
    }
}

} // verus!
