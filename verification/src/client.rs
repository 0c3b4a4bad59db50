//! The calling side: one call at a time, each waiting for its result.

use crate::channel::received_bytes;
use crate::channel::MessageChannel;
use crate::channel::RECEIVE_BUFFER_SIZE;
use crate::rpc::BackendRpcArgVariant;
use crate::rpc::BackendRpcRetVariant;
use crate::rpc::BackendRpcRetView;
use crate::rpc::ExampleMessage;
use crate::rpc::ExampleReturn;
use crate::rpc::ExampleReturnView;
use crate::rpc::RpcKind;
use crate::serializer::decoded_return;
use crate::serializer::return_outcome;
use crate::serializer::BackendSerializer;
use crate::serializer::ProtocolViolation;
use vstd::prelude::*;

verus! {

/// Why a call gave no result. A failed call is not tried again.
#[derive(Clone, Copy, Debug, PartialEq, Eq, Structural)]
pub enum CallError {
    /// The channel failed to send the argument or to receive the reply.
    Transport,
    /// What was received holds no whole frame.
    Incomplete,
    /// What was received breaks the protocol.
    Violation(ProtocolViolation),
    /// The reply is the result of another procedure than the one called.
    WrongProcedure,
}

/// What a caller of the procedure `called` makes of the frame that was read
/// from a reply.
pub open spec fn reply_of(
    called: RpcKind,
    decoded: Result<Option<(int, BackendRpcRetView)>, ProtocolViolation>,
) -> Result<BackendRpcRetView, CallError> {
    match decoded {
        Ok(Some((_, v))) => if v.kind() == called {
            Ok(v)
        } else {
            Err(CallError::WrongProcedure)
        },
        Ok(None) => Err(CallError::Incomplete),
        Err(e) => Err(CallError::Violation(e)),
    }
}

/// What the reply `reply` means to a caller of the procedure `called`.
pub open spec fn reply_meaning(called: RpcKind, reply: Seq<u8>) -> Result<
    BackendRpcRetView,
    CallError,
> {
    reply_of(called, decoded_return(reply))
}

/// What a call of [`interpret_reply`] returned, as mathematical values.
pub open spec fn reply_outcome(r: Result<BackendRpcRetVariant, CallError>) -> Result<
    BackendRpcRetView,
    CallError,
> {
    match r {
        Ok(v) => Ok(v@),
        Err(e) => Err(e),
    }
}

/// Picks the result of a call of the procedure `called` from the frame that
/// was read from the reply. A frame of another procedure fails the call, as
/// does a reply without a whole frame or with a violation.
pub fn accept_reply(
    called: RpcKind,
    decoded: Result<Option<(usize, BackendRpcRetVariant)>, ProtocolViolation>,
) -> (r: Result<BackendRpcRetVariant, CallError>)
    ensures
        reply_outcome(r) == reply_of(called, return_outcome(decoded)),
{
    match decoded {
        Ok(Some((_, ret))) => if ret.kind() == called {
            Ok(ret)
        } else {
            Err(CallError::WrongProcedure)
        },
        Ok(None) => Err(CallError::Incomplete),
        Err(e) => Err(CallError::Violation(e)),
    }
}

/// Reads the result of a call of the procedure `called` from what was
/// received in reply. One frame is read; what follows it is ignored.
pub fn interpret_reply(called: RpcKind, reply: &[u8]) -> (r: Result<
    BackendRpcRetVariant,
    CallError,
>)
    ensures
        reply_outcome(r) == reply_meaning(called, reply@),
{
    accept_reply(called, BackendSerializer::parse_rpc_result(reply))
}

/// What a caller makes of the send of its argument: a send that fails
/// fails the call, there and then. How many bytes the channel says it sent
/// is not looked at.
pub fn after_send(sent: Result<usize, ()>) -> (r: Result<(), CallError>)
    ensures
        match sent {
            Ok(_) => r is Ok,
            Err(_) => r == Err::<(), CallError>(CallError::Transport),
        },
{
    match sent {
        Ok(_) => Ok(()),
        Err(_) => Err(CallError::Transport),
    }
}

/// What a caller makes of the receive that follows its send: `received` is
/// what the receive returned, and `buf` is the receive buffer after it. A
/// receive that fails, or that claims more bytes than `buf` holds, fails the
/// call; otherwise the bytes received are read as the reply.
pub fn after_receive(called: RpcKind, received: Result<usize, ()>, buf: &[u8]) -> (r: Result<
    BackendRpcRetVariant,
    CallError,
>)
    ensures
        reply_outcome(r) == receive_result(called, received, buf@),
{
    match received_bytes(received, buf) {
        Some(reply) => interpret_reply(called, reply),
        None => Err(CallError::Transport),
    }
}

/// What a caller of the procedure `called` makes of a receive: `received`
/// is what the receive returned, and `buf` is what the receive buffer held
/// after it.
pub open spec fn receive_result(called: RpcKind, received: Result<usize, ()>, buf: Seq<u8>) -> Result<
    BackendRpcRetView,
    CallError,
> {
    match received {
        Ok(n) => if n <= buf.len() {
            reply_meaning(called, buf.subrange(0, n as int))
        } else {
            Err(CallError::Transport)
        },
        Err(_) => Err(CallError::Transport),
    }
}

/// What a call of the procedure `called` comes to, given what the channel
/// did: `sent` is what the send of the argument's frame returned, `received`
/// is what the receive returned, and `buf` is what the receive buffer held
/// after it. Where the send fails, nothing is received and the rest is of no
/// account.
pub open spec fn call_result(
    called: RpcKind,
    sent: Result<usize, ()>,
    received: Result<usize, ()>,
    buf: Seq<u8>,
) -> Result<BackendRpcRetView, CallError> {
    if sent is Err {
        Err(CallError::Transport)
    } else {
        receive_result(called, received, buf)
    }
}

/// The result of the example procedure in what a call came to.
pub open spec fn example_result(r: Result<BackendRpcRetView, CallError>) -> Result<
    ExampleReturnView,
    CallError,
> {
    match r {
        Ok(BackendRpcRetView::ExampleRpc(res)) => Ok(res),
        Err(e) => Err(e),
    }
}

/// What a call of [`BackendServiceClient::call_example_message`] returned,
/// as mathematical values.
pub open spec fn example_outcome(r: Result<ExampleReturn, CallError>) -> Result<
    ExampleReturnView,
    CallError,
> {
    match r {
        Ok(res) => Ok(res@),
        Err(e) => Err(e),
    }
}

/// The result of the example procedure that `ret` carries.
pub fn expect_example_return(ret: BackendRpcRetVariant) -> (r: Result<ExampleReturn, CallError>)
    ensures
        match r {
            Ok(res) => ret@ == BackendRpcRetView::ExampleRpc(res@),
            Err(e) => e == CallError::WrongProcedure && ret@.kind() != RpcKind::ExampleRpc,
        },
{
    match ret {
        BackendRpcRetVariant::ExampleRpc(res) => Ok(res),
    }
}

/// Calls to the registered procedures, for every channel.
pub trait BackendServiceClient {
    /// Calls the example procedure, as [`BackendServiceClient::call`] calls
    /// any, and hands back the result without its tag.
    ///
    /// What is returned is what [`call_result`] makes of what the channel
    /// did, for the example procedure.
    fn call_example_message(&mut self, arg: ExampleMessage) -> (r: Result<
        ExampleReturn,
        CallError,
    >)
        ensures
            exists|sent: Result<usize, ()>, received: Result<usize, ()>, buf: Seq<u8>|
                buf.len() == RECEIVE_BUFFER_SIZE && example_outcome(r) == example_result(
                    #[trigger] call_result(RpcKind::ExampleRpc, sent, received, buf),
                ),
    ;

    /// Calls a procedure: sends the argument, waits for one datagram and
    /// reads the result from it.
    ///
    /// The channel decides whether the call succeeds. What is returned is
    /// what [`call_result`] makes of what the channel did: a failure of the
    /// channel fails the call, and otherwise the datagram received is read
    /// as one result frame. A result that is handed back thus comes from the
    /// procedure that was called.
    fn call(&mut self, arg: &BackendRpcArgVariant) -> (r: Result<BackendRpcRetVariant, CallError>)
        ensures
            exists|sent: Result<usize, ()>, received: Result<usize, ()>, buf: Seq<u8>|
                buf.len() == RECEIVE_BUFFER_SIZE && reply_outcome(r) == #[trigger] call_result(
                    arg@.kind(),
                    sent,
                    received,
                    buf,
                ),
            r matches Ok(v) ==> v@.kind() == arg@.kind(),
    ;
}

impl<C: MessageChannel> BackendServiceClient for C {
    fn call_example_message(&mut self, arg: ExampleMessage) -> (r: Result<
        ExampleReturn,
        CallError,
    >) {
        let tagged = self.call(&BackendRpcArgVariant::ExampleRpc(arg));
        proof {
            let (sent, received, buf) = choose|
                sent: Result<usize, ()>,
                received: Result<usize, ()>,
                buf: Seq<u8>,
            |
                buf.len() == RECEIVE_BUFFER_SIZE && reply_outcome(tagged) == #[trigger] call_result(
                    RpcKind::ExampleRpc,
                    sent,
                    received,
                    buf,
                );
            assert(reply_outcome(tagged) == call_result(RpcKind::ExampleRpc, sent, received, buf));
        }
        match tagged {
            Ok(ret) => expect_example_return(ret),
            Err(e) => Err(e),
        }
    }

    fn call(&mut self, arg: &BackendRpcArgVariant) -> (r: Result<BackendRpcRetVariant, CallError>) {
        let request = BackendSerializer::serialize_rpc_arg(arg);
        let sent = self.send(request.as_slice());
        match after_send(sent) {
            Ok(()) => {},
            Err(e) => {
                proof {
                    let unused = Seq::new(RECEIVE_BUFFER_SIZE as nat, |i: int| 0u8);
                    assert(call_result(arg@.kind(), sent, Err(()), unused) == Err::<
                        BackendRpcRetView,
                        CallError,
                    >(CallError::Transport));
                }
                return Err(e);
            },
        }
        let mut recv_buf = [0u8; RECEIVE_BUFFER_SIZE];
        let received = self.recv(&mut recv_buf);
        let r = after_receive(arg.kind(), received, recv_buf.as_slice());
        proof {
            assert(reply_outcome(r) == call_result(arg@.kind(), sent, received, recv_buf@));
        }
        r
    }
}

} // verus!
