//! What holds of frames, whoever wrote them.
//!
//! The statements on written frames speak of a JSON reader that gives back
//! what the JSON writer was given. This crate takes both from `serde_json`
//! and does not prove that of them; where a statement depends on it, it says
//! so in its premises.

use crate::client::reply_meaning;
use crate::client::CallError;
use crate::header::header_of;
use crate::header::header_text;
use crate::header::is_plain_name;
use crate::header::lemma_header_text_braces;
use crate::header::lemma_header_text_end;
use crate::header::lemma_plain_name_text;
use crate::header::HeaderView;
use crate::json::json_string_text;
use crate::rpc::lemma_registered_names;
use crate::rpc::lemma_unescaped_msg_object;
use crate::rpc::msg_object_text;
use crate::rpc::ExampleMessageView;
use crate::rpc::ExampleReturnView;
use crate::rpc::BackendRpcArgView;
use crate::rpc::BackendRpcRetView;
use crate::rpc::RpcKind;
use crate::scanner::header_end;
use crate::scanner::is_header_end;
use crate::scanner::lemma_header_end_is;
use crate::scanner::CLOSE_BRACE;
use crate::serializer::argument_reads_back;
use crate::serializer::argument_text;
use crate::serializer::decoded_argument;
use crate::serializer::decoded_return;
use crate::serializer::frame_header;
use crate::serializer::frame_text;
use crate::serializer::header_reads_back;
use crate::serializer::leading_frame;
use crate::serializer::return_reads_back;
use crate::serializer::return_text;
use crate::serializer::FrameView;
use crate::serializer::ProtocolViolation;
use crate::service::drained_length;
use crate::text::ascii_bytes;
use crate::text::decimal_text;
use crate::text::is_unescaped_text;
use vstd::prelude::*;

verus! {

/// Once a header has ended, bytes that follow do not move its end.
pub proof fn lemma_header_end_ignores_tail(buf: Seq<u8>, tail: Seq<u8>)
    requires
        header_end(buf) is Some,
    ensures
        header_end(buf + tail) == header_end(buf),
{
    let end = header_end(buf)->0;
    assert(is_header_end(buf, end));
    assert(is_header_end(buf + tail, end)) by {
        assert((buf + tail)[0] == buf[0]);
        assert((buf + tail)[end - 1] == buf[end - 1]);
        assert forall|i: int| 1 <= i < end - 1 implies (buf + tail)[i] != CLOSE_BRACE by {
            assert((buf + tail)[i] == buf[i]);
        }
    }
    lemma_header_end_is(buf + tail, end);
}

/// A frame that is whole, and a violation that has shown, stay as they are
/// when more bytes arrive.
pub proof fn lemma_frame_ignores_tail(buf: Seq<u8>, tail: Seq<u8>)
    requires
        leading_frame(buf) != Ok::<Option<FrameView>, ProtocolViolation>(None),
    ensures
        leading_frame(buf + tail) == leading_frame(buf),
{
    let end = header_end(buf)->0;
    assert(is_header_end(buf, end));
    lemma_header_end_ignores_tail(buf, tail);
    assert((buf + tail).subrange(0, end) == buf.subrange(0, end));
}

/// Reading an argument looks at the leading frame only: what follows a whole
/// frame, or a violation, does not change what is read.
pub proof fn lemma_argument_ignores_tail(buf: Seq<u8>, tail: Seq<u8>)
    requires
        decoded_argument(buf) != Ok::<Option<(int, BackendRpcArgView)>, ProtocolViolation>(None),
    ensures
        decoded_argument(buf + tail) == decoded_argument(buf),
{
    lemma_frame_ignores_tail(buf, tail);
    if let Ok(Some(f)) = leading_frame(buf) {
        assert(is_header_end(buf, header_end(buf)->0));
        assert((buf + tail).subrange(f.body_start, f.body_end) == buf.subrange(
            f.body_start,
            f.body_end,
        ));
    }
}

/// Reading a result looks at the leading frame only: what follows a whole
/// frame, or a violation, does not change what is read.
pub proof fn lemma_return_ignores_tail(buf: Seq<u8>, tail: Seq<u8>)
    requires
        decoded_return(buf) != Ok::<Option<(int, BackendRpcRetView)>, ProtocolViolation>(None),
    ensures
        decoded_return(buf + tail) == decoded_return(buf),
{
    lemma_frame_ignores_tail(buf, tail);
    if let Ok(Some(f)) = leading_frame(buf) {
        assert(is_header_end(buf, header_end(buf)->0));
        assert((buf + tail).subrange(f.body_start, f.body_end) == buf.subrange(
            f.body_start,
            f.body_end,
        ));
    }
}

/// Two argument frames, one after the other in a buffer, are read as each is
/// read alone, and the second starts where the first ends.
pub proof fn lemma_consecutive_arguments(
    first: Seq<u8>,
    second: Seq<u8>,
    x: BackendRpcArgView,
    y: BackendRpcArgView,
)
    requires
        decoded_argument(first) == Ok::<Option<(int, BackendRpcArgView)>, ProtocolViolation>(
            Some((first.len() as int, x)),
        ),
        decoded_argument(second) == Ok::<Option<(int, BackendRpcArgView)>, ProtocolViolation>(
            Some((second.len() as int, y)),
        ),
    ensures
        decoded_argument(first + second) == decoded_argument(first),
        decoded_argument((first + second).skip(first.len() as int)) == decoded_argument(second),
{
    lemma_argument_ignores_tail(first, second);
    assert((first + second).skip(first.len() as int) == second);
}

/// Two result frames, one after the other in a buffer, are read as each is
/// read alone, and the second starts where the first ends.
pub proof fn lemma_consecutive_returns(
    first: Seq<u8>,
    second: Seq<u8>,
    x: BackendRpcRetView,
    y: BackendRpcRetView,
)
    requires
        decoded_return(first) == Ok::<Option<(int, BackendRpcRetView)>, ProtocolViolation>(
            Some((first.len() as int, x)),
        ),
        decoded_return(second) == Ok::<Option<(int, BackendRpcRetView)>, ProtocolViolation>(
            Some((second.len() as int, y)),
        ),
    ensures
        decoded_return(first + second) == decoded_return(first),
        decoded_return((first + second).skip(first.len() as int)) == decoded_return(second),
{
    lemma_return_ignores_tail(first, second);
    assert((first + second).skip(first.len() as int) == second);
}

/// A whole frame holds its header, which is two bytes at least, and ends
/// within its buffer.
pub proof fn lemma_frame_bounds(buf: Seq<u8>)
    ensures
        leading_frame(buf) matches Ok(Some(f)) ==> 2 <= f.body_start <= f.body_end <= buf.len(),
        decoded_argument(buf) matches Ok(Some((n, _))) ==> 2 <= n <= buf.len(),
        decoded_return(buf) matches Ok(Some((n, _))) ==> 2 <= n <= buf.len(),
{
    if header_end(buf) is Some {
        assert(is_header_end(buf, header_end(buf)->0));
    }
}

/// A datagram that starts with a whole frame is served as that frame, and
/// then as what follows it.
pub proof fn lemma_drained_after_frame(first: Seq<u8>, rest: Seq<u8>, x: BackendRpcArgView)
    requires
        decoded_argument(first) == Ok::<Option<(int, BackendRpcArgView)>, ProtocolViolation>(
            Some((first.len() as int, x)),
        ),
    ensures
        drained_length(first + rest) == match drained_length(rest) {
            Ok(m) => Ok::<int, ProtocolViolation>(first.len() + m),
            Err(e) => Err(e),
        },
{
    lemma_argument_ignores_tail(first, rest);
    lemma_frame_bounds(first);
    assert((first + rest).skip(first.len() as int) == rest);
}

/// The frame written for a body is found again at the start of a buffer,
/// whatever follows it, where the JSON reader gives back its header.
pub proof fn lemma_written_frame_is_found(kind: RpcKind, body: Seq<u8>, tail: Seq<u8>)
    requires
        header_reads_back(frame_header(kind, body)),
    ensures
        leading_frame(frame_text(kind, body) + tail) == Ok::<
            Option<FrameView>,
            ProtocolViolation,
        >(
            Some(
                FrameView {
                    kind,
                    body_start: header_text(frame_header(kind, body)).len() as int,
                    body_end: frame_text(kind, body).len() as int,
                },
            ),
        ),
{
    let h = frame_header(kind, body);
    let buf = frame_text(kind, body) + tail;
    let end = header_text(h).len() as int;
    lemma_registered_names(kind);
    assert(buf == header_text(h) + (body + tail));
    lemma_header_text_end(h, body + tail);
    assert(buf.subrange(0, end) == header_text(h));
}

/// Reading the frame written for an argument gives the argument back, with
/// the length of the frame, where the JSON reader gives back what was
/// written. What follows the frame in the buffer does not matter.
pub proof fn lemma_argument_round_trip(v: BackendRpcArgView, tail: Seq<u8>)
    requires
        argument_reads_back(v),
    ensures
        decoded_argument(argument_text(v) + tail) == Ok::<
            Option<(int, BackendRpcArgView)>,
            ProtocolViolation,
        >(Some((argument_text(v).len() as int, v))),
{
    let body = v.body_text();
    let buf = argument_text(v) + tail;
    lemma_written_frame_is_found(v.kind(), body, tail);
    let start = header_text(frame_header(v.kind(), body)).len() as int;
    assert(buf.subrange(start, start + body.len()) == body);
}

/// Reading the frame written for a result gives the result back, with the
/// length of the frame, where the JSON reader gives back what was written.
/// What follows the frame in the buffer does not matter.
pub proof fn lemma_return_round_trip(v: BackendRpcRetView, tail: Seq<u8>)
    requires
        return_reads_back(v),
    ensures
        decoded_return(return_text(v) + tail) == Ok::<
            Option<(int, BackendRpcRetView)>,
            ProtocolViolation,
        >(Some((return_text(v).len() as int, v))),
{
    let body = v.body_text();
    let buf = return_text(v) + tail;
    lemma_written_frame_is_found(v.kind(), body, tail);
    let start = header_text(frame_header(v.kind(), body)).len() as int;
    assert(buf.subrange(start, start + body.len()) == body);
}

/// The frame of the example procedure for a text that needs no escape, byte
/// for byte: the header with the length of the body in decimal, and the body
/// with the text as it is. The body is ten bytes longer than the text.
pub open spec fn unescaped_example_frame(msg: Seq<char>) -> Seq<u8> {
    ascii_bytes("{\"rpc\":\"ExampleRpc\",\"body_size\":"@) + decimal_text(msg.len() + 10)
        + ascii_bytes(",\"is_return\":false}{\"msg\":\""@) + ascii_bytes(msg) + ascii_bytes(
        "\"}"@,
    )
}

/// An argument or a result of the example procedure whose text needs no
/// escape is written as [`unescaped_example_frame`] spells it out.
pub proof fn lemma_unescaped_frame_text(msg: Seq<char>)
    requires
        is_unescaped_text(msg),
    ensures
        argument_text(BackendRpcArgView::ExampleRpc(ExampleMessageView { msg }))
            == unescaped_example_frame(msg),
        return_text(BackendRpcRetView::ExampleRpc(ExampleReturnView { msg }))
            == unescaped_example_frame(msg),
{
    reveal_strlit("ExampleRpc");
    reveal_strlit("{\"rpc\":");
    reveal_strlit(",\"body_size\":");
    reveal_strlit(",\"is_return\":");
    reveal_strlit("false");
    reveal_strlit("}");
    reveal_strlit("{\"msg\":\"");
    reveal_strlit("{\"rpc\":\"ExampleRpc\",\"body_size\":");
    reveal_strlit(",\"is_return\":false}{\"msg\":\"");
    let kind = RpcKind::ExampleRpc;
    let body = msg_object_text(msg);
    lemma_unescaped_msg_object(msg);
    lemma_registered_names(kind);
    lemma_plain_name_text(kind.name_of());
    let size = decimal_text(msg.len() + 10);
    let lead = ascii_bytes("{\"rpc\":"@) + json_string_text(kind.name_of()) + ascii_bytes(
        ",\"body_size\":"@,
    );
    assert(lead == ascii_bytes("{\"rpc\":\"ExampleRpc\",\"body_size\":"@));
    let middle = ascii_bytes(",\"is_return\":"@) + ascii_bytes("false"@) + ascii_bytes("}"@)
        + ascii_bytes("{\"msg\":\""@);
    assert(middle == ascii_bytes(",\"is_return\":false}{\"msg\":\""@));
    assert(frame_text(kind, body) == lead + size + middle + ascii_bytes(msg) + ascii_bytes(
        "\"}"@,
    ));
}

/// A buffer that ends before the header of a written frame does is read as
/// incomplete, in both directions.
pub proof fn lemma_cut_header_is_incomplete(h: HeaderView, len: int)
    requires
        is_plain_name(h.rpc),
        0 <= len < header_text(h).len(),
    ensures
        header_end(header_text(h).subrange(0, len)) is None,
        leading_frame(header_text(h).subrange(0, len)) == Ok::<
            Option<FrameView>,
            ProtocolViolation,
        >(None),
        decoded_argument(header_text(h).subrange(0, len)) == Ok::<
            Option<(int, BackendRpcArgView)>,
            ProtocolViolation,
        >(None),
        decoded_return(header_text(h).subrange(0, len)) == Ok::<
            Option<(int, BackendRpcRetView)>,
            ProtocolViolation,
        >(None),
{
    lemma_header_text_braces(h);
    let cut = header_text(h).subrange(0, len);
    if header_end(cut) is Some {
        let end = header_end(cut)->0;
        assert(is_header_end(cut, end));
        assert(cut[end - 1] == header_text(h)[end - 1]);
    }
}

/// A buffer that ends before a written frame does is read as incomplete, in
/// both directions, where the JSON reader gives back the frame's header.
pub proof fn lemma_cut_frame_is_incomplete(kind: RpcKind, body: Seq<u8>, len: int)
    requires
        header_reads_back(frame_header(kind, body)),
        0 <= len < frame_text(kind, body).len(),
    ensures
        leading_frame(frame_text(kind, body).subrange(0, len)) == Ok::<
            Option<FrameView>,
            ProtocolViolation,
        >(None),
        decoded_argument(frame_text(kind, body).subrange(0, len)) == Ok::<
            Option<(int, BackendRpcArgView)>,
            ProtocolViolation,
        >(None),
        decoded_return(frame_text(kind, body).subrange(0, len)) == Ok::<
            Option<(int, BackendRpcRetView)>,
            ProtocolViolation,
        >(None),
{
    let h = frame_header(kind, body);
    let text = frame_text(kind, body);
    let cut = text.subrange(0, len);
    let start = header_text(h).len() as int;
    lemma_registered_names(kind);
    if len < start {
        assert(cut == header_text(h).subrange(0, len));
        lemma_cut_header_is_incomplete(h, len);
    } else {
        assert(cut == header_text(h) + body.subrange(0, len - start));
        lemma_header_text_end(h, body.subrange(0, len - start));
        assert(cut.subrange(0, start) == header_text(h));
    }
}

/// A buffer without a whole header, or with less of a body than its header
/// declares, is read as incomplete in both directions: no value is made up
/// and no violation is reported.
pub proof fn lemma_incomplete_frame_is_no_error(buf: Seq<u8>)
    requires
        leading_frame(buf) == Ok::<Option<FrameView>, ProtocolViolation>(None),
    ensures
        decoded_argument(buf) == Ok::<Option<(int, BackendRpcArgView)>, ProtocolViolation>(None),
        decoded_return(buf) == Ok::<Option<(int, BackendRpcRetView)>, ProtocolViolation>(None),
        drained_length(buf) == Ok::<int, ProtocolViolation>(0),
{
}

/// A header that names no registered procedure is a violation in both
/// directions, however much of the body has arrived.
pub proof fn lemma_unknown_rpc_is_rejected(buf: Seq<u8>, h: HeaderView)
    requires
        header_end(buf) is Some,
        header_of(buf.subrange(0, header_end(buf)->0)) == Some(h),
        !h.is_return,
        RpcKind::named(h.rpc) is None,
    ensures
        decoded_argument(buf) == Err::<Option<(int, BackendRpcArgView)>, ProtocolViolation>(
            ProtocolViolation::UnknownRpc,
        ),
        decoded_return(buf) == Err::<Option<(int, BackendRpcRetView)>, ProtocolViolation>(
            ProtocolViolation::UnknownRpc,
        ),
{
}

/// A caller gets the result of the procedure it called, or none: a reply
/// that carries the result of another procedure fails the call.
pub proof fn lemma_reply_is_of_called_procedure(called: RpcKind, reply: Seq<u8>)
    ensures
        reply_meaning(called, reply) matches Ok(v) ==> v.kind() == called,
        (decoded_return(reply) matches Ok(Some((_, v))) && v.kind() != called) ==> reply_meaning(
            called,
            reply,
        ) == Err::<BackendRpcRetView, CallError>(CallError::WrongProcedure),
{
}

} // verus!
