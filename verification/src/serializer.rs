//! Frames: a header, then a body of the length that the header declares.
//!
//! Frames follow one another on the wire without a separator. Nothing but the
//! header's own closing brace says where the header ends, and nothing but the
//! header's `body_size` says where the body ends.
//!
//! The header's `is_return` flag is inert for now: frames of both directions
//! are written with the flag off, and a reader of either direction refuses a
//! frame that has it on. Peers in the field depend on this, so it stays until
//! the wire format is revised as a whole.

use crate::header::header_of;
use crate::header::header_text;
use crate::header::HeaderView;
use crate::header::MessageHeader;
use crate::laws::lemma_argument_round_trip;
use crate::laws::lemma_return_round_trip;
use crate::rpc::BackendRpcArgVariant;
use crate::rpc::BackendRpcArgView;
use crate::rpc::BackendRpcRetVariant;
use crate::rpc::BackendRpcRetView;
use crate::rpc::RpcKind;
use crate::scanner::find_json_delimiter;
use crate::scanner::header_end;
use crate::text::push_bytes;
use vstd::prelude::*;

verus! {

/// Why a buffer cannot be the start of a stream of frames. None of these can
/// be mended by waiting for more bytes.
#[derive(Clone, Copy, Debug, PartialEq, Eq, Structural)]
pub enum ProtocolViolation {
    /// What the scan took for the header is not a header.
    MalformedHeader,
    /// The header has its `is_return` flag on.
    ReturnFlagSet,
    /// The header names a procedure that is not registered.
    UnknownRpc,
    /// The body does not have the shape that the procedure asks for.
    MalformedBody,
}

/// Where the frame that leads a buffer lies, and which procedure it is for.
#[derive(Clone, Copy, Debug, PartialEq, Eq)]
pub struct Frame {
    pub kind: RpcKind,
    /// The offset of the first byte of the body: the length of the header.
    pub body_start: usize,
    /// The offset one past the last byte of the body: the length of the frame.
    pub body_end: usize,
}

/// A [`Frame`] as mathematical values.
pub struct FrameView {
    pub kind: RpcKind,
    pub body_start: int,
    pub body_end: int,
}

impl View for Frame {
    type V = FrameView;

    open spec fn view(&self) -> FrameView {
        FrameView {
            kind: self.kind,
            body_start: self.body_start as int,
            body_end: self.body_end as int,
        }
    }
}

/// The frame that follows a header: the header `h` took the first `end`
/// bytes of a buffer of `len` bytes.
///
/// A violation is reported as soon as the header shows it, whether or not
/// the body has arrived. `Ok(None)` says that the buffer ends before the body
/// does.
pub open spec fn frame_after(h: HeaderView, end: int, len: int) -> Result<
    Option<FrameView>,
    ProtocolViolation,
> {
    if h.is_return {
        Err(ProtocolViolation::ReturnFlagSet)
    } else {
        match RpcKind::named(h.rpc) {
            None => Err(ProtocolViolation::UnknownRpc),
            Some(kind) => if end + h.body_size > len {
                Ok(None)
            } else {
                Ok(Some(FrameView { kind, body_start: end, body_end: end + h.body_size }))
            },
        }
    }
}

/// The frame that leads `buf`.
///
/// `Ok(None)` says that `buf` holds no whole frame yet: its header has not
/// ended, or its body is shorter than the header declares.
pub open spec fn leading_frame(buf: Seq<u8>) -> Result<Option<FrameView>, ProtocolViolation> {
    match header_end(buf) {
        None => Ok(None),
        Some(end) => match header_of(buf.subrange(0, end)) {
            None => Err(ProtocolViolation::MalformedHeader),
            Some(h) => frame_after(h, end, buf.len() as int),
        },
    }
}

/// The argument that the frame leading `buf` carries, with the length of that
/// frame.
pub open spec fn decoded_argument(buf: Seq<u8>) -> Result<
    Option<(int, BackendRpcArgView)>,
    ProtocolViolation,
> {
    match leading_frame(buf) {
        Err(e) => Err(e),
        Ok(None) => Ok(None),
        Ok(Some(f)) => match BackendRpcArgView::of_body(
            f.kind,
            buf.subrange(f.body_start, f.body_end),
        ) {
            None => Err(ProtocolViolation::MalformedBody),
            Some(v) => Ok(Some((f.body_end, v))),
        },
    }
}

/// The result that the frame leading `buf` carries, with the length of that
/// frame.
pub open spec fn decoded_return(buf: Seq<u8>) -> Result<
    Option<(int, BackendRpcRetView)>,
    ProtocolViolation,
> {
    match leading_frame(buf) {
        Err(e) => Err(e),
        Ok(None) => Ok(None),
        Ok(Some(f)) => match BackendRpcRetView::of_body(
            f.kind,
            buf.subrange(f.body_start, f.body_end),
        ) {
            None => Err(ProtocolViolation::MalformedBody),
            Some(v) => Ok(Some((f.body_end, v))),
        },
    }
}

/// The header that the frame of procedure `kind` with body `body` has.
pub open spec fn frame_header(kind: RpcKind, body: Seq<u8>) -> HeaderView {
    HeaderView { rpc: kind.name_of(), body_size: body.len(), is_return: false }
}

/// The frame of procedure `kind` with body `body`.
pub open spec fn frame_text(kind: RpcKind, body: Seq<u8>) -> Seq<u8> {
    header_text(frame_header(kind, body)) + body
}

/// The frame that carries the argument `v`.
pub open spec fn argument_text(v: BackendRpcArgView) -> Seq<u8> {
    frame_text(v.kind(), v.body_text())
}

/// The frame that carries the result `v`.
pub open spec fn return_text(v: BackendRpcRetView) -> Seq<u8> {
    frame_text(v.kind(), v.body_text())
}

/// The JSON reader gives back the header `h` from its text.
pub open spec fn header_reads_back(h: HeaderView) -> bool {
    header_of(header_text(h)) == Some(h)
}

/// The JSON reader gives back the argument `v` from the frame written for
/// it: its header from the header's text, and `v` from the body's text.
pub open spec fn argument_reads_back(v: BackendRpcArgView) -> bool {
    &&& header_reads_back(frame_header(v.kind(), v.body_text()))
    &&& BackendRpcArgView::of_body(v.kind(), v.body_text()) == Some(v)
}

/// The JSON reader gives back the result `v` from the frame written for it:
/// its header from the header's text, and `v` from the body's text.
pub open spec fn return_reads_back(v: BackendRpcRetView) -> bool {
    &&& header_reads_back(frame_header(v.kind(), v.body_text()))
    &&& BackendRpcRetView::of_body(v.kind(), v.body_text()) == Some(v)
}

/// What a call of [`BackendSerializer::split_frame`] returned, as
/// mathematical values.
pub open spec fn frame_outcome(r: Result<Option<Frame>, ProtocolViolation>) -> Result<
    Option<FrameView>,
    ProtocolViolation,
> {
    match r {
        Ok(Some(f)) => Ok(Some(f@)),
        Ok(None) => Ok(None),
        Err(e) => Err(e),
    }
}

/// What a call of [`BackendSerializer::parse_rpc_recv`] returned, as
/// mathematical values.
pub open spec fn argument_outcome(
    r: Result<Option<(usize, BackendRpcArgVariant)>, ProtocolViolation>,
) -> Result<Option<(int, BackendRpcArgView)>, ProtocolViolation> {
    match r {
        Ok(Some((n, v))) => Ok(Some((n as int, v@))),
        Ok(None) => Ok(None),
        Err(e) => Err(e),
    }
}

/// What a call of [`BackendSerializer::parse_rpc_result`] returned, as
/// mathematical values.
pub open spec fn return_outcome(
    r: Result<Option<(usize, BackendRpcRetVariant)>, ProtocolViolation>,
) -> Result<Option<(int, BackendRpcRetView)>, ProtocolViolation> {
    match r {
        Ok(Some((n, v))) => Ok(Some((n as int, v@))),
        Ok(None) => Ok(None),
        Err(e) => Err(e),
    }
}

/// Turns arguments and results into frames, and frames back into them.
pub struct BackendSerializer;

impl BackendSerializer {
    /// Places the frame whose header `header` took the first `end` bytes of
    /// a buffer of `len` bytes.
    pub fn frame_after_header(header: &MessageHeader, end: usize, len: usize) -> (r: Result<
        Option<Frame>,
        ProtocolViolation,
    >)
        ensures
            frame_outcome(r) == frame_after(header@, end as int, len as int),
    {
        if header.is_return {
            return Err(ProtocolViolation::ReturnFlagSet);
        }
        let kind = match RpcKind::lookup(header.rpc.as_str()) {
            Some(kind) => kind,
            None => return Err(ProtocolViolation::UnknownRpc),
        };
        if end > len || header.body_size > len - end {
            return Ok(None);
        }
        Ok(Some(Frame { kind, body_start: end, body_end: end + header.body_size }))
    }

    /// Finds the frame that leads `buf`, without reading its body.
    pub fn split_frame(buf: &[u8]) -> (r: Result<Option<Frame>, ProtocolViolation>)
        ensures
            frame_outcome(r) == leading_frame(buf@),
            r matches Ok(Some(f)) ==> 2 <= f.body_start <= f.body_end <= buf.len(),
    {
        let end = match find_json_delimiter(buf) {
            Some(end) => end,
            None => return Ok(None),
        };
        match MessageHeader::read(&buf[0..end]) {
            Some(header) => Self::frame_after_header(&header, end, buf.len()),
            None => Err(ProtocolViolation::MalformedHeader),
        }
    }

    /// Reads the argument frame that leads `buf`.
    ///
    /// `Ok(Some((n, v)))` gives the argument and the length `n` of its frame:
    /// the next frame, if any, starts at offset `n`. `Ok(None)` says that the
    /// frame is not whole yet, which is no error; the caller waits for more
    /// bytes. `Err` says that `buf` breaks the protocol.
    pub fn parse_rpc_recv(buf: &[u8]) -> (r: Result<
        Option<(usize, BackendRpcArgVariant)>,
        ProtocolViolation,
    >)
        ensures
            argument_outcome(r) == decoded_argument(buf@),
            r matches Ok(Some((n, _))) ==> 2 <= n <= buf.len(),
    {
        let frame = match Self::split_frame(buf) {
            Ok(Some(frame)) => frame,
            Ok(None) => return Ok(None),
            Err(e) => return Err(e),
        };
        match BackendRpcArgVariant::decode_body(frame.kind, &buf[frame.body_start..frame.body_end]) {
            Some(v) => Ok(Some((frame.body_end, v))),
            None => Err(ProtocolViolation::MalformedBody),
        }
    }

    /// Reads the result frame that leads `buf`. The outcomes are those of
    /// [`BackendSerializer::parse_rpc_recv`].
    pub fn parse_rpc_result(buf: &[u8]) -> (r: Result<
        Option<(usize, BackendRpcRetVariant)>,
        ProtocolViolation,
    >)
        ensures
            return_outcome(r) == decoded_return(buf@),
            r matches Ok(Some((n, _))) ==> 2 <= n <= buf.len(),
    {
        let frame = match Self::split_frame(buf) {
            Ok(Some(frame)) => frame,
            Ok(None) => return Ok(None),
            Err(e) => return Err(e),
        };
        match BackendRpcRetVariant::decode_body(frame.kind, &buf[frame.body_start..frame.body_end]) {
            Some(v) => Ok(Some((frame.body_end, v))),
            None => Err(ProtocolViolation::MalformedBody),
        }
    }

    /// Writes the frame of procedure `kind` with body `body`.
    pub fn frame(kind: RpcKind, body: &[u8]) -> (r: Vec<u8>)
        ensures
            r@ == frame_text(kind, body@),
    {
        let header = MessageHeader {
            rpc: kind.name().to_owned(),
            body_size: body.len(),
            is_return: false,
        };
        let mut buf: Vec<u8> = Vec::new();
        header.write(&mut buf);
        push_bytes(&mut buf, body);
        buf
    }

    /// Writes the frame that carries the argument `arg`.
    pub fn serialize_rpc_arg(arg: &BackendRpcArgVariant) -> (r: Vec<u8>)
        ensures
            r@ == argument_text(arg@),
    {
        let body = arg.encode_body();
        Self::frame(arg.kind(), body.as_slice())
    }

    /// Writes the frame that carries the result `ret`.
    pub fn serialize_rpc_ret(ret: BackendRpcRetVariant) -> (r: Vec<u8>)
        ensures
            r@ == return_text(ret@),
    {
        let body = ret.encode_body();
        Self::frame(ret.kind(), body.as_slice())
    }
    /// Whether the frame written for `arg` is read back as `arg`.
    ///
    /// It is, unless the JSON writer and the JSON reader disagree. The frame
    /// is written and read here to find out, part by part.
    pub fn reads_back_argument(arg: &BackendRpcArgVariant) -> (r: bool)
        ensures
            r == argument_reads_back(arg@),
            r ==> decoded_argument(argument_text(arg@)) == Ok::<
                Option<(int, BackendRpcArgView)>,
                ProtocolViolation,
            >(Some((argument_text(arg@).len() as int, arg@))),
    {
        let body = arg.encode_body();
        let header_back = Self::reads_back_header(arg.kind(), body.len());
        let body_back = match BackendRpcArgVariant::decode_body(arg.kind(), body.as_slice()) {
            Some(BackendRpcArgVariant::ExampleRpc(m)) => match arg {
                BackendRpcArgVariant::ExampleRpc(sent) => m.msg == sent.msg,
            },
            None => false,
        };
        proof {
            assert(frame_header(arg@.kind(), body@) == (HeaderView {
                rpc: arg@.kind().name_of(),
                body_size: body.len() as nat,
                is_return: false,
            }));
            if header_back && body_back {
                lemma_argument_round_trip(arg@, Seq::empty());
                assert(argument_text(arg@) + Seq::<u8>::empty() == argument_text(arg@));
            }
        }
        header_back && body_back
    }

    /// Whether the frame written for `ret` is read back as `ret`.
    ///
    /// It is, unless the JSON writer and the JSON reader disagree. The frame
    /// is written and read here to find out, part by part.
    pub fn reads_back_return(ret: &BackendRpcRetVariant) -> (r: bool)
        ensures
            r == return_reads_back(ret@),
            r ==> decoded_return(return_text(ret@)) == Ok::<
                Option<(int, BackendRpcRetView)>,
                ProtocolViolation,
            >(Some((return_text(ret@).len() as int, ret@))),
    {
        let body = ret.encode_body();
        let header_back = Self::reads_back_header(ret.kind(), body.len());
        let body_back = match BackendRpcRetVariant::decode_body(ret.kind(), body.as_slice()) {
            Some(BackendRpcRetVariant::ExampleRpc(m)) => match ret {
                BackendRpcRetVariant::ExampleRpc(sent) => m.msg == sent.msg,
            },
            None => false,
        };
        proof {
            assert(frame_header(ret@.kind(), body@) == (HeaderView {
                rpc: ret@.kind().name_of(),
                body_size: body.len() as nat,
                is_return: false,
            }));
            if header_back && body_back {
                lemma_return_round_trip(ret@, Seq::empty());
                assert(return_text(ret@) + Seq::<u8>::empty() == return_text(ret@));
            }
        }
        header_back && body_back
    }

    /// Whether the header of a frame of procedure `kind` with a body of
    /// `body_size` bytes is read back as it was written.
    pub fn reads_back_header(kind: RpcKind, body_size: usize) -> (r: bool)
        ensures
            r == header_reads_back(
                HeaderView { rpc: kind.name_of(), body_size: body_size as nat, is_return: false },
            ),
    {
        let header = MessageHeader { rpc: kind.name().to_owned(), body_size, is_return: false };
        let mut text: Vec<u8> = Vec::new();
        header.write(&mut text);
        assert(text@ == header_text(header@));
        match MessageHeader::read(text.as_slice()) {
            Some(back) => {
                let same = back.rpc == header.rpc && back.body_size == body_size && !back.is_return;
                assert(same == (back@ == header@));
                same
            },
            None => false,
        }
    }
}

} // verus!
