//! The registry of remote procedures.
//!
//! The set of procedures is closed and known when the library is built. Each
//! has a name, which goes into the header of its frames, a type for its
//! argument and a type for its result. A new procedure takes a variant in
//! [`RpcKind`], in [`BackendRpcArgVariant`] and in [`BackendRpcRetVariant`],
//! a name, and an arm wherever these are matched.

use crate::fields::read_text_member;
use crate::fields::text_member;
use crate::header::is_name_char;
use crate::header::is_plain_name;
use crate::json::json_document;
use crate::json::json_string_text;
use crate::json::parse_document;
use crate::json::write_string;
use crate::text::ascii_bytes;
use crate::text::is_unescaped_text;
use crate::text::lemma_unescaped_text;
use crate::text::push_ascii;
use crate::text::push_bytes;
use vstd::prelude::*;

verus! {

/// The name of the example procedure.
pub const EXAMPLE_RPC_ID: &'static str = "ExampleRpc";

/// The registered procedures.
#[derive(Clone, Copy, Debug, PartialEq, Eq, Structural)]
pub enum RpcKind {
    ExampleRpc,
}

impl RpcKind {
    /// The name of this procedure on the wire.
    pub open spec fn name_of(self) -> Seq<char> {
        match self {
            RpcKind::ExampleRpc => EXAMPLE_RPC_ID@,
        }
    }

    /// The procedure registered under `name`.
    pub open spec fn named(name: Seq<char>) -> Option<RpcKind> {
        if name == EXAMPLE_RPC_ID@ {
            Some(RpcKind::ExampleRpc)
        } else {
            None
        }
    }

    /// The name of this procedure on the wire.
    pub fn name(self) -> (r: &'static str)
        ensures
            r@ == self.name_of(),
    {
        match self {
            RpcKind::ExampleRpc => EXAMPLE_RPC_ID,
        }
    }

    /// Looks up the procedure registered under `name`.
    pub fn lookup(name: &str) -> (r: Option<RpcKind>)
        ensures
            r == RpcKind::named(name@),
    {
        if name.to_owned() == EXAMPLE_RPC_ID.to_owned() {
            Some(RpcKind::ExampleRpc)
        } else {
            None
        }
    }
}

/// Each procedure is registered under a plain name, and under no other.
pub proof fn lemma_registered_names(kind: RpcKind)
    ensures
        is_plain_name(kind.name_of()),
        RpcKind::named(kind.name_of()) == Some(kind),
{
    reveal_strlit("ExampleRpc");
    assert forall|i: int| 0 <= i < EXAMPLE_RPC_ID@.len() implies is_name_char(
        #[trigger] EXAMPLE_RPC_ID@[i],
    ) by {}
}

/// The bytes of a payload with the one text member `msg`: the JSON object
/// `{"msg":<string>}`, written without white space.
pub open spec fn msg_object_text(msg: Seq<char>) -> Seq<u8> {
    ascii_bytes("{\"msg\":"@) + json_string_text(msg) + ascii_bytes("}"@)
}

/// The text member `msg` of the JSON object that `body` holds.
pub open spec fn msg_of(body: Seq<u8>) -> Option<Seq<char>> {
    match json_document(body) {
        Some(doc) => text_member(doc, "msg"@),
        None => None,
    }
}

/// A payload whose text needs no escape is that text, as it is, in
/// `{"msg":"` and `"}`.
pub proof fn lemma_unescaped_msg_object(msg: Seq<char>)
    requires
        is_unescaped_text(msg),
    ensures
        msg_object_text(msg) == ascii_bytes("{\"msg\":\""@) + ascii_bytes(msg) + ascii_bytes(
            "\"}"@,
        ),
        msg_object_text(msg).len() == msg.len() + 10,
{
    reveal_strlit("{\"msg\":");
    reveal_strlit("}");
    reveal_strlit("{\"msg\":\"");
    reveal_strlit("\"}");
    lemma_unescaped_text(msg);
    assert(ascii_bytes("{\"msg\":"@) + seq![0x22u8] == ascii_bytes("{\"msg\":\""@));
    assert(seq![0x22u8] + ascii_bytes("}"@) == ascii_bytes("\"}"@));
    assert(msg_object_text(msg) == ascii_bytes("{\"msg\":"@) + seq![0x22u8] + ascii_bytes(msg)
        + (seq![0x22u8] + ascii_bytes("}"@)));
}

/// Writes the payload with the one text member `msg`.
pub fn write_msg_object(msg: &str) -> (r: Vec<u8>)
    ensures
        r@ == msg_object_text(msg@),
{
    proof {
        reveal_strlit("{\"msg\":");
        reveal_strlit("}");
    }
    let mut body: Vec<u8> = Vec::new();
    push_ascii(&mut body, "{\"msg\":");
    let quoted = write_string(msg).unwrap();
    push_bytes(&mut body, quoted.as_slice());
    push_ascii(&mut body, "}");
    body
}

/// Reads the text member `msg` of the JSON object that `body` holds.
/// Returns `None` where `body` is no JSON or has no such member.
pub fn read_msg_object(body: &[u8]) -> (r: Option<String>)
    ensures
        match r {
            Some(s) => msg_of(body@) == Some(s@),
            None => msg_of(body@) is None,
        },
{
    match parse_document(body) {
        Ok(doc) => read_text_member(&doc, "msg"),
        Err(_) => None,
    }
}

/// The argument of the example procedure.
#[derive(Clone, Debug, PartialEq, Eq)]
pub struct ExampleMessage {
    pub msg: String,
}

/// The result of the example procedure.
#[derive(Clone, Debug, PartialEq, Eq)]
pub struct ExampleReturn {
    pub msg: String,
}

/// An [`ExampleMessage`] as mathematical values.
pub struct ExampleMessageView {
    pub msg: Seq<char>,
}

/// An [`ExampleReturn`] as mathematical values.
pub struct ExampleReturnView {
    pub msg: Seq<char>,
}

impl View for ExampleMessage {
    type V = ExampleMessageView;

    open spec fn view(&self) -> ExampleMessageView {
        ExampleMessageView { msg: self.msg@ }
    }
}

impl View for ExampleReturn {
    type V = ExampleReturnView;

    open spec fn view(&self) -> ExampleReturnView {
        ExampleReturnView { msg: self.msg@ }
    }
}

/// An argument, tagged with the procedure it is for.
#[derive(Clone, Debug, PartialEq, Eq)]
pub enum BackendRpcArgVariant {
    ExampleRpc(ExampleMessage),
}

/// A result, tagged with the procedure it comes from.
#[derive(Clone, Debug, PartialEq, Eq)]
pub enum BackendRpcRetVariant {
    ExampleRpc(ExampleReturn),
}

/// A [`BackendRpcArgVariant`] as mathematical values.
pub enum BackendRpcArgView {
    ExampleRpc(ExampleMessageView),
}

/// A [`BackendRpcRetVariant`] as mathematical values.
pub enum BackendRpcRetView {
    ExampleRpc(ExampleReturnView),
}

impl View for BackendRpcArgVariant {
    type V = BackendRpcArgView;

    open spec fn view(&self) -> BackendRpcArgView {
        match self {
            BackendRpcArgVariant::ExampleRpc(m) => BackendRpcArgView::ExampleRpc(m@),
        }
    }
}

impl View for BackendRpcRetVariant {
    type V = BackendRpcRetView;

    open spec fn view(&self) -> BackendRpcRetView {
        match self {
            BackendRpcRetVariant::ExampleRpc(m) => BackendRpcRetView::ExampleRpc(m@),
        }
    }
}

impl BackendRpcArgView {
    /// The procedure that this argument is for.
    pub open spec fn kind(self) -> RpcKind {
        match self {
            BackendRpcArgView::ExampleRpc(_) => RpcKind::ExampleRpc,
        }
    }

    /// The body of the frame that carries this argument.
    pub open spec fn body_text(self) -> Seq<u8> {
        match self {
            BackendRpcArgView::ExampleRpc(m) => msg_object_text(m.msg),
        }
    }

    /// The argument of `kind` that `body` holds.
    pub open spec fn of_body(kind: RpcKind, body: Seq<u8>) -> Option<BackendRpcArgView> {
        match kind {
            RpcKind::ExampleRpc => match msg_of(body) {
                Some(msg) => Some(BackendRpcArgView::ExampleRpc(ExampleMessageView { msg })),
                None => None,
            },
        }
    }
}

impl BackendRpcRetView {
    /// The procedure that this result comes from.
    pub open spec fn kind(self) -> RpcKind {
        match self {
            BackendRpcRetView::ExampleRpc(_) => RpcKind::ExampleRpc,
        }
    }

    /// The body of the frame that carries this result.
    pub open spec fn body_text(self) -> Seq<u8> {
        match self {
            BackendRpcRetView::ExampleRpc(m) => msg_object_text(m.msg),
        }
    }

    /// The result of `kind` that `body` holds.
    pub open spec fn of_body(kind: RpcKind, body: Seq<u8>) -> Option<BackendRpcRetView> {
        match kind {
            RpcKind::ExampleRpc => match msg_of(body) {
                Some(msg) => Some(BackendRpcRetView::ExampleRpc(ExampleReturnView { msg })),
                None => None,
            },
        }
    }
}

impl BackendRpcArgVariant {
    /// The procedure that this argument is for.
    pub fn kind(&self) -> (r: RpcKind)
        ensures
            r == self@.kind(),
    {
        match self {
            BackendRpcArgVariant::ExampleRpc(_) => RpcKind::ExampleRpc,
        }
    }

    /// Writes the body of the frame that carries this argument.
    pub fn encode_body(&self) -> (r: Vec<u8>)
        ensures
            r@ == self@.body_text(),
    {
        match self {
            BackendRpcArgVariant::ExampleRpc(m) => write_msg_object(m.msg.as_str()),
        }
    }

    /// Reads the argument of `kind` from the body of a frame. Returns `None`
    /// where the body does not have the shape of that argument.
    pub fn decode_body(kind: RpcKind, body: &[u8]) -> (r: Option<BackendRpcArgVariant>)
        ensures
            match r {
                Some(v) => BackendRpcArgView::of_body(kind, body@) == Some(v@),
                None => BackendRpcArgView::of_body(kind, body@) is None,
            },
    {
        match kind {
            RpcKind::ExampleRpc => match read_msg_object(body) {
                Some(msg) => Some(BackendRpcArgVariant::ExampleRpc(ExampleMessage { msg })),
                None => None,
            },
        }
    }
}

impl BackendRpcRetVariant {
    /// The procedure that this result comes from.
    pub fn kind(&self) -> (r: RpcKind)
        ensures
            r == self@.kind(),
    {
        match self {
            BackendRpcRetVariant::ExampleRpc(_) => RpcKind::ExampleRpc,
        }
    }

    /// Writes the body of the frame that carries this result.
    pub fn encode_body(&self) -> (r: Vec<u8>)
        ensures
            r@ == self@.body_text(),
    {
        match self {
            BackendRpcRetVariant::ExampleRpc(m) => write_msg_object(m.msg.as_str()),
        }
    }

    /// Reads the result of `kind` from the body of a frame. Returns `None`
    /// where the body does not have the shape of that result.
    pub fn decode_body(kind: RpcKind, body: &[u8]) -> (r: Option<BackendRpcRetVariant>)
        ensures
            match r {
                Some(v) => BackendRpcRetView::of_body(kind, body@) == Some(v@),
                None => BackendRpcRetView::of_body(kind, body@) is None,
            },
    {
        match kind {
            RpcKind::ExampleRpc => match read_msg_object(body) {
                Some(msg) => Some(BackendRpcRetVariant::ExampleRpc(ExampleReturn { msg })),
                None => None,
            },
        }
    }
}

} // verus!
