//! A minimal remote-procedure-call transport over a datagram channel.
//!
//! A caller writes the argument of a procedure into a frame and sends it; the
//! serving side reads the frames of each datagram, hands each argument to the
//! handler of its procedure and sends the result back in a frame of its own.
//! A frame is a JSON header followed by a body whose length the header
//! declares. One call is under way at a time, and nothing is sent twice: the
//! first fault of the channel, of the protocol or of a handler ends the call
//! or the service.
//!
//! The modules, leaves first:
//!
//! - [`scanner`] finds where the header that leads a buffer ends;
//! - [`json`] holds what is taken on trust from `serde_json`, and [`fields`]
//!   reads the members of a parsed object;
//! - [`text`] writes ASCII text and decimal numbers;
//! - [`header`] writes and reads the header of a frame;
//! - [`rpc`] is the registry of procedures, with their arguments and results;
//! - [`serializer`] writes and reads whole frames;
//! - [`channel`] and [`handler`] are what an application supplies: the
//!   transport, and the procedures themselves;
//! - [`client`] calls a procedure, and [`service`] serves the frames of a
//!   datagram;
//! - [`laws`] states what holds of frames in general.

pub mod channel;
pub mod client;
pub mod fields;
pub mod handler;
pub mod header;
pub mod json;
pub mod laws;
pub mod rpc;
pub mod scanner;
pub mod serializer;
pub mod service;
pub mod text;

pub use client::BackendServiceClient;
pub use handler::BackendRpcHandler;
pub use channel::MessageChannel;
pub use rpc::BackendRpcArgVariant;
pub use rpc::BackendRpcRetVariant;
pub use rpc::ExampleMessage;
pub use rpc::ExampleReturn;
pub use rpc::EXAMPLE_RPC_ID;
pub use scanner::find_json_delimiter;
pub use serializer::BackendSerializer;
pub use service::BackendService;
