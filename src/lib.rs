//! A server-side WebSocket framing engine (RFC 6455 base framing).
//!
//! Inbound bytes are decoded into frame headers, unmasked, and folded into
//! logical messages; outbound messages are encoded as unmasked frames with
//! the shortest length encoding. A connection state machine decides which
//! frames are legal at each point of a connection's life.
pub mod bytes_be;
pub mod frames;
pub mod header;
pub mod mask;
pub mod protocol;
pub mod reassembly;
pub mod message;

pub use frames::{encode_message, Parsed, Parser, RawFrame, Serializer};
pub use header::{decode_header, encode_header, Decode, FrameHeader};
pub use mask::apply_mask;
pub use message::{MessageModel, Opcode, ProtocolError, WsFrame};
pub use protocol::{
    Closed, Closing, Connecting, Connection, ConnectionEvent, ConnectionState, Lifecycle, Open,
    WsProtocol,
};
pub use reassembly::Reassembler;
