//! Logical messages, opcodes and the protocol errors of the codec.
use vstd::prelude::*;

verus! {

/// A logical message as delivered to or taken from the application.
#[derive(Debug, Clone, PartialEq, Eq)]
pub enum WsFrame {
    // Data frames
    Text { payload: String },
    Binary { payload: Vec<u8> },
    // Control frames
    Close { code: u16, reason: String },
    Ping { payload: Vec<u8> },
    Pong { payload: Vec<u8> },
}

/// The mathematical value of a [`WsFrame`].
pub ghost enum MessageModel {
    Text(Seq<char>),
    Binary(Seq<u8>),
    Close(u16, Seq<char>),
    Ping(Seq<u8>),
    Pong(Seq<u8>),
}

impl View for WsFrame {
    type V = MessageModel;

    open spec fn view(&self) -> MessageModel {
        match self {
            WsFrame::Text { payload } => MessageModel::Text(payload@),
            WsFrame::Binary { payload } => MessageModel::Binary(payload@),
            WsFrame::Close { code, reason } => MessageModel::Close(*code, reason@),
            WsFrame::Ping { payload } => MessageModel::Ping(payload@),
            WsFrame::Pong { payload } => MessageModel::Pong(payload@),
        }
    }
}

/// The frame opcodes that this codec understands.
#[derive(Debug, Clone, Copy, PartialEq, Eq, Structural)]
pub enum Opcode {
    Continuation,
    Text,
    Binary,
    Close,
    Ping,
    Pong,
}

/// The opcode that a 4-bit wire code stands for, if any.
pub open spec fn spec_opcode_of(code: u8) -> Option<Opcode> {
    if code == 0x0 {
        Some(Opcode::Continuation)
    } else if code == 0x1 {
        Some(Opcode::Text)
    } else if code == 0x2 {
        Some(Opcode::Binary)
    } else if code == 0x8 {
        Some(Opcode::Close)
    } else if code == 0x9 {
        Some(Opcode::Ping)
    } else if code == 0xA {
        Some(Opcode::Pong)
    } else {
        None
    }
}

/// The 4-bit wire code of an opcode.
pub open spec fn spec_opcode_code(op: Opcode) -> u8 {
    match op {
        Opcode::Continuation => 0x0,
        Opcode::Text => 0x1,
        Opcode::Binary => 0x2,
        Opcode::Close => 0x8,
        Opcode::Ping => 0x9,
        Opcode::Pong => 0xA,
    }
}

/// Control frames: close, ping and pong.
pub open spec fn spec_is_control(op: Opcode) -> bool {
    op == Opcode::Close || op == Opcode::Ping || op == Opcode::Pong
}

impl Opcode {
    /// Reads a 4-bit wire code.
    pub fn from_code(code: u8) -> (r: Option<Opcode>)
        ensures
            r == spec_opcode_of(code),
    {
        if code == 0x0 {
            Some(Opcode::Continuation)
        } else if code == 0x1 {
            Some(Opcode::Text)
        } else if code == 0x2 {
            Some(Opcode::Binary)
        } else if code == 0x8 {
            Some(Opcode::Close)
        } else if code == 0x9 {
            Some(Opcode::Ping)
        } else if code == 0xA {
            Some(Opcode::Pong)
        } else {
            None
        }
    }

    /// The 4-bit wire code of this opcode.
    pub fn code(self) -> (r: u8)
        ensures
            r == spec_opcode_code(self),
            r < 16,
            spec_opcode_of(r) == Some(self),
    {
        match self {
            Opcode::Continuation => 0x0,
            Opcode::Text => 0x1,
            Opcode::Binary => 0x2,
            Opcode::Close => 0x8,
            Opcode::Ping => 0x9,
            Opcode::Pong => 0xA,
        }
    }

    /// Whether this is a control opcode (close, ping or pong).
    pub fn is_control(self) -> (r: bool)
        ensures
            r == spec_is_control(self),
    {
        match self {
            Opcode::Close | Opcode::Ping | Opcode::Pong => true,
            _ => false,
        }
    }
}

/// The close code that reports a protocol error.
pub const PROTOCOL_ERROR_CLOSE_CODE: u16 = 1002;

/// A connection-fatal violation of the protocol.
#[derive(Debug, Clone, Copy, PartialEq, Eq, Structural)]
pub enum ProtocolError {
    /// One of the RSV bits is set; no extension is supported.
    UnsupportedExtension,
    /// A frame from the client does not carry the MASK bit.
    UnmaskedFrame,
    /// The opcode is reserved or unknown.
    UnknownOpcode,
    /// A 64-bit length has its high bit set.
    LengthTooLarge,
    /// An extended length field holds a value that a shorter field could hold.
    NonCanonicalLength,
    /// A control frame carries more than 125 bytes of payload.
    ControlFrameTooLong,
    /// A control frame does not have the FIN bit.
    FragmentedControlFrame,
    /// A continuation frame arrived with no fragmented message open.
    UnexpectedContinuation,
    /// A new data message started before the open one was finished.
    ExpectedContinuation,
    /// An assembled text message, or a close reason, is not valid UTF-8.
    InvalidUtf8,
    /// A close frame payload of exactly one byte.
    InvalidClosePayload,
    /// A data frame outside the `Open` state of the connection.
    FrameOutsideOpen,
    /// A frame arrived after the connection had failed or closed.
    ConnectionClosed,
    /// The connection's state does not allow this transition.
    InvalidTransition,
}

/// The description of each protocol error.
pub open spec fn spec_description(e: ProtocolError) -> Seq<char> {
    match e {
        ProtocolError::UnsupportedExtension => "unsupported extension"@,
        ProtocolError::UnmaskedFrame => "client frame not masked"@,
        ProtocolError::UnknownOpcode => "unknown opcode"@,
        ProtocolError::LengthTooLarge => "payload length not representable"@,
        ProtocolError::NonCanonicalLength => "non-canonical payload length"@,
        ProtocolError::ControlFrameTooLong => "control frame payload too long"@,
        ProtocolError::FragmentedControlFrame => "fragmented control frame"@,
        ProtocolError::UnexpectedContinuation => "unexpected continuation"@,
        ProtocolError::ExpectedContinuation => "expected continuation, got new message"@,
        ProtocolError::InvalidUtf8 => "invalid UTF-8"@,
        ProtocolError::InvalidClosePayload => "invalid close payload"@,
        ProtocolError::FrameOutsideOpen => "frame received outside Open state"@,
        ProtocolError::ConnectionClosed => "connection closed"@,
        ProtocolError::InvalidTransition => "invalid state transition"@,
    }
}

impl ProtocolError {
    /// The close message that reports this failure to the peer: code 1002
    /// (protocol error), with the description as its reason.
    pub fn to_close_frame(&self) -> (r: WsFrame)
        ensures
            r@ == MessageModel::Close(PROTOCOL_ERROR_CLOSE_CODE, spec_description(*self)),
    {
        WsFrame::Close { code: PROTOCOL_ERROR_CLOSE_CODE, reason: self.description().to_owned() }
    }

    /// A short description of the violated rule.
    pub fn description(&self) -> (r: &'static str)
        ensures
            r@ == spec_description(*self),
    {
        match self {
            ProtocolError::UnsupportedExtension => "unsupported extension",
            ProtocolError::UnmaskedFrame => "client frame not masked",
            ProtocolError::UnknownOpcode => "unknown opcode",
            ProtocolError::LengthTooLarge => "payload length not representable",
            ProtocolError::NonCanonicalLength => "non-canonical payload length",
            ProtocolError::ControlFrameTooLong => "control frame payload too long",
            ProtocolError::FragmentedControlFrame => "fragmented control frame",
            ProtocolError::UnexpectedContinuation => "unexpected continuation",
            ProtocolError::ExpectedContinuation => "expected continuation, got new message",
            ProtocolError::InvalidUtf8 => "invalid UTF-8",
            ProtocolError::InvalidClosePayload => "invalid close payload",
            ProtocolError::FrameOutsideOpen => "frame received outside Open state",
            ProtocolError::ConnectionClosed => "connection closed",
            ProtocolError::InvalidTransition => "invalid state transition",
        }
    }
}

} // verus!
