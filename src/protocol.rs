//! The connection lifecycle: Connecting, Open, Closing, Closed, and which
//! frames are legal in each state.
use vstd::prelude::*;
use crate::frames::{
    encode_message, spec_decode_frame, spec_encode_message, spec_is_data, spec_parse, Parsed,
    ParsedModel, Parser, ParserModel,
};
use crate::header::Decode;
use crate::message::{MessageModel, ProtocolError, WsFrame};
use crate::reassembly::ReassemblyModel;

verus! {

/// Where a connection stands in its life.
#[derive(Debug, Clone, Copy, PartialEq, Eq, Structural)]
pub enum ConnectionState {
    /// The handshake has not been confirmed yet.
    Connecting,
    /// Frames flow both ways.
    Open,
    /// A close frame has been sent or received.
    Closing,
    /// Terminal: no further I/O.
    Closed,
}

/// What can happen to a connection.
#[derive(Debug, Clone, Copy, PartialEq, Eq, Structural)]
pub enum ConnectionEvent {
    /// The upgrade handshake has completed.
    HandshakeComplete,
    /// This side sent a close frame.
    CloseSent,
    /// The peer sent a close frame.
    CloseReceived,
    /// The close handshake took too long.
    CloseTimeout,
    /// A protocol or transport error.
    Failure,
}

/// The lifecycle state together with which close frames have gone by.
#[derive(Debug, Clone, Copy, PartialEq, Eq, Structural)]
pub struct Lifecycle {
    pub state: ConnectionState,
    pub close_sent: bool,
    pub close_received: bool,
}

/// The one-directional transition function of the lifecycle.
pub open spec fn spec_transition(l: Lifecycle, ev: ConnectionEvent) -> Result<
    Lifecycle,
    ProtocolError,
> {
    match ev {
        ConnectionEvent::HandshakeComplete => if l.state == ConnectionState::Connecting {
            Ok(Lifecycle { state: ConnectionState::Open, ..l })
        } else {
            Err(ProtocolError::InvalidTransition)
        },
        ConnectionEvent::CloseSent => if (l.state == ConnectionState::Open || l.state
            == ConnectionState::Closing) && !l.close_sent {
            Ok(
                Lifecycle {
                    state: if l.close_received {
                        ConnectionState::Closed
                    } else {
                        ConnectionState::Closing
                    },
                    close_sent: true,
                    close_received: l.close_received,
                },
            )
        } else {
            Err(ProtocolError::InvalidTransition)
        },
        ConnectionEvent::CloseReceived => if (l.state == ConnectionState::Open || l.state
            == ConnectionState::Closing) && !l.close_received {
            Ok(
                Lifecycle {
                    state: if l.close_sent {
                        ConnectionState::Closed
                    } else {
                        ConnectionState::Closing
                    },
                    close_sent: l.close_sent,
                    close_received: true,
                },
            )
        } else {
            Err(ProtocolError::InvalidTransition)
        },
        ConnectionEvent::CloseTimeout => if l.state == ConnectionState::Closing {
            Ok(Lifecycle { state: ConnectionState::Closed, ..l })
        } else {
            Err(ProtocolError::InvalidTransition)
        },
        ConnectionEvent::Failure => if l.state != ConnectionState::Closed {
            Ok(Lifecycle { state: ConnectionState::Closed, ..l })
        } else {
            Err(ProtocolError::InvalidTransition)
        },
    }
}

/// The rank of a state in the order Connecting, Open, Closing, Closed.
pub open spec fn spec_rank(s: ConnectionState) -> int {
    match s {
        ConnectionState::Connecting => 0,
        ConnectionState::Open => 1,
        ConnectionState::Closing => 2,
        ConnectionState::Closed => 3,
    }
}

impl Lifecycle {
    /// A connection whose handshake is still under way.
    pub fn new() -> (r: Lifecycle)
        ensures
            r == (Lifecycle {
                state: ConnectionState::Connecting,
                close_sent: false,
                close_received: false,
            }),
    {
        Lifecycle { state: ConnectionState::Connecting, close_sent: false, close_received: false }
    }

    /// Checks the current state against the event, then moves on.
    pub fn transition(self, ev: ConnectionEvent) -> (r: Result<Lifecycle, ProtocolError>)
        ensures
            r == spec_transition(self, ev),
    {
        match ev {
            ConnectionEvent::HandshakeComplete => if self.state == ConnectionState::Connecting {
                Ok(Lifecycle { state: ConnectionState::Open, ..self })
            } else {
                Err(ProtocolError::InvalidTransition)
            },
            ConnectionEvent::CloseSent => if (self.state == ConnectionState::Open || self.state
                == ConnectionState::Closing) && !self.close_sent {
                let state = if self.close_received {
                    ConnectionState::Closed
                } else {
                    ConnectionState::Closing
                };
                Ok(Lifecycle { state, close_sent: true, close_received: self.close_received })
            } else {
                Err(ProtocolError::InvalidTransition)
            },
            ConnectionEvent::CloseReceived => if (self.state == ConnectionState::Open
                || self.state == ConnectionState::Closing) && !self.close_received {
                let state = if self.close_sent {
                    ConnectionState::Closed
                } else {
                    ConnectionState::Closing
                };
                Ok(Lifecycle { state, close_sent: self.close_sent, close_received: true })
            } else {
                Err(ProtocolError::InvalidTransition)
            },
            ConnectionEvent::CloseTimeout => if self.state == ConnectionState::Closing {
                Ok(Lifecycle { state: ConnectionState::Closed, ..self })
            } else {
                Err(ProtocolError::InvalidTransition)
            },
            ConnectionEvent::Failure => if self.state != ConnectionState::Closed {
                Ok(Lifecycle { state: ConnectionState::Closed, ..self })
            } else {
                Err(ProtocolError::InvalidTransition)
            },
        }
    }
}

/// Transitions never return to an earlier state, and nothing leaves Closed.
pub proof fn lemma_transitions_move_forward(l: Lifecycle, ev: ConnectionEvent)
    ensures
        spec_transition(l, ev) matches Ok(l2) ==> spec_rank(l.state) < spec_rank(l2.state) || (
        l.state == ConnectionState::Closing && l2.state == ConnectionState::Closing),
        l.state == ConnectionState::Closed ==> spec_transition(l, ev) is Err,
{
}

/// Sending or receiving a close frame while Open leads to Closing.
pub proof fn lemma_close_while_open(l: Lifecycle)
    requires
        l.state == ConnectionState::Open,
        !l.close_sent,
        !l.close_received,
    ensures
        spec_transition(l, ConnectionEvent::CloseSent) matches Ok(l2) && l2.state
            == ConnectionState::Closing,
        spec_transition(l, ConnectionEvent::CloseReceived) matches Ok(l2) && l2.state
            == ConnectionState::Closing,
{
}

/// The lifecycle after a fatal error: Closed, with no Closing in between.
pub open spec fn spec_fail(l: Lifecycle) -> Lifecycle {
    Lifecycle { state: ConnectionState::Closed, ..l }
}

/// How the lifecycle reacts to what the decoder gave, and what the caller
/// is handed: errors close the connection; a close frame from the peer is
/// the `CloseReceived` event.
pub open spec fn spec_react(l: Lifecycle, out: ParsedModel) -> (Lifecycle, ParsedModel) {
    match out {
        ParsedModel::Error(_) => (spec_fail(l), out),
        ParsedModel::NeedMoreData => (l, out),
        ParsedModel::Message(m) => match m {
            MessageModel::Close(_, _) => match spec_transition(l, ConnectionEvent::CloseReceived) {
                Ok(l2) => (l2, out),
                Err(e) => (spec_fail(l), ParsedModel::Error(e)),
            },
            _ => (l, out),
        },
    }
}

/// Whether a message carries data (text or binary).
pub open spec fn spec_is_data_message(m: MessageModel) -> bool {
    m is Text || m is Binary
}

/// Why a message may not be sent in the given lifecycle state, if it may not.
/// A data message outside Open is refused as such, in every other state;
/// a control message is refused once Closed, before the handshake, and
/// after this side's own close frame.
pub open spec fn spec_send_refusal(l: Lifecycle, m: MessageModel) -> Option<ProtocolError> {
    if spec_is_data_message(m) && l.state != ConnectionState::Open {
        Some(ProtocolError::FrameOutsideOpen)
    } else if l.state == ConnectionState::Closed {
        Some(ProtocolError::ConnectionClosed)
    } else if l.state == ConnectionState::Connecting || l.close_sent {
        Some(ProtocolError::FrameOutsideOpen)
    } else {
        None
    }
}

/// While Closing, a data frame at the front of the buffer is a protocol
/// error, and the connection closes.
pub proof fn lemma_data_refused_while_closing(l: Lifecycle, s: ReassemblyModel, b: Seq<u8>)
    requires
        l.state == ConnectionState::Closing,
        spec_decode_frame(b) matches Decode::Done(f, _) && spec_is_data(f.1),
    ensures
        spec_react(l, spec_parse(s, b, l.state == ConnectionState::Open).2) == (
            spec_fail(l),
            ParsedModel::Error(ProtocolError::FrameOutsideOpen),
        ),
{
}

/// One connection: its lifecycle and its stream decoder, owned together.
pub struct Connection {
    life: Lifecycle,
    parser: Parser,
}

/// The mathematical value of a [`Connection`].
pub ghost struct ConnectionModel {
    pub life: Lifecycle,
    pub parser: ParserModel,
}

impl View for Connection {
    type V = ConnectionModel;

    closed spec fn view(&self) -> ConnectionModel {
        ConnectionModel { life: self.life, parser: self.parser@ }
    }
}

impl Connection {
    /// The decoder is sound, and it has failed only on a closed connection.
    pub closed spec fn wf(&self) -> bool {
        &&& self.parser.wf()
        &&& self.life.state != ConnectionState::Closed ==> !self.parser@.failed
    }

    /// A connection whose handshake is still under way.
    pub fn new() -> (r: Connection)
        ensures
            r.wf(),
            r@.life.state == ConnectionState::Connecting,
            !r@.life.close_sent,
            !r@.life.close_received,
            r@.parser.reassembly.pending is None,
            r@.parser.reassembly.buffer.len() == 0,
    {
        Connection { life: Lifecycle::new(), parser: Parser::new() }
    }

    /// The current lifecycle state.
    pub fn state(&self) -> (r: ConnectionState)
        ensures
            r == self@.life.state,
    {
        self.life.state
    }

    /// Applies an outside event (handshake done, close timeout, transport
    /// failure). An illegal one is refused and changes nothing.
    pub fn handle_event(&mut self, ev: ConnectionEvent) -> (r: Result<(), ProtocolError>)
        requires
            old(self).wf(),
        ensures
            final(self).wf(),
            final(self)@.parser == old(self)@.parser,
            match spec_transition(old(self)@.life, ev) {
                Ok(l2) => r is Ok && final(self)@.life == l2,
                Err(e) => r == Err::<(), ProtocolError>(e) && final(self)@.life == old(self)@.life,
            },
    {
        match self.life.transition(ev) {
            Ok(l) => {
                self.life = l;
                Ok(())
            },
            Err(e) => Err(e),
        }
    }

    /// Decodes what `buf` holds, in the light of the lifecycle: data frames
    /// are refused unless Open, a close frame from the peer moves the
    /// lifecycle on, and any error closes the connection.
    pub fn receive(&mut self, buf: &mut Vec<u8>) -> (r: Parsed)
        requires
            old(self).wf(),
        ensures
            final(self).wf(),
            old(self)@.life.state == ConnectionState::Closed ==> {
                &&& r@ == ParsedModel::Error(ProtocolError::ConnectionClosed)
                &&& final(self)@ == old(self)@
                &&& final(buf)@ == old(buf)@
            },
            old(self)@.life.state == ConnectionState::Connecting ==> {
                &&& r@ == ParsedModel::Error(ProtocolError::FrameOutsideOpen)
                &&& final(self)@.life == spec_fail(old(self)@.life)
                &&& final(buf)@ == old(buf)@
            },
            (old(self)@.life.state == ConnectionState::Open || old(self)@.life.state
                == ConnectionState::Closing) ==> {
                let (s, rest, out) = spec_parse(
                    old(self)@.parser.reassembly,
                    old(buf)@,
                    old(self)@.life.state == ConnectionState::Open,
                );
                &&& final(buf)@ == rest
                &&& final(self)@.parser.reassembly == s
                &&& final(self)@.life == spec_react(old(self)@.life, out).0
                &&& r@ == spec_react(old(self)@.life, out).1
            },
    {
        if self.life.state == ConnectionState::Closed {
            return Parsed::Error(ProtocolError::ConnectionClosed);
        }
        if self.life.state == ConnectionState::Connecting {
            self.life = Lifecycle { state: ConnectionState::Closed, ..self.life };
            return Parsed::Error(ProtocolError::FrameOutsideOpen);
        }
        let open = self.life.state == ConnectionState::Open;
        let r = self.parser.parse_frames(buf, open);
        match r {
            Parsed::Error(e) => {
                self.life = Lifecycle { state: ConnectionState::Closed, ..self.life };
                Parsed::Error(e)
            },
            Parsed::Message(WsFrame::Close { code, reason }) => {
                match self.life.transition(ConnectionEvent::CloseReceived) {
                    Ok(l) => {
                        self.life = l;
                        Parsed::Message(WsFrame::Close { code, reason })
                    },
                    Err(e) => {
                        self.life = Lifecycle { state: ConnectionState::Closed, ..self.life };
                        Parsed::Error(e)
                    },
                }
            },
            _ => r,
        }
    }

    /// Encodes a message into `out` if the lifecycle allows it: data only
    /// while Open, nothing after this side's close frame. Sending a close
    /// frame moves the lifecycle on. A refused message writes nothing and,
    /// as every protocol error does, closes the connection.
    pub fn send(&mut self, frame: WsFrame, out: &mut Vec<u8>) -> (r: Result<(), ProtocolError>)
        requires
            old(self).wf(),
        ensures
            final(self).wf(),
            final(self)@.parser == old(self)@.parser,
            spec_send_refusal(old(self)@.life, frame@) matches Some(e) ==> {
                &&& r == Err::<(), ProtocolError>(e)
                &&& final(self)@.life == spec_fail(old(self)@.life)
                &&& final(out)@ == old(out)@
            },
            spec_send_refusal(old(self)@.life, frame@) is None ==> match spec_encode_message(
                frame@,
            ) {
                Err(e) => {
                    &&& r == Err::<(), ProtocolError>(e)
                    &&& final(self)@.life == spec_fail(old(self)@.life)
                    &&& final(out)@ == old(out)@
                },
                Ok(bytes) => {
                    &&& r is Ok
                    &&& final(out)@ == old(out)@ + bytes
                    &&& frame@ is Close ==> spec_transition(
                        old(self)@.life,
                        ConnectionEvent::CloseSent,
                    ) == Ok::<Lifecycle, ProtocolError>(final(self)@.life)
                    &&& !(frame@ is Close) ==> final(self)@.life == old(self)@.life
                },
            },
    {
        let is_data = match &frame {
            WsFrame::Text { .. } | WsFrame::Binary { .. } => true,
            _ => false,
        };
        let is_close = match &frame {
            WsFrame::Close { .. } => true,
            _ => false,
        };
        let refusal = if is_data && self.life.state != ConnectionState::Open {
            Some(ProtocolError::FrameOutsideOpen)
        } else if self.life.state == ConnectionState::Closed {
            Some(ProtocolError::ConnectionClosed)
        } else if self.life.state == ConnectionState::Connecting || self.life.close_sent {
            Some(ProtocolError::FrameOutsideOpen)
        } else {
            None
        };
        if let Some(e) = refusal {
            self.life = Lifecycle { state: ConnectionState::Closed, ..self.life };
            return Err(e);
        }
        match encode_message(&frame) {
            Err(e) => {
                self.life = Lifecycle { state: ConnectionState::Closed, ..self.life };
                Err(e)
            },
            Ok(mut bytes) => {
                out.append(&mut bytes);
                if is_close {
                    if let Ok(l) = self.life.transition(ConnectionEvent::CloseSent) {
                        self.life = l;
                    }
                }
                Ok(())
            },
        }
    }
}

/// The lifecycle at the type level: a protocol value in state `S` can only
/// be turned into one of a later state.
pub struct WsProtocol<S> {
    state: S,
}

/// Type-level state: the handshake is under way.
pub struct Connecting {}

/// Type-level state: frames flow both ways.
pub struct Open {}

/// Type-level state: a close frame has been sent or received.
pub struct Closing {}

/// Type-level state: terminal.
pub struct Closed {}

impl WsProtocol<Connecting> {
    /// A protocol value at the start of its life.
    pub fn new() -> Self {
        WsProtocol { state: Connecting {} }
    }
}

/// The handshake completed.
impl From<WsProtocol<Connecting>> for WsProtocol<Open> {
    fn from(val: WsProtocol<Connecting>) -> WsProtocol<Open> {
        WsProtocol { state: Open {} }
    }
}

impl vstd::std_specs::convert::FromSpecImpl<WsProtocol<Connecting>> for WsProtocol<Open> {
    open spec fn obeys_from_spec() -> bool {
        true
    }

    closed spec fn from_spec(v: WsProtocol<Connecting>) -> WsProtocol<Open> {
        WsProtocol { state: Open {} }
    }
}

/// A close frame was sent or received, whichever came first.
impl From<WsProtocol<Open>> for WsProtocol<Closing> {
    fn from(val: WsProtocol<Open>) -> WsProtocol<Closing> {
        WsProtocol { state: Closing {} }
    }
}

impl vstd::std_specs::convert::FromSpecImpl<WsProtocol<Open>> for WsProtocol<Closing> {
    open spec fn obeys_from_spec() -> bool {
        true
    }

    closed spec fn from_spec(v: WsProtocol<Open>) -> WsProtocol<Closing> {
        WsProtocol { state: Closing {} }
    }
}

/// Close frames went both ways, or the close handshake timed out.
/// The type cannot see which: the caller records an event that
/// [`Lifecycle::transition`] accepted.
impl From<WsProtocol<Closing>> for WsProtocol<Closed> {
    fn from(val: WsProtocol<Closing>) -> WsProtocol<Closed> {
        WsProtocol { state: Closed {} }
    }
}

impl vstd::std_specs::convert::FromSpecImpl<WsProtocol<Closing>> for WsProtocol<Closed> {
    open spec fn obeys_from_spec() -> bool {
        true
    }

    closed spec fn from_spec(v: WsProtocol<Closing>) -> WsProtocol<Closed> {
        WsProtocol { state: Closed {} }
    }
}

/// A protocol or transport error ended an open connection.
impl From<WsProtocol<Open>> for WsProtocol<Closed> {
    fn from(val: WsProtocol<Open>) -> WsProtocol<Closed> {
        WsProtocol { state: Closed {} }
    }
}

impl vstd::std_specs::convert::FromSpecImpl<WsProtocol<Open>> for WsProtocol<Closed> {
    open spec fn obeys_from_spec() -> bool {
        true
    }

    closed spec fn from_spec(v: WsProtocol<Open>) -> WsProtocol<Closed> {
        WsProtocol { state: Closed {} }
    }
}

/// A protocol or transport error ended the connection before it opened.
impl From<WsProtocol<Connecting>> for WsProtocol<Closed> {
    fn from(val: WsProtocol<Connecting>) -> WsProtocol<Closed> {
        WsProtocol { state: Closed {} }
    }
}

impl vstd::std_specs::convert::FromSpecImpl<WsProtocol<Connecting>> for WsProtocol<Closed> {
    open spec fn obeys_from_spec() -> bool {
        true
    }

    closed spec fn from_spec(v: WsProtocol<Connecting>) -> WsProtocol<Closed> {
        WsProtocol { state: Closed {} }
    }
}

} // verus!
