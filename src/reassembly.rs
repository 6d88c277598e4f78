//! The message reassembler: folds data frames and their continuations into
//! logical messages, and lets control frames pass between fragments.
use vstd::prelude::*;
use vstd::utf8::{decode_utf8, valid_utf8};
use crate::bytes_be::{be_value, read_be_u16};
use crate::message::{spec_is_control, MessageModel, Opcode, ProtocolError, WsFrame};

verus! {

/// The close code reported when a close frame carries no payload.
pub const NORMAL_CLOSURE: u16 = 1000;

/// Relies on `String::from_utf8`: it succeeds exactly on valid UTF-8, and
/// the string then holds the decoded characters.
#[verifier::external_body]
fn string_from_utf8(bytes: Vec<u8>) -> (r: Option<String>)
    ensures
        r is Some <==> valid_utf8(bytes@),
        r matches Some(s) ==> s@ == decode_utf8(bytes@),
{
    String::from_utf8(bytes).ok()
}

/// The view of a message result.
pub open spec fn spec_result_view(r: Result<WsFrame, ProtocolError>) -> Result<
    MessageModel,
    ProtocolError,
> {
    match r {
        Ok(m) => Ok(m@),
        Err(e) => Err(e),
    }
}

/// The message that a complete payload of the given opcode stands for.
pub open spec fn spec_message_of(op: Opcode, p: Seq<u8>) -> Result<MessageModel, ProtocolError> {
    match op {
        Opcode::Text => if valid_utf8(p) {
            Ok(MessageModel::Text(decode_utf8(p)))
        } else {
            Err(ProtocolError::InvalidUtf8)
        },
        Opcode::Binary => Ok(MessageModel::Binary(p)),
        Opcode::Close => if p.len() == 0 {
            Ok(MessageModel::Close(NORMAL_CLOSURE, Seq::empty()))
        } else if p.len() == 1 {
            Err(ProtocolError::InvalidClosePayload)
        } else if valid_utf8(p.subrange(2, p.len() as int)) {
            Ok(
                MessageModel::Close(
                    be_value(p.subrange(0, 2)) as u16,
                    decode_utf8(p.subrange(2, p.len() as int)),
                ),
            )
        } else {
            Err(ProtocolError::InvalidUtf8)
        },
        Opcode::Ping => Ok(MessageModel::Ping(p)),
        Opcode::Pong => Ok(MessageModel::Pong(p)),
        Opcode::Continuation => Err(ProtocolError::UnexpectedContinuation),
    }
}

/// Builds the message of a complete payload.
pub fn message_of(op: Opcode, payload: Vec<u8>) -> (r: Result<WsFrame, ProtocolError>)
    ensures
        spec_result_view(r) == spec_message_of(op, payload@),
{
    match op {
        Opcode::Text => match string_from_utf8(payload) {
            Some(s) => Ok(WsFrame::Text { payload: s }),
            None => Err(ProtocolError::InvalidUtf8),
        },
        Opcode::Binary => Ok(WsFrame::Binary { payload }),
        Opcode::Close => {
            if payload.len() == 0 {
                proof {
                    reveal_strlit("");
                }
                let reason = String::from_str("");
                assert(reason@ =~= Seq::<char>::empty());
                Ok(WsFrame::Close { code: NORMAL_CLOSURE, reason })
            } else if payload.len() == 1 {
                Err(ProtocolError::InvalidClosePayload)
            } else {
                let code = read_be_u16(&payload, 0);
                let mut head = payload;
                let rest = head.split_off(2);
                match string_from_utf8(rest) {
                    Some(reason) => Ok(WsFrame::Close { code, reason }),
                    None => Err(ProtocolError::InvalidUtf8),
                }
            }
        },
        Opcode::Ping => Ok(WsFrame::Ping { payload }),
        Opcode::Pong => Ok(WsFrame::Pong { payload }),
        Opcode::Continuation => Err(ProtocolError::UnexpectedContinuation),
    }
}

/// The outcome of feeding one frame to the reassembler, as a model.
pub open spec fn spec_outcome_view(r: Result<Option<WsFrame>, ProtocolError>) -> Result<
    Option<MessageModel>,
    ProtocolError,
> {
    match r {
        Ok(Some(m)) => Ok(Some(m@)),
        Ok(None) => Ok(None),
        Err(e) => Err(e),
    }
}

/// A complete message, or its error, as a step outcome.
pub open spec fn spec_emit(r: Result<MessageModel, ProtocolError>) -> Result<
    Option<MessageModel>,
    ProtocolError,
> {
    match r {
        Ok(m) => Ok(Some(m)),
        Err(e) => Err(e),
    }
}

/// The reassembly state: the opcode of the open fragmented message, if any,
/// and the bytes gathered for it so far.
pub ghost struct ReassemblyModel {
    pub pending: Option<Opcode>,
    pub buffer: Seq<u8>,
}

/// One step of reassembly: the next state and the outcome of a frame.
/// After an error the state is left as it was; the connection fails anyway.
pub open spec fn spec_step(s: ReassemblyModel, fin: bool, op: Opcode, payload: Seq<u8>) -> (
    ReassemblyModel,
    Result<Option<MessageModel>, ProtocolError>,
) {
    if spec_is_control(op) {
        if !fin {
            (s, Err(ProtocolError::FragmentedControlFrame))
        } else {
            (s, spec_emit(spec_message_of(op, payload)))
        }
    } else if op == Opcode::Continuation {
        match s.pending {
            None => (s, Err(ProtocolError::UnexpectedContinuation)),
            Some(p) => if fin {
                (
                    ReassemblyModel { pending: None, buffer: Seq::empty() },
                    spec_emit(spec_message_of(p, s.buffer + payload)),
                )
            } else {
                (ReassemblyModel { pending: Some(p), buffer: s.buffer + payload }, Ok(None))
            },
        }
    } else if s.pending is Some {
        (s, Err(ProtocolError::ExpectedContinuation))
    } else if fin {
        (s, spec_emit(spec_message_of(op, payload)))
    } else {
        (ReassemblyModel { pending: Some(op), buffer: payload }, Ok(None))
    }
}

/// A continuation frame with no fragmented message open is refused, and so
/// is a new text or binary frame while one is open.
pub proof fn lemma_continuation_rules(s: ReassemblyModel, fin: bool, op: Opcode, payload: Seq<u8>)
    ensures
        s.pending is None ==> spec_step(s, fin, Opcode::Continuation, payload).1 == Err::<
            Option<MessageModel>,
            ProtocolError,
        >(ProtocolError::UnexpectedContinuation),
        s.pending is Some && (op == Opcode::Text || op == Opcode::Binary) ==> spec_step(
            s,
            fin,
            op,
            payload,
        ).1 == Err::<Option<MessageModel>, ProtocolError>(ProtocolError::ExpectedContinuation),
{
}

/// A control frame without FIN is refused, whatever the reassembly state.
pub proof fn lemma_fragmented_control_refused(s: ReassemblyModel, op: Opcode, payload: Seq<u8>)
    requires
        spec_is_control(op),
    ensures
        spec_step(s, false, op, payload).1 == Err::<Option<MessageModel>, ProtocolError>(
            ProtocolError::FragmentedControlFrame,
        ),
{
}

/// Control frames pass between fragments without disturbing the open message.
pub proof fn lemma_control_keeps_state(s: ReassemblyModel, fin: bool, op: Opcode, payload: Seq<u8>)
    requires
        spec_is_control(op),
    ensures
        spec_step(s, fin, op, payload).0 == s,
{
}

/// Folds fragmented data messages back together, one connection's worth.
pub struct Reassembler {
    pending: Option<Opcode>,
    buffer: Vec<u8>,
}

impl View for Reassembler {
    type V = ReassemblyModel;

    closed spec fn view(&self) -> ReassemblyModel {
        ReassemblyModel { pending: self.pending, buffer: self.buffer@ }
    }
}

impl Reassembler {
    /// Only a text or binary message can be open, and nothing is gathered
    /// while none is.
    pub open spec fn wf(&self) -> bool {
        &&& self@.pending is None ==> self@.buffer.len() == 0
        &&& self@.pending matches Some(p) ==> (p == Opcode::Text || p == Opcode::Binary)
    }

    /// No fragmented message open.
    pub fn new() -> (r: Reassembler)
        ensures
            r.wf(),
            r@.pending is None,
    {
        Reassembler { pending: None, buffer: Vec::new() }
    }

    /// Whether a fragmented message is open.
    pub fn is_pending(&self) -> (r: bool)
        ensures
            r == self@.pending is Some,
    {
        self.pending.is_some()
    }

    /// Feeds one frame, already unmasked. Returns the message that it
    /// completes, if any.
    pub fn push_frame(&mut self, fin: bool, opcode: Opcode, payload: Vec<u8>) -> (r: Result<
        Option<WsFrame>,
        ProtocolError,
    >)
        requires
            old(self).wf(),
        ensures
            final(self).wf(),
            final(self)@ == spec_step(old(self)@, fin, opcode, payload@).0,
            spec_outcome_view(r) == spec_step(old(self)@, fin, opcode, payload@).1,
    {
        if opcode.is_control() {
            if !fin {
                return Err(ProtocolError::FragmentedControlFrame);
            }
            return match message_of(opcode, payload) {
                Ok(m) => Ok(Some(m)),
                Err(e) => Err(e),
            };
        }
        match opcode {
            Opcode::Continuation => {
                match self.pending {
                    None => Err(ProtocolError::UnexpectedContinuation),
                    Some(p) => {
                        let mut more = payload;
                        self.buffer.append(&mut more);
                        if fin {
                            let mut whole: Vec<u8> = Vec::new();
                            std::mem::swap(&mut whole, &mut self.buffer);
                            self.pending = None;
                            match message_of(p, whole) {
                                Ok(m) => Ok(Some(m)),
                                Err(e) => Err(e),
                            }
                        } else {
                            Ok(None)
                        }
                    },
                }
            },
            _ => {
                if self.pending.is_some() {
                    Err(ProtocolError::ExpectedContinuation)
                } else if fin {
                    match message_of(opcode, payload) {
                        Ok(m) => Ok(Some(m)),
                        Err(e) => Err(e),
                    }
                } else {
                    self.pending = Some(opcode);
                    self.buffer = payload;
                    Ok(None)
                }
            },
        }
    }
}

} // verus!
