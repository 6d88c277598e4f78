//! The frame codec façade: a stream decoder over a growable byte buffer, and
//! the stateless frame encoder.
use vstd::prelude::*;
use vstd::slice::{slice_subrange, slice_to_vec};
use vstd::utf8::{encode_utf8, encode_utf8_decode_utf8, encode_utf8_valid_utf8};
use crate::bytes_be::{be_bytes, be_value, lemma_be_round_trip, lemma_pow256_widths, write_be_u16};
use crate::header::{
    decode_header, encode_header, spec_decode_header, spec_encode_header, spec_ext_len_size, spec_first_byte, Decode, HeaderModel,
};
use crate::mask::{apply_mask, lemma_mask_self_inverse, spec_mask};
use crate::message::{spec_opcode_of, MessageModel, Opcode, ProtocolError, WsFrame};
use crate::reassembly::{spec_message_of, spec_step, Reassembler, ReassemblyModel};

verus! {

/// One frame off the wire: FIN, opcode and the unmasked payload.
#[derive(Debug, Clone, PartialEq, Eq)]
pub struct RawFrame {
    pub fin: bool,
    pub opcode: Opcode,
    pub payload: Vec<u8>,
}

impl View for RawFrame {
    type V = (bool, Opcode, Seq<u8>);

    open spec fn view(&self) -> (bool, Opcode, Seq<u8>) {
        (self.fin, self.opcode, self.payload@)
    }
}

/// What a frame decode of the buffered bytes `b` gives: the header, then the
/// payload unmasked with the header's key.
pub open spec fn spec_decode_frame(b: Seq<u8>) -> Decode<(bool, Opcode, Seq<u8>)> {
    match spec_decode_header(b) {
        Decode::Incomplete => Decode::Incomplete,
        Decode::Failed(e) => Decode::Failed(e),
        Decode::Done(h, n) => if b.len() < n + h.payload_len {
            Decode::Incomplete
        } else {
            Decode::Done(
                (
                    h.fin,
                    h.opcode,
                    spec_mask(b.subrange(n as int, n + h.payload_len), h.mask_key),
                ),
                (n + h.payload_len) as usize,
            )
        },
    }
}

/// Decodes one whole frame at the start of `buf`.
pub fn decode_frame(buf: &[u8]) -> (r: Decode<RawFrame>)
    ensures
        r@ == spec_decode_frame(buf@),
{
    match decode_header(buf) {
        Decode::Incomplete => Decode::Incomplete,
        Decode::Failed(e) => Decode::Failed(e),
        Decode::Done(h, n) => {
            let avail = buf.len() - n;
            if (avail as u64) < h.payload_len {
                Decode::Incomplete
            } else {
                let end = n + h.payload_len as usize;
                let masked = slice_subrange(buf, n, end);
                let payload = apply_mask(masked, &h.mask_key);
                Decode::Done(RawFrame { fin: h.fin, opcode: h.opcode, payload }, end)
            }
        },
    }
}

/// Whether a frame carries data: text, binary or a continuation.
pub open spec fn spec_is_data(op: Opcode) -> bool {
    op == Opcode::Text || op == Opcode::Binary || op == Opcode::Continuation
}

/// The outcome of one parse call.
#[derive(Debug, Clone, PartialEq, Eq)]
pub enum Parsed {
    /// The buffer holds no complete message yet.
    NeedMoreData,
    /// A complete logical message.
    Message(WsFrame),
    /// The connection must fail.
    Error(ProtocolError),
}

/// The mathematical value of a [`Parsed`].
pub ghost enum ParsedModel {
    NeedMoreData,
    Message(MessageModel),
    Error(ProtocolError),
}

impl View for Parsed {
    type V = ParsedModel;

    open spec fn view(&self) -> ParsedModel {
        match self {
            Parsed::NeedMoreData => ParsedModel::NeedMoreData,
            Parsed::Message(m) => ParsedModel::Message(m@),
            Parsed::Error(e) => ParsedModel::Error(*e),
        }
    }
}

/// Parsing from reassembly state `s` over buffered bytes `b`, with data
/// frames allowed or not: frames are taken off the front until one completes
/// a message, the bytes run short, or a rule is broken. Gives the new state,
/// the bytes left over, and the outcome.
pub open spec fn spec_parse(s: ReassemblyModel, b: Seq<u8>, data_allowed: bool) -> (
    ReassemblyModel,
    Seq<u8>,
    ParsedModel,
)
    decreases b.len(),
{
    match spec_decode_frame(b) {
        Decode::Incomplete => (s, b, ParsedModel::NeedMoreData),
        Decode::Failed(e) => (s, b, ParsedModel::Error(e)),
        Decode::Done(f, n) => {
            let rest = b.subrange(n as int, b.len() as int);
            if !data_allowed && spec_is_data(f.1) {
                (s, rest, ParsedModel::Error(ProtocolError::FrameOutsideOpen))
            } else {
                let (s2, out) = spec_step(s, f.0, f.1, f.2);
                match out {
                    Err(e) => (s2, rest, ParsedModel::Error(e)),
                    Ok(Some(m)) => (s2, rest, ParsedModel::Message(m)),
                    Ok(None) => if 0 < n <= b.len() {
                        spec_parse(s2, rest, data_allowed)
                    } else {
                        (s2, rest, ParsedModel::NeedMoreData)
                    },
                }
            }
        },
    }
}

/// A consumed frame is never empty: the header alone takes six bytes.
proof fn lemma_frame_consumes(b: Seq<u8>)
    requires
        b.len() <= usize::MAX,
    ensures
        spec_decode_frame(b) matches Decode::Done(_, n) ==> 6 <= n <= b.len(),
{
    if let Decode::Done(h, n) = spec_decode_header(b) {
        assert(6 <= n <= b.len());
    }
}

/// The stream decoder of one connection: reassembly state, and whether the
/// stream has already failed.
pub struct Parser {
    reassembler: Reassembler,
    failed: bool,
}

/// The mathematical value of a [`Parser`].
pub ghost struct ParserModel {
    pub reassembly: ReassemblyModel,
    pub failed: bool,
}

impl View for Parser {
    type V = ParserModel;

    closed spec fn view(&self) -> ParserModel {
        ParserModel { reassembly: self.reassembler@, failed: self.failed }
    }
}

impl Parser {
    pub closed spec fn wf(&self) -> bool {
        self.reassembler.wf()
    }

    /// A fresh decoder: no fragment open, not failed.
    pub fn new() -> (r: Parser)
        ensures
            r.wf(),
            r@.reassembly.pending is None,
            r@.reassembly.buffer.len() == 0,
            !r@.failed,
    {
        Parser { reassembler: Reassembler::new(), failed: false }
    }

    /// Whether an error has ended this stream.
    pub fn is_failed(&self) -> (r: bool)
        ensures
            r == self@.failed,
    {
        self.failed
    }

    /// Takes frames off the front of `buf` until one completes a message,
    /// the bytes run short, or a rule is broken; consumed bytes are removed.
    /// Once an error has been returned, every later call returns
    /// `ConnectionClosed` and leaves the buffer alone.
    pub fn parse_frames(&mut self, buf: &mut Vec<u8>, data_allowed: bool) -> (r: Parsed)
        requires
            old(self).wf(),
        ensures
            final(self).wf(),
            old(self)@.failed ==> {
                &&& r@ == ParsedModel::Error(ProtocolError::ConnectionClosed)
                &&& final(self)@ == old(self)@
                &&& final(buf)@ == old(buf)@
            },
            !old(self)@.failed ==> {
                let (s, rest, out) = spec_parse(old(self)@.reassembly, old(buf)@, data_allowed);
                &&& r@ == out
                &&& final(self)@.reassembly == s
                &&& final(buf)@ == rest
                &&& final(self)@.failed == (out is Error)
            },
    {
        if self.failed {
            return Parsed::Error(ProtocolError::ConnectionClosed);
        }
        loop
            invariant
                self.wf(),
                !self.failed,
                !old(self)@.failed,
                spec_parse(self@.reassembly, buf@, data_allowed) == spec_parse(
                    old(self)@.reassembly,
                    old(buf)@,
                    data_allowed,
                ),
            decreases buf@.len(),
        {
            let bytes = buf.as_slice();
            let total: usize = bytes.len();
            proof {
                assert(bytes@.len() == total);
                lemma_frame_consumes(bytes@);
            }
            match decode_frame(bytes) {
                Decode::Incomplete => {
                    return Parsed::NeedMoreData;
                },
                Decode::Failed(e) => {
                    self.failed = true;
                    return Parsed::Error(e);
                },
                Decode::Done(f, n) => {
                    let rest = buf.split_off(n);
                    *buf = rest;
                    if !data_allowed && (f.opcode == Opcode::Text || f.opcode == Opcode::Binary
                        || f.opcode == Opcode::Continuation) {
                        self.failed = true;
                        return Parsed::Error(ProtocolError::FrameOutsideOpen);
                    }
                    match self.reassembler.push_frame(f.fin, f.opcode, f.payload) {
                        Err(e) => {
                            self.failed = true;
                            return Parsed::Error(e);
                        },
                        Ok(Some(m)) => {
                            return Parsed::Message(m);
                        },
                        Ok(None) => {},
                    }
                },
            }
        }
    }

    /// Like [`Parser::parse_frames`], with data frames allowed.
    pub fn parse(&mut self, buf: &mut Vec<u8>) -> (r: Parsed)
        requires
            old(self).wf(),
        ensures
            final(self).wf(),
            old(self)@.failed ==> {
                &&& r@ == ParsedModel::Error(ProtocolError::ConnectionClosed)
                &&& final(self)@ == old(self)@
                &&& final(buf)@ == old(buf)@
            },
            !old(self)@.failed ==> {
                let (s, rest, out) = spec_parse(old(self)@.reassembly, old(buf)@, true);
                &&& r@ == out
                &&& final(self)@.reassembly == s
                &&& final(buf)@ == rest
                &&& final(self)@.failed == (out is Error)
            },
    {
        self.parse_frames(buf, true)
    }

    /// The end of the stream: bytes of an unfinished frame, or an open
    /// fragmented message, cannot be completed any more.
    pub fn done(&mut self, buf: &mut Vec<u8>) -> (r: Parsed)
        requires
            old(self).wf(),
        ensures
            final(self).wf(),
            old(self)@.failed ==> {
                &&& r@ == ParsedModel::Error(ProtocolError::ConnectionClosed)
                &&& final(self)@ == old(self)@
                &&& final(buf)@ == old(buf)@
            },
            !old(self)@.failed ==> {
                let (s, rest, out) = spec_parse(old(self)@.reassembly, old(buf)@, true);
                &&& final(buf)@ == rest
                &&& final(self)@.reassembly == s
                &&& final(self)@.failed == (r@ is Error)
                &&& out is NeedMoreData && rest.len() == 0 && s.pending is None ==> r@
                    == ParsedModel::NeedMoreData
                &&& out is NeedMoreData && (rest.len() != 0 || s.pending is Some) ==> r@
                    == ParsedModel::Error(ProtocolError::ConnectionClosed)
                &&& !(out is NeedMoreData) ==> r@ == out
            },
    {
        let r = self.parse(buf);
        match r {
            Parsed::NeedMoreData => {
                if buf.len() != 0 || self.reassembler.is_pending() {
                    self.failed = true;
                    Parsed::Error(ProtocolError::ConnectionClosed)
                } else {
                    Parsed::NeedMoreData
                }
            },
            _ => r,
        }
    }
}

/// The opcode and payload bytes that carry a message on the wire.
pub open spec fn spec_wire_payload(m: MessageModel) -> (Opcode, Seq<u8>) {
    match m {
        MessageModel::Text(cs) => (Opcode::Text, encode_utf8(cs)),
        MessageModel::Binary(p) => (Opcode::Binary, p),
        MessageModel::Close(code, reason) => (
            Opcode::Close,
            be_bytes(code as nat, 2) + encode_utf8(reason),
        ),
        MessageModel::Ping(p) => (Opcode::Ping, p),
        MessageModel::Pong(p) => (Opcode::Pong, p),
    }
}

/// The single unmasked, final frame that carries a message; control
/// messages longer than 125 bytes cannot be sent.
pub open spec fn spec_encode_message(m: MessageModel) -> Result<Seq<u8>, ProtocolError> {
    let (op, p) = spec_wire_payload(m);
    if (op == Opcode::Close || op == Opcode::Ping || op == Opcode::Pong) && p.len() > 125 {
        Err(ProtocolError::ControlFrameTooLong)
    } else {
        Ok(spec_encode_header(op, true, p.len()) + p)
    }
}

/// The payload bytes of a message, with its opcode.
fn wire_payload(frame: &WsFrame) -> (r: (Opcode, Vec<u8>))
    ensures
        r.0 == spec_wire_payload(frame@).0,
        r.1@ == spec_wire_payload(frame@).1,
{
    match frame {
        WsFrame::Text { payload } => (Opcode::Text, slice_to_vec(payload.as_str().as_bytes())),
        WsFrame::Binary { payload } => (Opcode::Binary, slice_to_vec(payload.as_slice())),
        WsFrame::Close { code, reason } => {
            let mut data = write_be_u16(*code);
            data.extend_from_slice(reason.as_str().as_bytes());
            (Opcode::Close, data)
        },
        WsFrame::Ping { payload } => (Opcode::Ping, slice_to_vec(payload.as_slice())),
        WsFrame::Pong { payload } => (Opcode::Pong, slice_to_vec(payload.as_slice())),
    }
}

/// Encodes a message as one unmasked, final frame with the shortest
/// length field.
pub fn encode_message(frame: &WsFrame) -> (r: Result<Vec<u8>, ProtocolError>)
    ensures
        r matches Ok(v) ==> spec_encode_message(frame@) == Ok::<Seq<u8>, ProtocolError>(v@),
        r matches Err(e) ==> spec_encode_message(frame@) == Err::<Seq<u8>, ProtocolError>(e),
{
    let (opcode, mut data) = wire_payload(frame);
    if opcode.is_control() && data.len() > 125 {
        return Err(ProtocolError::ControlFrameTooLong);
    }
    let mut out = encode_header(opcode, true, data.len() as u64);
    out.append(&mut data);
    Ok(out)
}

/// The outbound half of the codec. Encoding is stateless per call.
pub struct Serializer;

impl Serializer {
    /// Appends the frame of a message to `buf`. A control message whose
    /// payload exceeds 125 bytes is refused and `buf` is left as it was.
    pub fn serialize(&mut self, frame: WsFrame, buf: &mut Vec<u8>) -> (r: Result<(), ProtocolError>)
        ensures
            r is Ok <==> spec_encode_message(frame@) is Ok,
            spec_encode_message(frame@) matches Ok(bytes) ==> final(buf)@ == old(buf)@ + bytes,
            spec_encode_message(frame@) matches Err(e) ==> r == Err::<(), ProtocolError>(e)
                && final(buf)@ == old(buf)@,
    {
        match encode_message(&frame) {
            Ok(mut bytes) => {
                buf.append(&mut bytes);
                Ok(())
            },
            Err(e) => Err(e),
        }
    }
}

/// A frame whose wire payload is `p` masked with the frame's own key is
/// decoded to `p` itself: the decoder removes exactly the mask.
pub proof fn lemma_frame_unmasks_payload(b: Seq<u8>, p: Seq<u8>)
    requires
        spec_decode_header(b) matches Decode::Done(h, hl) && hl + h.payload_len <= b.len()
            && b.subrange(hl as int, hl + h.payload_len) == spec_mask(p, h.mask_key),
    ensures
        spec_decode_header(b) matches Decode::Done(h, hl) && spec_decode_frame(b) == Decode::Done(
            (h.fin, h.opcode, p),
            (hl + h.payload_len) as usize,
        ),
{
    if let Decode::Done(h, hl) = spec_decode_header(b) {
        assert(h.mask_key.len() == 4);
        assert(spec_mask(p, h.mask_key).len() == p.len());
        lemma_mask_self_inverse(p, h.mask_key);
    }
}

/// The frame of an encoded message uses the shortest length field: the
/// length itself up to 125 bytes, a 16-bit field up to 65535, a 64-bit
/// field beyond; each big-endian field reads back as the payload length.
pub proof fn lemma_encoded_length_field(m: MessageModel)
    requires
        spec_encode_message(m) is Ok,
        spec_wire_payload(m).1.len() <= u64::MAX,
    ensures
        ({
            let bytes = spec_encode_message(m)->Ok_0;
            let n = spec_wire_payload(m).1.len();
            &&& n <= 125 ==> bytes[1] == n as u8 && bytes.len() == 2 + n
            &&& 126 <= n <= 0xFFFF ==> bytes[1] == 126 && bytes.subrange(2, 4) == be_bytes(n, 2)
                && be_value(bytes.subrange(2, 4)) == n && bytes.len() == 4 + n
            &&& 0xFFFF < n ==> bytes[1] == 127 && bytes.subrange(2, 10) == be_bytes(n, 8)
                && be_value(bytes.subrange(2, 10)) == n && bytes.len() == 10 + n
        }),
{
    let (op, p) = spec_wire_payload(m);
    let n = p.len();
    let bytes = spec_encode_message(m)->Ok_0;
    let hd = spec_encode_header(op, true, n);
    assert(bytes == hd + p);
    lemma_pow256_widths();
    if 126 <= n <= 0xFFFF {
        lemma_be_round_trip(n, 2);
        assert(bytes.subrange(2, 4) =~= be_bytes(n, 2));
    } else if 0xFFFF < n {
        lemma_be_round_trip(n, 8);
        assert(bytes.subrange(2, 10) =~= be_bytes(n, 8));
    }
}

/// The header that a client puts before a masked payload of `len` bytes:
/// FIN set, the MASK bit set, and the shortest length field.
pub open spec fn spec_client_header(op: Opcode, len: nat) -> Seq<u8> {
    let b0 = spec_first_byte(op, true);
    if len <= 125 {
        seq![b0, (128 + len) as u8]
    } else if len <= 0xFFFF {
        seq![b0, 254u8] + be_bytes(len, 2)
    } else {
        seq![b0, 255u8] + be_bytes(len, 8)
    }
}

/// A message framed as a client frames it: one final frame, masked with `key`.
pub open spec fn spec_encode_as_client(m: MessageModel, key: Seq<u8>) -> Seq<u8> {
    let (op, p) = spec_wire_payload(m);
    spec_client_header(op, p.len()) + key + spec_mask(p, key)
}

/// A message that a client frames in one masked frame is decoded back to
/// the same message: exactly the frame's bytes are taken, whatever follows
/// them stays in the buffer, and the reassembly state is untouched. Control
/// messages must fit in 125 bytes.
pub proof fn lemma_client_round_trip(
    m: MessageModel,
    key: Seq<u8>,
    rest: Seq<u8>,
    s: ReassemblyModel,
)
    requires
        spec_encode_message(m) is Ok,
        spec_wire_payload(m).1.len() < 0x8000_0000_0000_0000,
        spec_wire_payload(m).1.len() + 14 + rest.len() <= usize::MAX,
        key.len() == 4,
        s.pending is None,
    ensures
        spec_parse(s, spec_encode_as_client(m, key) + rest, true) == (
            s,
            rest,
            ParsedModel::Message(m),
        ),
{
    let (op, p) = spec_wire_payload(m);
    let len = p.len() as int;
    let enc = spec_encode_as_client(m, key);
    let b = enc + rest;
    let hd = spec_client_header(op, len as nat);
    lemma_pow256_widths();
    let ext: int = if len <= 125 {
        0
    } else if len <= 0xFFFF {
        2
    } else {
        8
    };
    if ext == 2 {
        lemma_be_round_trip(len as nat, 2);
        assert(b.subrange(2, 4) =~= be_bytes(len as nat, 2));
    } else if ext == 8 {
        lemma_be_round_trip(len as nat, 8);
        assert(b.subrange(2, 10) =~= be_bytes(len as nat, 8));
    }
    assert(hd.len() == 2 + ext);
    assert(b[0] == spec_first_byte(op, true));
    assert((b[0] / 16) % 8 == 0);
    assert(spec_opcode_of(b[0] % 16) == Some(op));
    assert(b[1] >= 128);
    assert(spec_ext_len_size(b[1] % 128) == ext);
    assert(enc.len() == 6 + ext + len);
    assert(b.len() == 6 + ext + len + rest.len());
    assert(b.subrange(2 + ext, 6 + ext) =~= key);
    assert(b.subrange(6 + ext, 6 + ext + len) =~= spec_mask(p, key));
    lemma_mask_self_inverse(p, key);
    match m {
        MessageModel::Text(cs) => {
            encode_utf8_valid_utf8(cs);
            encode_utf8_decode_utf8(cs);
        },
        MessageModel::Close(code, reason) => {
            lemma_be_round_trip(code as nat, 2);
            encode_utf8_valid_utf8(reason);
            encode_utf8_decode_utf8(reason);
            assert(p.subrange(0, 2) =~= be_bytes(code as nat, 2));
            assert(p.subrange(2, p.len() as int) =~= encode_utf8(reason));
        },
        _ => {},
    }
    let h = HeaderModel { fin: true, opcode: op, payload_len: len as nat, mask_key: key };
    assert(spec_decode_header(b) == Decode::Done(h, (6 + ext) as usize));
    assert(spec_decode_frame(b) == Decode::Done((true, op, p), (6 + ext + len) as usize));
    assert(b.subrange(6 + ext + len, b.len() as int) =~= rest);
    assert(spec_message_of(op, p) == Ok::<MessageModel, ProtocolError>(m));
    assert(spec_step(s, true, op, p) == (s, Ok::<Option<MessageModel>, ProtocolError>(Some(m))));
}

} // verus!
