//! The frame header codec: FIN, RSV, opcode, MASK, length and mask key.
use vstd::prelude::*;
use crate::bytes_be::{
    be_bytes, be_value, lemma_be_round_trip, lemma_pow256_widths, read_be_u16, read_be_u64,
    write_be_u16, write_be_u64,
};
use crate::message::{spec_is_control, spec_opcode_code, spec_opcode_of, Opcode, ProtocolError};

verus! {

/// The outcome of a decode attempt on buffered bytes.
#[derive(Debug, Clone, PartialEq, Eq)]
pub enum Decode<T> {
    /// More bytes are needed before anything can be decided.
    Incomplete,
    /// A value, and how many bytes of the buffer it took.
    Done(T, usize),
    /// The bytes break the protocol; the connection must fail.
    Failed(ProtocolError),
}

impl<T: View> View for Decode<T> {
    type V = Decode<T::V>;

    open spec fn view(&self) -> Decode<T::V> {
        match self {
            Decode::Incomplete => Decode::Incomplete,
            Decode::Done(v, n) => Decode::Done(v@, *n),
            Decode::Failed(e) => Decode::Failed(*e),
        }
    }
}

/// A decoded inbound frame header. Inbound frames are always masked, so the
/// key is always there.
#[derive(Debug, Clone, Copy, PartialEq, Eq)]
pub struct FrameHeader {
    pub fin: bool,
    pub opcode: Opcode,
    pub payload_len: u64,
    pub mask_key: [u8; 4],
}

/// The mathematical value of a [`FrameHeader`].
pub ghost struct HeaderModel {
    pub fin: bool,
    pub opcode: Opcode,
    pub payload_len: nat,
    pub mask_key: Seq<u8>,
}

impl View for FrameHeader {
    type V = HeaderModel;

    open spec fn view(&self) -> HeaderModel {
        HeaderModel {
            fin: self.fin,
            opcode: self.opcode,
            payload_len: self.payload_len as nat,
            mask_key: self.mask_key@,
        }
    }
}

/// Size of the extended length field that a 7-bit length code announces.
pub open spec fn spec_ext_len_size(len7: u8) -> nat {
    if len7 == 126 {
        2
    } else if len7 == 127 {
        8
    } else {
        0
    }
}

/// What a header decode of the buffered bytes `b` gives.
pub open spec fn spec_decode_header(b: Seq<u8>) -> Decode<HeaderModel> {
    if b.len() < 2 {
        Decode::Incomplete
    } else if (b[0] / 16) % 8 != 0 {
        Decode::Failed(ProtocolError::UnsupportedExtension)
    } else if b[1] < 128 {
        Decode::Failed(ProtocolError::UnmaskedFrame)
    } else if spec_opcode_of(b[0] % 16) is None {
        Decode::Failed(ProtocolError::UnknownOpcode)
    } else {
        let op = spec_opcode_of(b[0] % 16)->0;
        let len7 = b[1] % 128;
        let ext = spec_ext_len_size(len7);
        let hlen = 2 + ext + 4;
        if b.len() < hlen {
            Decode::Incomplete
        } else {
            let len = if ext == 0 {
                len7 as nat
            } else {
                be_value(b.subrange(2, 2 + ext as int))
            };
            if ext == 8 && len >= 0x8000_0000_0000_0000 {
                Decode::Failed(ProtocolError::LengthTooLarge)
            } else if (ext == 2 && len <= 125) || (ext == 8 && len <= 0xFFFF) {
                Decode::Failed(ProtocolError::NonCanonicalLength)
            } else if spec_is_control(op) && len > 125 {
                Decode::Failed(ProtocolError::ControlFrameTooLong)
            } else {
                Decode::Done(
                    HeaderModel {
                        fin: b[0] >= 128,
                        opcode: op,
                        payload_len: len,
                        mask_key: b.subrange(2 + ext as int, hlen as int),
                    },
                    hlen as usize,
                )
            }
        }
    }
}

/// Decodes the header at the start of `buf`.
pub fn decode_header(buf: &[u8]) -> (r: Decode<FrameHeader>)
    ensures
        r@ == spec_decode_header(buf@),
{
    if buf.len() < 2 {
        return Decode::Incomplete;
    }
    let b0 = buf[0];
    let b1 = buf[1];
    if (b0 / 16) % 8 != 0 {
        return Decode::Failed(ProtocolError::UnsupportedExtension);
    }
    if b1 < 128 {
        return Decode::Failed(ProtocolError::UnmaskedFrame);
    }
    let op = match Opcode::from_code(b0 % 16) {
        Some(op) => op,
        None => {
            return Decode::Failed(ProtocolError::UnknownOpcode);
        },
    };
    let len7 = b1 % 128;
    let ext: usize = if len7 == 126 {
        2
    } else if len7 == 127 {
        8
    } else {
        0
    };
    let hlen: usize = 2 + ext + 4;
    if buf.len() < hlen {
        return Decode::Incomplete;
    }
    let len: u64 = if ext == 0 {
        len7 as u64
    } else if ext == 2 {
        read_be_u16(buf, 2) as u64
    } else {
        read_be_u64(buf, 2)
    };
    if ext == 8 && len >= 0x8000_0000_0000_0000 {
        return Decode::Failed(ProtocolError::LengthTooLarge);
    }
    if (ext == 2 && len <= 125) || (ext == 8 && len <= 0xFFFF) {
        return Decode::Failed(ProtocolError::NonCanonicalLength);
    }
    if op.is_control() && len > 125 {
        return Decode::Failed(ProtocolError::ControlFrameTooLong);
    }
    let k = 2 + ext;
    let mask_key: [u8; 4] = [buf[k], buf[k + 1], buf[k + 2], buf[k + 3]];
    assert(mask_key@ =~= buf@.subrange(k as int, hlen as int));
    Decode::Done(FrameHeader { fin: b0 >= 128, opcode: op, payload_len: len, mask_key }, hlen)
}

/// The first header byte: FIN, zero RSV bits, and the opcode.
pub open spec fn spec_first_byte(op: Opcode, fin: bool) -> u8 {
    ((if fin { 128int } else { 0int }) + spec_opcode_code(op)) as u8
}

/// The header of an outbound (unmasked) frame, with the shortest length field.
pub open spec fn spec_encode_header(op: Opcode, fin: bool, len: nat) -> Seq<u8> {
    let b0 = spec_first_byte(op, fin);
    if len <= 125 {
        seq![b0, len as u8]
    } else if len <= 0xFFFF {
        seq![b0, 126u8] + be_bytes(len, 2)
    } else {
        seq![b0, 127u8] + be_bytes(len, 8)
    }
}

/// Encodes the header of an outbound frame. Server frames are never masked.
pub fn encode_header(opcode: Opcode, fin: bool, payload_len: u64) -> (r: Vec<u8>)
    ensures
        r@ == spec_encode_header(opcode, fin, payload_len as nat),
{
    let code = opcode.code();
    let b0: u8 = if fin { 128 + code } else { code };
    let mut out: Vec<u8> = Vec::new();
    out.push(b0);
    if payload_len <= 125 {
        out.push(payload_len as u8);
        assert(out@ =~= spec_encode_header(opcode, fin, payload_len as nat));
    } else if payload_len <= 0xFFFF {
        out.push(126);
        let mut ext = write_be_u16(payload_len as u16);
        out.append(&mut ext);
        assert(out@ =~= spec_encode_header(opcode, fin, payload_len as nat));
    } else {
        out.push(127);
        let mut ext = write_be_u64(payload_len);
        out.append(&mut ext);
        assert(out@ =~= spec_encode_header(opcode, fin, payload_len as nat));
    }
    out
}

/// The length field is as short as the length allows: one byte up to 125, a
/// 16-bit field up to 65535, a 64-bit field beyond.
pub proof fn lemma_minimal_length_width(op: Opcode, fin: bool, len: nat)
    requires
        len < 0x1_0000_0000_0000_0000,
    ensures
        len <= 125 ==> spec_encode_header(op, fin, len).len() == 2,
        126 <= len <= 0xFFFF ==> spec_encode_header(op, fin, len).len() == 4,
        0x1_0000 <= len ==> spec_encode_header(op, fin, len).len() == 10,
{
    lemma_pow256_widths();
    lemma_be_round_trip(len % 0x1_0000, 2);
    if len > 0xFFFF {
        lemma_be_round_trip(len, 8);
    } else if len > 125 {
        lemma_be_round_trip(len, 2);
    }
}

} // verus!
