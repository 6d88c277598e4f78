//! Big-endian integers on the wire.
use vstd::prelude::*;
use vstd::arithmetic::div_mod::lemma_breakdown;
use byteorder::{BigEndian, ByteOrder};

verus! {

/// The value of a byte sequence read as a big-endian unsigned integer.
pub open spec fn be_value(b: Seq<u8>) -> nat
    decreases b.len(),
{
    if b.len() == 0 {
        0
    } else {
        be_value(b.drop_last()) * 256 + b.last() as nat
    }
}

/// The `width` low-order bytes of `n`, most significant first.
pub open spec fn be_bytes(n: nat, width: nat) -> Seq<u8>
    decreases width,
{
    if width == 0 {
        Seq::empty()
    } else {
        be_bytes(n / 256, (width - 1) as nat).push((n % 256) as u8)
    }
}

/// `256` raised to `width`.
pub open spec fn pow256(width: nat) -> nat
    decreases width,
{
    if width == 0 {
        1
    } else {
        256 * pow256((width - 1) as nat)
    }
}

/// Reading back `width` written bytes gives the value modulo `256^width`.
pub proof fn lemma_be_bytes_value(n: nat, width: nat)
    ensures
        be_bytes(n, width).len() == width,
        be_value(be_bytes(n, width)) == n % pow256(width),
    decreases width,
{
    if width > 0 {
        let w1 = (width - 1) as nat;
        lemma_be_bytes_value(n / 256, w1);
        let s = be_bytes(n, width);
        assert(s.drop_last() =~= be_bytes(n / 256, w1));
        lemma_pow256_positive(w1);
        lemma_breakdown(n as int, 256, pow256(w1) as int);
    }
}

/// `256^width` is positive.
pub proof fn lemma_pow256_positive(width: nat)
    ensures
        pow256(width) > 0,
    decreases width,
{
    if width > 0 {
        lemma_pow256_positive((width - 1) as nat);
    }
}

/// A value below `256^width` is read back unchanged from its `width` bytes.
pub proof fn lemma_be_round_trip(n: nat, width: nat)
    requires
        n < pow256(width),
    ensures
        be_bytes(n, width).len() == width,
        be_value(be_bytes(n, width)) == n,
{
    lemma_be_bytes_value(n, width);
    vstd::arithmetic::div_mod::lemma_small_mod(n, pow256(width));
}

/// The two powers that the length fields use.
pub proof fn lemma_pow256_widths()
    ensures
        pow256(2) == 0x1_0000,
        pow256(8) == 0x1_0000_0000_0000_0000,
{
    reveal_with_fuel(pow256, 9);
}

/// Relies on byteorder's `BigEndian::read_u16`: the first two bytes of the
/// slice as a big-endian integer.
#[verifier::external_body]
pub(crate) fn read_be_u16(buf: &[u8], at: usize) -> (r: u16)
    requires
        at + 2 <= buf@.len(),
    ensures
        r as nat == be_value(buf@.subrange(at as int, at + 2)),
{
    BigEndian::read_u16(&buf[at..])
}

/// Relies on byteorder's `BigEndian::read_u64`: the first eight bytes of the
/// slice as a big-endian integer.
#[verifier::external_body]
pub(crate) fn read_be_u64(buf: &[u8], at: usize) -> (r: u64)
    requires
        at + 8 <= buf@.len(),
    ensures
        r as nat == be_value(buf@.subrange(at as int, at + 8)),
{
    BigEndian::read_u64(&buf[at..])
}

/// Relies on byteorder's `BigEndian::write_u16`: the two bytes of `n`, most
/// significant first.
#[verifier::external_body]
pub(crate) fn write_be_u16(n: u16) -> (r: Vec<u8>)
    ensures
        r@ == be_bytes(n as nat, 2),
{
    let mut buf = vec![0u8; 2];
    BigEndian::write_u16(&mut buf, n);
    buf
}

/// Relies on byteorder's `BigEndian::write_u64`: the eight bytes of `n`, most
/// significant first.
#[verifier::external_body]
pub(crate) fn write_be_u64(n: u64) -> (r: Vec<u8>)
    ensures
        r@ == be_bytes(n as nat, 8),
{
    let mut buf = vec![0u8; 8];
    BigEndian::write_u64(&mut buf, n);
    buf
}

} // verus!
