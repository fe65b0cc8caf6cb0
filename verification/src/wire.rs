//! The wire format of a probe: the sequence number as eight bytes in the
//! byte order of the machine, and nothing else.
//!
//! The byte order is a value, [`ByteOrder`], so that what is sent and what is
//! read back are stated exactly for either order; [`ByteOrder::native`] finds
//! the one of the machine.

use vstd::bytes::{
    lemma_auto_spec_u64_to_from_le_bytes, spec_u64_from_le_bytes, spec_u64_to_le_bytes,
    spec_u64_to_le_bytes_open, spec_u64_to_le_bytes_to_open, u64_from_le_bytes, u64_to_le_bytes,
};
use vstd::prelude::*;

verus! {

/// The length of a probe and of its reply, in bytes.
pub const PROBE_LEN: usize = 8;

/// The order in which the bytes of a number are laid out.
#[derive(Copy, Clone, Debug, PartialEq, Eq, Structural)]
pub enum ByteOrder {
    /// Least significant byte first.
    LittleEndian,
    /// Most significant byte first.
    BigEndian,
}

impl ByteOrder {
    /// The eight bytes of `seq` in this order.
    pub open spec fn layout(self, seq: u64) -> Seq<u8> {
        match self {
            ByteOrder::LittleEndian => spec_u64_to_le_bytes(seq),
            ByteOrder::BigEndian => spec_u64_to_le_bytes(seq).reverse(),
        }
    }

    /// The sequence number that `datagram` carries in this order; a datagram
    /// of any length but eight carries none.
    pub open spec fn reading(self, datagram: Seq<u8>) -> Option<u64> {
        if datagram.len() != PROBE_LEN {
            None
        } else {
            match self {
                ByteOrder::LittleEndian => Some(spec_u64_from_le_bytes(datagram)),
                ByteOrder::BigEndian => Some(spec_u64_from_le_bytes(datagram.reverse())),
            }
        }
    }

    /// The byte order of the machine: the one in which it lays out the number
    /// one. Which of the two that is depends on the machine alone, so nothing
    /// is promised of the result here; [`ByteOrder::detect`] says which order
    /// is found for each layout that the machine can hand over.
    pub fn native() -> (order: ByteOrder) {
        let one: [u8; 8] = to_native_bytes(1);
        let order = ByteOrder::detect(one);
        // the order found is the one the machine used
        assert(one@ == order.layout(1));
        order
    }

    /// The order that `one` is taken to be laid out in: least significant
    /// byte first if the first byte is one, else most significant byte first.
    pub open spec fn laying_out_one(one: Seq<u8>) -> ByteOrder {
        if one[0] == 1 {
            ByteOrder::LittleEndian
        } else {
            ByteOrder::BigEndian
        }
    }

    /// The byte order in which `one`, the eight bytes of the number one, is
    /// laid out. For the layout of one in either order the result is that
    /// order; for any other bytes it goes by the first byte.
    pub fn detect(one: [u8; 8]) -> (order: ByteOrder)
        ensures
            order == ByteOrder::laying_out_one(one@),
            one@ == ByteOrder::LittleEndian.layout(1) ==> order == ByteOrder::LittleEndian,
            one@ == ByteOrder::BigEndian.layout(1) ==> order == ByteOrder::BigEndian,
    {
        proof {
            lemma_layout_of_one();
        }
        if one[0] == 1 {
            ByteOrder::LittleEndian
        } else {
            ByteOrder::BigEndian
        }
    }

    /// The payload of the probe with sequence number `seq`.
    pub fn encode(self, seq: u64) -> (payload: [u8; 8])
        ensures
            payload@ == self.layout(seq),
            self.reading(payload@) == Some(seq),
    {
        let le: Vec<u8> = u64_to_le_bytes(seq);
        proof {
            lemma_reply_gives_back_probe(self, seq);
        }
        match self {
            ByteOrder::LittleEndian => {
                let payload: [u8; 8] = [le[0], le[1], le[2], le[3], le[4], le[5], le[6], le[7]];
                assert(payload@ =~= le@);
                payload
            },
            ByteOrder::BigEndian => {
                let payload: [u8; 8] = [le[7], le[6], le[5], le[4], le[3], le[2], le[1], le[0]];
                assert(payload@ =~= le@.reverse());
                payload
            },
        }
    }

    /// The sequence number that a reply carries. A datagram of any length but
    /// eight is no reply.
    pub fn decode(self, datagram: &[u8]) -> (seq: Option<u64>)
        ensures
            seq == self.reading(datagram@),
            seq is Some <==> datagram@.len() == PROBE_LEN,
            seq matches Some(n) ==> self.layout(n) == datagram@,
    {
        if datagram.len() != PROBE_LEN {
            None
        } else {
            proof {
                lemma_auto_spec_u64_to_from_le_bytes();
            }
            match self {
                ByteOrder::LittleEndian => Some(u64_from_le_bytes(datagram)),
                ByteOrder::BigEndian => {
                    let reversed: [u8; 8] = [
                        datagram[7],
                        datagram[6],
                        datagram[5],
                        datagram[4],
                        datagram[3],
                        datagram[2],
                        datagram[1],
                        datagram[0],
                    ];
                    assert(reversed@ =~= datagram@.reverse());
                    assert(reversed@.reverse() =~= datagram@);
                    Some(u64_from_le_bytes(reversed.as_slice()))
                },
            }
        }
    }
}

/// `u64::to_ne_bytes`: the eight bytes of `seq` in the byte order of the
/// machine, which is either least significant byte first or the reverse. Which
/// of the two is not stated.
#[verifier::external_body]
fn to_native_bytes(seq: u64) -> (bytes: [u8; 8])
    ensures
        bytes@ == ByteOrder::LittleEndian.layout(seq) || bytes@ == ByteOrder::BigEndian.layout(seq),
{
    seq.to_ne_bytes()
}

proof fn lemma_layout_of_one()
    ensures
        ByteOrder::LittleEndian.layout(1) =~= seq![1u8, 0u8, 0u8, 0u8, 0u8, 0u8, 0u8, 0u8],
        ByteOrder::BigEndian.layout(1) =~= seq![0u8, 0u8, 0u8, 0u8, 0u8, 0u8, 0u8, 1u8],
{
    spec_u64_to_le_bytes_to_open(1);
    let le = spec_u64_to_le_bytes_open(1);
    assert(1u64 & 0xff == 1) by (bit_vector);
    assert((1u64 >> 8) & 0xff == 0) by (bit_vector);
    assert((1u64 >> 16) & 0xff == 0) by (bit_vector);
    assert((1u64 >> 24) & 0xff == 0) by (bit_vector);
    assert((1u64 >> 32) & 0xff == 0) by (bit_vector);
    assert((1u64 >> 40) & 0xff == 0) by (bit_vector);
    assert((1u64 >> 48) & 0xff == 0) by (bit_vector);
    assert((1u64 >> 56) & 0xff == 0) by (bit_vector);
    assert(le =~= seq![1u8, 0u8, 0u8, 0u8, 0u8, 0u8, 0u8, 0u8]);
    assert(le.reverse() =~= seq![0u8, 0u8, 0u8, 0u8, 0u8, 0u8, 0u8, 1u8]);
}

/// The layout of the number one tells the two byte orders apart: from the
/// bytes of one in an order, that order is found again.
pub proof fn lemma_one_tells_the_order(order: ByteOrder)
    ensures
        ByteOrder::laying_out_one(order.layout(1)) == order,
        ByteOrder::LittleEndian.layout(1) != ByteOrder::BigEndian.layout(1),
{
    lemma_layout_of_one();
    assert(ByteOrder::LittleEndian.layout(1)[0] == 1);
    assert(ByteOrder::BigEndian.layout(1)[0] == 0);
}

/// A probe is always eight bytes long.
pub proof fn lemma_probe_is_eight_bytes(order: ByteOrder, seq: u64)
    ensures
        order.layout(seq).len() == PROBE_LEN,
{
    lemma_auto_spec_u64_to_from_le_bytes();
}

/// A reply that is the probe, byte for byte, gives back the probe's sequence
/// number, whichever the byte order, as long as both sides use the same.
pub proof fn lemma_reply_gives_back_probe(order: ByteOrder, seq: u64)
    ensures
        order.reading(order.layout(seq)) == Some(seq),
{
    lemma_auto_spec_u64_to_from_le_bytes();
    let le = spec_u64_to_le_bytes(seq);
    assert(le.reverse().reverse() =~= le);
}

/// Two sequence numbers never share a payload.
pub proof fn lemma_payloads_differ(order: ByteOrder, a: u64, b: u64)
    requires
        a != b,
    ensures
        order.layout(a) != order.layout(b),
{
    lemma_reply_gives_back_probe(order, a);
    lemma_reply_gives_back_probe(order, b);
}

} // verus!
