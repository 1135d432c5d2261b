//! The fixed packet header: a flags byte, the sequence number, an optional
//! block of piggy-backed acknowledgments, and a message id whose width on
//! the wire depends on the message's frequency class.

use vstd::prelude::*;

verus! {

use vstd::bytes::{
    spec_u16_from_le_bytes, spec_u16_to_le_bytes, spec_u32_from_le_bytes, spec_u32_to_le_bytes,
};
use crate::packet::DecodeError;
use crate::wire::{push_u16_le, push_u32_le, read_u16_le, read_u32_le, read_u8};

/// Flags-byte bit marking a packet that must be acknowledged.
pub const FLAG_RELIABLE: u8 = 0x40;

/// Flags-byte bit marking a retransmission.
pub const FLAG_RESENT: u8 = 0x20;

/// Flags-byte bit reserved for run-length zero compression.
pub const FLAG_ZEROCODED: u8 = 0x80;

/// Flags-byte bit marking a trailing acknowledgment block.
pub const FLAG_APPENDED_ACKS: u8 = 0x10;

/// Frequency class of a message type; it selects how many bytes of the
/// header carry the message id.
#[derive(Clone, Copy, Debug, PartialEq, Eq, Structural)]
pub enum PacketFrequency {
    Low,
    Medium,
    High,
}

/// The fixed header carried by every packet.
#[derive(Clone, Debug, PartialEq, Eq)]
pub struct Header {
    /// Message type discriminant.
    pub id: u16,
    /// Frequency class selecting the id's wire width.
    pub frequency: PacketFrequency,
    /// Whether the receiver must acknowledge this packet.
    pub reliable: bool,
    /// Whether this transmission is a retry.
    pub resent: bool,
    /// Whether the body is run-length zero compressed.
    pub zerocoded: bool,
    /// Whether an acknowledgment block follows the sequence number.
    pub appended_acks: bool,
    /// Send-order number within the session; assigned at send time.
    pub sequence_number: u32,
    /// Piggy-backed acknowledgments, present exactly when `appended_acks`.
    pub ack_list: Option<Vec<u32>>,
}

/// Mathematical model of a header.
#[verifier::ext_equal]
pub ghost struct HeaderV {
    pub id: u16,
    pub frequency: PacketFrequency,
    pub reliable: bool,
    pub resent: bool,
    pub zerocoded: bool,
    pub appended_acks: bool,
    pub sequence_number: u32,
    pub ack_list: Option<Seq<u32>>,
}

impl View for Header {
    type V = HeaderV;

    open spec fn view(&self) -> HeaderV {
        HeaderV {
            id: self.id,
            frequency: self.frequency,
            reliable: self.reliable,
            resent: self.resent,
            zerocoded: self.zerocoded,
            appended_acks: self.appended_acks,
            sequence_number: self.sequence_number,
            ack_list: match self.ack_list {
                Some(l) => Some(l@),
                None => None,
            },
        }
    }
}

impl HeaderV {
    /// Validity of a header: the acknowledgment block is present exactly
    /// when its flag is set and fits its one-byte count, and the id fits
    /// the width its frequency class selects.
    pub open spec fn wf(&self) -> bool {
        &&& (self.appended_acks <==> self.ack_list is Some)
        &&& (self.ack_list matches Some(l) ==> l.len() <= 255)
        &&& (self.frequency != PacketFrequency::Low ==> self.id < 255)
    }
}

/// The header's flags byte.
pub open spec fn spec_flags_byte(h: HeaderV) -> u8 {
    (if h.zerocoded {
        FLAG_ZEROCODED
    } else {
        0u8
    }) | (if h.reliable {
        FLAG_RELIABLE
    } else {
        0u8
    }) | (if h.resent {
        FLAG_RESENT
    } else {
        0u8
    }) | (if h.appended_acks {
        FLAG_APPENDED_ACKS
    } else {
        0u8
    })
}

/// Each flag is recovered from the flags byte by its mask.
pub proof fn lemma_flags_byte(h: HeaderV)
    ensures
        (spec_flags_byte(h) & FLAG_ZEROCODED != 0) == h.zerocoded,
        (spec_flags_byte(h) & FLAG_RELIABLE != 0) == h.reliable,
        (spec_flags_byte(h) & FLAG_RESENT != 0) == h.resent,
        (spec_flags_byte(h) & FLAG_APPENDED_ACKS != 0) == h.appended_acks,
{
    let zb: u8 = if h.zerocoded {
        0x80
    } else {
        0
    };
    let rb: u8 = if h.reliable {
        0x40
    } else {
        0
    };
    let sb: u8 = if h.resent {
        0x20
    } else {
        0
    };
    let ab: u8 = if h.appended_acks {
        0x10
    } else {
        0
    };
    let f = zb | rb | sb | ab;
    assert((f & 0x80 != 0) == (zb == 0x80) && (f & 0x40 != 0) == (rb == 0x40) && (f & 0x20 != 0)
        == (sb == 0x20) && (f & 0x10 != 0) == (ab == 0x10)) by (bit_vector)
        requires
            (zb == 0x80 || zb == 0) && (rb == 0x40 || rb == 0) && (sb == 0x20 || sb == 0) && (ab
                == 0x10 || ab == 0) && f == (zb | rb | sb | ab),
    ;
}

/// Wire bytes of a list of acknowledged sequence numbers: four
/// little-endian bytes per id, in order.
pub open spec fn spec_acks_bytes(l: Seq<u32>) -> Seq<u8>
    decreases l.len(),
{
    if l.len() == 0 {
        Seq::empty()
    } else {
        spec_acks_bytes(l.drop_last()) + spec_u32_to_le_bytes(l.last())
    }
}

/// Length of an encoded acknowledgment list.
pub proof fn lemma_acks_bytes_len(l: Seq<u32>)
    ensures
        spec_acks_bytes(l).len() == 4 * l.len(),
    decreases l.len(),
{
    if l.len() > 0 {
        lemma_acks_bytes_len(l.drop_last());
        vstd::bytes::lemma_auto_spec_u32_to_from_le_bytes();
    }
}

/// Each id of an encoded acknowledgment list sits in its own four bytes.
pub proof fn lemma_acks_bytes_index(l: Seq<u32>, i: int)
    requires
        0 <= i < l.len(),
    ensures
        spec_acks_bytes(l).subrange(4 * i, 4 * i + 4) =~= spec_u32_to_le_bytes(l[i]),
    decreases l.len(),
{
    lemma_acks_bytes_len(l);
    lemma_acks_bytes_len(l.drop_last());
    vstd::bytes::lemma_auto_spec_u32_to_from_le_bytes();
    if i == l.len() - 1 {
        assert(spec_acks_bytes(l).subrange(4 * i, 4 * i + 4) =~= spec_u32_to_le_bytes(l.last()));
    } else {
        lemma_acks_bytes_index(l.drop_last(), i);
        assert(spec_acks_bytes(l).subrange(4 * i, 4 * i + 4) =~= spec_acks_bytes(
            l.drop_last(),
        ).subrange(4 * i, 4 * i + 4));
    }
}

/// Wire bytes of the optional acknowledgment block: a one-byte count and
/// the encoded ids.
pub open spec fn spec_ack_block_bytes(a: Option<Seq<u32>>) -> Seq<u8> {
    match a {
        None => Seq::empty(),
        Some(l) => seq![l.len() as u8] + spec_acks_bytes(l),
    }
}

/// Wire bytes of the frequency-dependent id field. A high-frequency id is
/// one byte; a medium-frequency id is one byte behind one `0xff` marker; a
/// low-frequency id is two little-endian bytes behind two `0xff` markers.
pub open spec fn spec_id_bytes(frequency: PacketFrequency, id: u16) -> Seq<u8> {
    match frequency {
        PacketFrequency::High => seq![id as u8],
        PacketFrequency::Medium => seq![255u8, id as u8],
        PacketFrequency::Low => seq![255u8, 255u8] + spec_u16_to_le_bytes(id),
    }
}

/// Wire bytes of a header.
pub open spec fn spec_header_bytes(h: HeaderV) -> Seq<u8> {
    seq![spec_flags_byte(h)] + spec_u32_to_le_bytes(h.sequence_number) + spec_ack_block_bytes(
        h.ack_list,
    ) + spec_id_bytes(h.frequency, h.id)
}

/// Builds the header a parse recovers from its pieces.
pub open spec fn spec_parsed_header(
    frequency: PacketFrequency,
    id: u16,
    flags: u8,
    sequence_number: u32,
    ack_list: Option<Seq<u32>>,
) -> HeaderV {
    HeaderV {
        id,
        frequency,
        reliable: flags & FLAG_RELIABLE != 0,
        resent: flags & FLAG_RESENT != 0,
        zerocoded: flags & FLAG_ZEROCODED != 0,
        appended_acks: ack_list is Some,
        sequence_number,
        ack_list,
    }
}

/// Parse of the id field at offset `p`, closing the parse of a header.
/// Returns the header and the offset where the body starts.
pub open spec fn spec_parse_id(
    b: Seq<u8>,
    p: int,
    flags: u8,
    sequence_number: u32,
    ack_list: Option<Seq<u32>>,
) -> Result<(HeaderV, int), DecodeError> {
    if p < b.len() && b[p] != 255 {
        Ok((spec_parsed_header(PacketFrequency::High, b[p] as u16, flags, sequence_number, ack_list), p + 1))
    } else if p + 1 < b.len() && b[p] == 255 && b[p + 1] != 255 {
        Ok(
            (
                spec_parsed_header(
                    PacketFrequency::Medium,
                    b[p + 1] as u16,
                    flags,
                    sequence_number,
                    ack_list,
                ),
                p + 2,
            ),
        )
    } else if p + 4 <= b.len() && b[p] == 255 && b[p + 1] == 255 {
        Ok(
            (
                spec_parsed_header(
                    PacketFrequency::Low,
                    spec_u16_from_le_bytes(b.subrange(p + 2, p + 4)),
                    flags,
                    sequence_number,
                    ack_list,
                ),
                p + 4,
            ),
        )
    } else {
        Err(DecodeError::Truncated)
    }
}

/// Parse of a datagram's header. Returns the header and the offset where
/// the body starts.
pub open spec fn spec_parse_header(b: Seq<u8>) -> Result<(HeaderV, int), DecodeError> {
    if b.len() < 5 {
        Err(DecodeError::Truncated)
    } else {
        let flags = b[0];
        let sequence_number = spec_u32_from_le_bytes(b.subrange(1, 5));
        if flags & FLAG_APPENDED_ACKS != 0 {
            if b.len() < 6 {
                Err(DecodeError::Truncated)
            } else {
                let count = b[5] as int;
                if b.len() < 6 + 4 * count {
                    Err(DecodeError::Truncated)
                } else {
                    let acks = Seq::new(
                        count as nat,
                        |i: int| spec_u32_from_le_bytes(b.subrange(6 + 4 * i, 10 + 4 * i)),
                    );
                    spec_parse_id(b, 6 + 4 * count, flags, sequence_number, Some(acks))
                }
            }
        } else {
            spec_parse_id(b, 5, flags, sequence_number, None)
        }
    }
}

/// Appends the wire bytes of `h` to `out`.
pub fn push_header_bytes(out: &mut Vec<u8>, h: &Header)
    requires
        h@.wf(),
    ensures
        final(out)@ == old(out)@ + spec_header_bytes(h@),
{
    push_header_bytes_with(out, h, h.resent);
    proof {
        assert(HeaderV { resent: h@.resent, ..h@ } == h@);
    }
}

/// Appends the wire bytes of `h` to `out`, with the `resent` flag
/// overridden: a retransmission reuses the packet unchanged but for this
/// flag.
pub fn push_header_bytes_with(out: &mut Vec<u8>, h: &Header, resent: bool)
    requires
        h@.wf(),
    ensures
        final(out)@ == old(out)@ + spec_header_bytes(HeaderV { resent, ..h@ }),
{
    let ghost hv = HeaderV { resent, ..h@ };
    let flags: u8 = (if h.zerocoded {
        FLAG_ZEROCODED
    } else {
        0u8
    }) | (if h.reliable {
        FLAG_RELIABLE
    } else {
        0u8
    }) | (if resent {
        FLAG_RESENT
    } else {
        0u8
    }) | (if h.appended_acks {
        FLAG_APPENDED_ACKS
    } else {
        0u8
    });
    out.push(flags);
    push_u32_le(out, h.sequence_number);
    match &h.ack_list {
        None => {},
        Some(l) => {
            let ghost base = out@;
            out.push(l.len() as u8);
            let mut i: usize = 0;
            while i < l.len()
                invariant
                    i <= l@.len() <= 255,
                    out@ == base + seq![l@.len() as u8] + spec_acks_bytes(l@.take(i as int)),
                decreases l.len() - i,
            {
                push_u32_le(out, l[i]);
                proof {
                    assert(l@.take(i + 1).drop_last() =~= l@.take(i as int));
                    assert(l@.take(i + 1).last() == l@[i as int]);
                }
                i = i + 1;
            }
            proof {
                assert(l@.take(l@.len() as int) =~= l@);
            }
        },
    }
    match h.frequency {
        PacketFrequency::High => {
            out.push(h.id as u8);
        },
        PacketFrequency::Medium => {
            out.push(255);
            out.push(h.id as u8);
        },
        PacketFrequency::Low => {
            out.push(255);
            out.push(255);
            push_u16_le(out, h.id);
        },
    }
    proof {
        assert(out@ =~= old(out)@ + spec_header_bytes(hv));
    }
}

/// Decodes a datagram's header. Returns the header and the offset where
/// the body starts.
pub fn decode_header(b: &[u8]) -> (r: Result<(Header, usize), DecodeError>)
    ensures
        match r {
            Ok(p) => {
                &&& spec_parse_header(b@) matches Ok(q) && q.0 == p.0@ && q.1 == p.1 as int
                &&& p.1 <= b@.len()
                &&& p.0@.wf()
            },
            Err(e) => spec_parse_header(b@) == Err::<(HeaderV, int), DecodeError>(e),
        },
{
    let n = b.len();
    if n < 5 {
        return Err(DecodeError::Truncated);
    }
    let flags = read_u8(b, 0);
    let sequence_number = read_u32_le(b, 1);
    let reliable = flags & FLAG_RELIABLE != 0;
    let resent = flags & FLAG_RESENT != 0;
    let zerocoded = flags & FLAG_ZEROCODED != 0;
    let appended_acks = flags & FLAG_APPENDED_ACKS != 0;
    let mut p: usize = 5;
    let ack_list: Option<Vec<u32>> = if appended_acks {
        if n < 6 {
            return Err(DecodeError::Truncated);
        }
        let count = read_u8(b, 5) as usize;
        if n < 6 + 4 * count {
            return Err(DecodeError::Truncated);
        }
        let mut acks: Vec<u32> = Vec::new();
        let mut i: usize = 0;
        while i < count
            invariant
                i <= count,
                count <= 255,
                6 + 4 * count <= n == b@.len(),
                acks@ =~= Seq::new(
                    i as nat,
                    |k: int| spec_u32_from_le_bytes(b@.subrange(6 + 4 * k, 10 + 4 * k)),
                ),
            decreases count - i,
        {
            let x = read_u32_le(b, 6 + 4 * i);
            acks.push(x);
            proof {
                assert(acks@ =~= Seq::new(
                    (i + 1) as nat,
                    |k: int| spec_u32_from_le_bytes(b@.subrange(6 + 4 * k, 10 + 4 * k)),
                ));
            }
            i = i + 1;
        }
        p = 6 + 4 * count;
        Some(acks)
    } else {
        None
    };
    if p < n {
        let c0 = read_u8(b, p);
        if c0 != 255 {
            let h = Header {
                id: c0 as u16,
                frequency: PacketFrequency::High,
                reliable,
                resent,
                zerocoded,
                appended_acks,
                sequence_number,
                ack_list,
            };
            return Ok((h, p + 1));
        }
        if p + 1 < n {
            let c1 = read_u8(b, p + 1);
            if c1 != 255 {
                let h = Header {
                    id: c1 as u16,
                    frequency: PacketFrequency::Medium,
                    reliable,
                    resent,
                    zerocoded,
                    appended_acks,
                    sequence_number,
                    ack_list,
                };
                return Ok((h, p + 2));
            }
        }
        if n - p >= 4 {
            let id = read_u16_le(b, p + 2);
            let h = Header {
                id,
                frequency: PacketFrequency::Low,
                reliable,
                resent,
                zerocoded,
                appended_acks,
                sequence_number,
                ack_list,
            };
            return Ok((h, p + 4));
        }
    }
    Err(DecodeError::Truncated)
}

/// Parsing the wire bytes of a valid header, whatever body bytes follow
/// them, recovers the header and consumes exactly its bytes.
pub proof fn lemma_header_round_trip(h: HeaderV, tail: Seq<u8>)
    requires
        h.wf(),
    ensures
        spec_parse_header(spec_header_bytes(h) + tail) matches Ok(q) && q.0 == h && q.1
            == spec_header_bytes(h).len() as int,
{
    let hb = spec_header_bytes(h);
    let b = hb + tail;
    let flags = spec_flags_byte(h);
    lemma_flags_byte(h);
    vstd::bytes::lemma_auto_spec_u32_to_from_le_bytes();
    vstd::bytes::lemma_auto_spec_u16_to_from_le_bytes();
    assert(b[0] == flags);
    assert(b.subrange(1, 5) =~= spec_u32_to_le_bytes(h.sequence_number));
    let ackb = spec_ack_block_bytes(h.ack_list);
    let idb = spec_id_bytes(h.frequency, h.id);
    let p = 5 + ackb.len() as int;
    match h.ack_list {
        None => {
            assert(p == 5);
        },
        Some(l) => {
            lemma_acks_bytes_len(l);
            assert(b[5] == l.len() as u8);
            assert(b.len() >= 6 + 4 * l.len());
            let acks = Seq::new(
                l.len(),
                |i: int| spec_u32_from_le_bytes(b.subrange(6 + 4 * i, 10 + 4 * i)),
            );
            assert forall|i: int| 0 <= i < l.len() implies acks[i] == l[i] by {
                lemma_acks_bytes_index(l, i);
                assert(b.subrange(6 + 4 * i, 10 + 4 * i) =~= spec_acks_bytes(l).subrange(
                    4 * i,
                    4 * i + 4,
                ));
                assert(acks[i] == spec_u32_from_le_bytes(spec_u32_to_le_bytes(l[i])));
            }
            assert(acks =~= l);
        },
    }
    match h.frequency {
        PacketFrequency::High => {
            assert(b[p] == h.id as u8);
            assert(h.id < 255);
            assert(b[p] != 255 && b[p] as u16 == h.id);
        },
        PacketFrequency::Medium => {
            assert(b[p] == 255);
            assert(b[p + 1] == h.id as u8);
            assert(b[p + 1] != 255 && b[p + 1] as u16 == h.id);
        },
        PacketFrequency::Low => {
            assert(b[p] == 255 && b[p + 1] == 255);
            assert(b.subrange(p + 2, p + 4) =~= spec_u16_to_le_bytes(h.id));
        },
    }
}

} // verus!
