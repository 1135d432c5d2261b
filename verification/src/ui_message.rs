//! Envelopes relayed to the companion UI process over the local datagram
//! channel, and the splitter that fits an oversized event into a sequence
//! of bounded frames.

use vstd::prelude::*;

verus! {

use vstd::bytes::{spec_u16_from_le_bytes, spec_u16_to_le_bytes};
use crate::wire::{copy_range, push_range, push_u16_le, read_u16_le, read_u8};

/// Largest frame the local relay channel carries.
pub const MAX_UI_FRAME_SIZE: usize = 1024;

/// Fixed bytes of every envelope: the event tag and three two-byte
/// counters.
pub const UI_ENVELOPE_OVERHEAD: usize = 7;

/// Payload bytes available in one envelope.
pub const UI_AVAILABLE_SIZE: usize = MAX_UI_FRAME_SIZE - UI_ENVELOPE_OVERHEAD;

/// Which decoded event an envelope carries, so the UI process can pick
/// the decoder for the payload.
#[derive(Clone, Copy, Debug, PartialEq, Eq, Structural)]
pub enum UiEventType {
    ChatFromSimulator,
    LayerData,
}

/// Wire tag of an event type.
pub open spec fn spec_ui_event_type_byte(t: UiEventType) -> u8 {
    match t {
        UiEventType::ChatFromSimulator => 1,
        UiEventType::LayerData => 2,
    }
}

/// Event type decoded from a wire tag; tags outside the table make the
/// frame invalid.
pub open spec fn spec_ui_event_type_from_byte(b: u8) -> Option<UiEventType> {
    match b {
        1u8 => Some(UiEventType::ChatFromSimulator),
        2u8 => Some(UiEventType::LayerData),
        _ => None,
    }
}

impl UiEventType {
    /// Encodes the event type as its wire tag.
    pub fn to_byte(&self) -> (r: u8)
        ensures
            r == spec_ui_event_type_byte(*self),
    {
        match self {
            UiEventType::ChatFromSimulator => 1,
            UiEventType::LayerData => 2,
        }
    }

    /// Decodes a wire tag into an event type.
    pub fn from_byte(b: u8) -> (r: Option<UiEventType>)
        ensures
            r == spec_ui_event_type_from_byte(b),
    {
        match b {
            1 => Some(UiEventType::ChatFromSimulator),
            2 => Some(UiEventType::LayerData),
            _ => None,
        }
    }
}

/// One relay unit bound for the UI process. A logical message longer than
/// `UI_AVAILABLE_SIZE` is split into several envelopes that share
/// `total_packet_number` and carry ascending `sequence_number`s.
#[derive(Clone, Debug, PartialEq, Eq)]
pub struct UiMessage {
    /// Which decoder the UI process applies to the payload.
    pub message_type: UiEventType,
    /// Position of this envelope within its logical message.
    pub sequence_number: u16,
    /// How many envelopes the logical message was split into.
    pub total_packet_number: u16,
    /// Count of logical relay calls made before this one in the session.
    pub packet_number: u16,
    /// The payload chunk.
    pub message: Vec<u8>,
}

/// Mathematical model of an envelope.
#[verifier::ext_equal]
pub ghost struct UiMessageV {
    pub message_type: UiEventType,
    pub sequence_number: u16,
    pub total_packet_number: u16,
    pub packet_number: u16,
    pub message: Seq<u8>,
}

impl View for UiMessage {
    type V = UiMessageV;

    open spec fn view(&self) -> UiMessageV {
        UiMessageV {
            message_type: self.message_type,
            sequence_number: self.sequence_number,
            total_packet_number: self.total_packet_number,
            packet_number: self.packet_number,
            message: self.message@,
        }
    }
}

/// Wire bytes of an envelope: the event tag, the three little-endian
/// counters, then the payload chunk.
pub open spec fn spec_ui_message_bytes(m: UiMessageV) -> Seq<u8> {
    seq![spec_ui_event_type_byte(m.message_type)] + spec_u16_to_le_bytes(m.sequence_number)
        + spec_u16_to_le_bytes(m.total_packet_number) + spec_u16_to_le_bytes(m.packet_number)
        + m.message
}

/// Parse of a relay frame as an envelope. A frame shorter than its fixed
/// fields, or with an unregistered tag, is invalid.
pub open spec fn spec_parse_ui_message(b: Seq<u8>) -> Option<UiMessageV> {
    if b.len() < 7 {
        None
    } else {
        match spec_ui_event_type_from_byte(b[0]) {
            None => None,
            Some(t) => Some(
                UiMessageV {
                    message_type: t,
                    sequence_number: spec_u16_from_le_bytes(b.subrange(1, 3)),
                    total_packet_number: spec_u16_from_le_bytes(b.subrange(3, 5)),
                    packet_number: spec_u16_from_le_bytes(b.subrange(5, 7)),
                    message: b.skip(7),
                },
            ),
        }
    }
}

impl UiMessage {
    /// Creates an envelope around a decoded event; the counters are
    /// assigned later, by the splitter.
    pub fn new(message_type: UiEventType, message: Vec<u8>) -> (r: UiMessage)
        ensures
            r@ == (UiMessageV {
                message_type,
                sequence_number: 0,
                total_packet_number: 0,
                packet_number: 0,
                message: message@,
            }),
    {
        UiMessage { message_type, sequence_number: 0, total_packet_number: 0, packet_number: 0, message }
    }

    /// Encodes the envelope into one relay frame. A chunked payload keeps
    /// the frame within `MAX_UI_FRAME_SIZE`.
    pub fn as_bytes(&self) -> (r: Vec<u8>)
        ensures
            r@ == spec_ui_message_bytes(self@),
            r@.len() == 7 + self@.message.len(),
    {
        let mut out: Vec<u8> = Vec::new();
        out.push(self.message_type.to_byte());
        push_u16_le(&mut out, self.sequence_number);
        push_u16_le(&mut out, self.total_packet_number);
        push_u16_le(&mut out, self.packet_number);
        push_range(&mut out, self.message.as_slice(), 0, self.message.len());
        proof {
            vstd::bytes::lemma_auto_spec_u16_to_from_le_bytes();
            assert(out@ =~= spec_ui_message_bytes(self@));
        }
        out
    }

    /// Decodes one relay frame back into an envelope.
    pub fn from_bytes(bytes: &[u8]) -> (r: Option<UiMessage>)
        ensures
            match r {
                Some(m) => spec_parse_ui_message(bytes@) == Some(m@),
                None => spec_parse_ui_message(bytes@) is None,
            },
    {
        let n = bytes.len();
        if n < 7 {
            return None;
        }
        let message_type = match UiEventType::from_byte(read_u8(bytes, 0)) {
            Some(t) => t,
            None => {
                return None;
            },
        };
        let sequence_number = read_u16_le(bytes, 1);
        let total_packet_number = read_u16_le(bytes, 3);
        let packet_number = read_u16_le(bytes, 5);
        let message = copy_range(bytes, 7, n);
        proof {
            assert(message@ =~= bytes@.skip(7));
        }
        Some(UiMessage { message_type, sequence_number, total_packet_number, packet_number, message })
    }
}

/// Decoding the encoding of an envelope gives the envelope back.
pub proof fn lemma_ui_message_round_trip(m: UiMessageV)
    ensures
        spec_parse_ui_message(spec_ui_message_bytes(m)) == Some(m),
{
    let b = spec_ui_message_bytes(m);
    vstd::bytes::lemma_auto_spec_u16_to_from_le_bytes();
    assert(b.subrange(1, 3) =~= spec_u16_to_le_bytes(m.sequence_number));
    assert(b.subrange(3, 5) =~= spec_u16_to_le_bytes(m.total_packet_number));
    assert(b.subrange(5, 7) =~= spec_u16_to_le_bytes(m.packet_number));
    assert(b.skip(7) =~= m.message);
}

/// How many envelopes a payload of `len` bytes needs: the least count
/// whose chunks of `UI_AVAILABLE_SIZE` bytes cover it.
pub open spec fn spec_chunk_count(len: int) -> int {
    (len + 1016) / 1017
}

/// Payload slice of the chunk at `i`: a full window of
/// `UI_AVAILABLE_SIZE` bytes, or what remains for the last chunk.
pub open spec fn spec_chunk_payload(payload: Seq<u8>, i: int) -> Seq<u8> {
    payload.subrange(
        1017 * i,
        if 1017 * (i + 1) <= payload.len() {
            1017 * (i + 1)
        } else {
            payload.len() as int
        },
    )
}

/// The chunk count covers the payload: chunk starts stay inside it and
/// the last chunk ends at its end.
pub proof fn lemma_chunk_count_bounds(len: int)
    requires
        len >= 0,
    ensures
        spec_chunk_count(len) >= 0,
        len > 0 ==> 1017 * (spec_chunk_count(len) - 1) < len,
        1017 * spec_chunk_count(len) >= len,
{
    let n = spec_chunk_count(len);
    assert(n == (len + 1016) / 1017);
    assert(1017 * n >= len && (len > 0 ==> 1017 * (n - 1) < len) && n >= 0) by (nonlinear_arith)
        requires
            n == (len + 1016) / 1017 && len >= 0,
    ;
}

/// Joined payloads of a sequence of chunks, in index order.
pub open spec fn spec_chunks_join(chunks: Seq<Seq<u8>>) -> Seq<u8>
    decreases chunks.len(),
{
    if chunks.len() == 0 {
        Seq::empty()
    } else {
        spec_chunks_join(chunks.drop_last()) + chunks.last()
    }
}

/// Splitting law: joining the chunk payloads of a payload, in index
/// order, reconstructs the payload exactly, with no byte lost or added.
pub proof fn lemma_chunks_reassemble(payload: Seq<u8>)
    ensures
        spec_chunks_join(
            Seq::new(
                spec_chunk_count(payload.len() as int) as nat,
                |i: int| spec_chunk_payload(payload, i),
            ),
        ) == payload,
    decreases payload.len(),
{
    let len = payload.len() as int;
    let n = spec_chunk_count(len);
    lemma_chunk_count_bounds(len);
    let chunks = Seq::new(n as nat, |i: int| spec_chunk_payload(payload, i));
    if len == 0 {
        assert(n == 0);
        assert(spec_chunks_join(chunks) =~= payload);
    } else {
        let m = 1017 * (n - 1);
        let prefix = payload.take(m);
        assert(spec_chunk_count(m) == n - 1) by (nonlinear_arith)
            requires
                n == (len + 1016) / 1017 && len > 0 && m == 1017 * (n - 1) && 0 <= m < len,
        ;
        lemma_chunks_reassemble(prefix);
        let prefix_chunks = Seq::new((n - 1) as nat, |i: int| spec_chunk_payload(prefix, i));
        assert forall|i: int| 0 <= i < n - 1 implies chunks[i] == prefix_chunks[i] by {
            assert(1017 * (i + 1) <= m) by (nonlinear_arith)
                requires
                    0 <= i < n - 1 && m == 1017 * (n - 1),
            ;
            assert(spec_chunk_payload(prefix, i) =~= spec_chunk_payload(payload, i));
        }
        assert(chunks.drop_last() =~= prefix_chunks);
        assert(chunks.last() == spec_chunk_payload(payload, n - 1));
        assert(chunks.last() =~= payload.subrange(m, len));
        assert(spec_chunks_join(chunks) =~= payload);
    }
}

/// Splits one logical relay message into its envelopes.
///
/// Every envelope shares the message's event type, the given
/// `packet_number` and the common chunk total; `sequence_number` ascends
/// from the message's own by one per chunk; chunk `i` carries the `i`-th
/// window of the payload. An empty payload yields no envelopes.
pub fn chunk_ui_message(msg: &UiMessage, packet_number: u16) -> (r: Vec<UiMessage>)
    requires
        spec_chunk_count(msg@.message.len() as int) <= u16::MAX,
        msg@.sequence_number + spec_chunk_count(msg@.message.len() as int) <= u16::MAX + 1,
    ensures
        r@.len() == spec_chunk_count(msg@.message.len() as int),
        forall|i: int|
            0 <= i < r@.len() ==> {
                &&& (#[trigger] r@[i])@.message_type == msg@.message_type
                &&& r@[i]@.sequence_number == msg@.sequence_number + i
                &&& r@[i]@.total_packet_number == r@.len()
                &&& r@[i]@.packet_number == packet_number
                &&& r@[i]@.message == spec_chunk_payload(msg@.message, i)
                &&& r@[i]@.message.len() <= UI_AVAILABLE_SIZE
            },
{
    let len = msg.message.len();
    let total = len / 1017 + (if len % 1017 != 0 {
        1
    } else {
        0
    });
    proof {
        assert(total == spec_chunk_count(len as int)) by (nonlinear_arith)
            requires
                total == len / 1017 + (if len % 1017 != 0 {
                    1int
                } else {
                    0int
                }),
        ;
        lemma_chunk_count_bounds(len as int);
    }
    let total_u16 = total as u16;
    let mut out: Vec<UiMessage> = Vec::new();
    let mut i: usize = 0;
    while i < total
        invariant
            i <= total,
            total == spec_chunk_count(len as int),
            total <= u16::MAX,
            total_u16 == total,
            len == msg@.message.len(),
            msg@.sequence_number + total <= u16::MAX + 1,
            1017 * total >= len,
            len > 0 ==> 1017 * (total - 1) < len,
            out@.len() == i,
            forall|j: int|
                0 <= j < i ==> {
                    &&& (#[trigger] out@[j])@.message_type == msg@.message_type
                    &&& out@[j]@.sequence_number == msg@.sequence_number + j
                    &&& out@[j]@.total_packet_number == total
                    &&& out@[j]@.packet_number == packet_number
                    &&& out@[j]@.message == spec_chunk_payload(msg@.message, j)
                    &&& out@[j]@.message.len() <= 1017
                },
        decreases total - i,
    {
        proof {
            if len == 0 {
                assert(total == 0);
            }
            assert(1017 * (i as int) < len) by (nonlinear_arith)
                requires
                    0 <= i <= total - 1 && 1017 * (total - 1) < (len as int),
            ;
        }
        let start = 1017 * i;
        let end = if len - start > 1017 {
            start + 1017
        } else {
            len
        };
        let chunk = copy_range(msg.message.as_slice(), start, end);
        let envelope = UiMessage {
            message_type: msg.message_type,
            sequence_number: msg.sequence_number + (i as u16),
            total_packet_number: total_u16,
            packet_number,
            message: chunk,
        };
        out.push(envelope);
        proof {
            assert(chunk@ =~= spec_chunk_payload(msg@.message, i as int));
        }
        i = i + 1;
    }
    out
}

} // verus!
