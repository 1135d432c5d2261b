//! The packet type: a fixed header joined with one of the registered message
//! bodies, and the codec that turns packets into datagram bytes and back.

use vstd::prelude::*;

verus! {

use vstd::bytes::{spec_u32_from_le_bytes, spec_u32_to_le_bytes};
use crate::chat_from_simulator::{spec_chat_bytes, spec_parse_chat, ChatFromSimulator, ChatFromSimulatorV, lemma_chat_round_trip};
use crate::header::{
    lemma_acks_bytes_index, lemma_acks_bytes_len, lemma_header_round_trip, decode_header,
    push_header_bytes, spec_acks_bytes, spec_header_bytes, spec_parse_header, Header, HeaderV,
    PacketFrequency,
};
use crate::layer_data::{spec_layer_data_bytes, spec_parse_layer_data, LayerData, LayerDataV, lemma_layer_data_round_trip};
use crate::uuid_bytes::UuidBytes;
use crate::wire::{copy_range, push_range, push_u32_le, read_u32_le, read_u8};

/// Why a datagram failed to decode. A malformed datagram is dropped by the
/// receive loop; it is never fatal to the connection.
#[derive(Clone, Copy, Debug, PartialEq, Eq, Structural)]
pub enum DecodeError {
    /// The buffer ended before a complete header or body was read.
    Truncated,
    /// The header's message id is not one this engine registers.
    UnknownType,
}

/// Message id of the keepalive probe.
pub const ID_START_PING_CHECK: u16 = 1;

/// Message id of the keepalive reply.
pub const ID_COMPLETE_PING_CHECK: u16 = 2;

/// Message id of the circuit-code handshake.
pub const ID_USE_CIRCUIT_CODE: u16 = 3;

/// Message id of a terrain-layer payload.
pub const ID_LAYER_DATA: u16 = 11;

/// Message id of a chat event from the simulator.
pub const ID_CHAT_FROM_SIMULATOR: u16 = 139;

/// Message id of a standalone acknowledgment list.
pub const ID_PACKET_ACK: u16 = 65531;

/// Body acknowledging a list of received reliable packets by their
/// sequence numbers.
#[derive(Clone, Debug, PartialEq, Eq)]
pub struct PacketAck {
    pub packet_ids: Vec<u32>,
}

/// Mathematical model of an acknowledgment body.
#[verifier::ext_equal]
pub ghost struct PacketAckV {
    pub packet_ids: Seq<u32>,
}

impl View for PacketAck {
    type V = PacketAckV;

    open spec fn view(&self) -> PacketAckV {
        PacketAckV { packet_ids: self.packet_ids@ }
    }
}

/// Body of a keepalive probe: a ping counter and the oldest sequence
/// number not yet acknowledged by the peer.
#[derive(Clone, Copy, Debug, PartialEq, Eq, Structural)]
pub struct StartPingCheck {
    pub ping_id: u8,
    pub oldest_unacked: u32,
}

/// Body of a keepalive reply, echoing the probe's ping counter.
#[derive(Clone, Copy, Debug, PartialEq, Eq, Structural)]
pub struct CompletePingCheck {
    pub ping_id: u8,
}

/// Body of the initial handshake announcing the agent and session identity
/// to the simulator.
#[derive(Clone, Debug, PartialEq, Eq)]
pub struct UseCircuitCode {
    pub code: u32,
    pub session_id: UuidBytes,
    pub agent_id: UuidBytes,
}

/// Mathematical model of a circuit-code body.
#[verifier::ext_equal]
pub ghost struct UseCircuitCodeV {
    pub code: u32,
    pub session_id: Seq<u8>,
    pub agent_id: Seq<u8>,
}

impl View for UseCircuitCode {
    type V = UseCircuitCodeV;

    open spec fn view(&self) -> UseCircuitCodeV {
        UseCircuitCodeV {
            code: self.code,
            session_id: self.session_id@,
            agent_id: self.agent_id@,
        }
    }
}

/// The closed set of message bodies this engine registers. An id outside
/// this set decodes to `DecodeError::UnknownType`.
#[derive(Clone, Debug, PartialEq, Eq)]
pub enum PacketType {
    PacketAck(PacketAck),
    StartPingCheck(StartPingCheck),
    CompletePingCheck(CompletePingCheck),
    UseCircuitCode(UseCircuitCode),
    ChatFromSimulator(ChatFromSimulator),
    LayerData(LayerData),
}

/// Mathematical model of a message body.
#[verifier::ext_equal]
pub ghost enum PacketTypeV {
    PacketAck(PacketAckV),
    StartPingCheck(StartPingCheck),
    CompletePingCheck(CompletePingCheck),
    UseCircuitCode(UseCircuitCodeV),
    ChatFromSimulator(ChatFromSimulatorV),
    LayerData(LayerDataV),
}

impl View for PacketType {
    type V = PacketTypeV;

    open spec fn view(&self) -> PacketTypeV {
        match self {
            PacketType::PacketAck(a) => PacketTypeV::PacketAck(a@),
            PacketType::StartPingCheck(s) => PacketTypeV::StartPingCheck(*s),
            PacketType::CompletePingCheck(c) => PacketTypeV::CompletePingCheck(*c),
            PacketType::UseCircuitCode(u) => PacketTypeV::UseCircuitCode(u@),
            PacketType::ChatFromSimulator(c) => PacketTypeV::ChatFromSimulator(c@),
            PacketType::LayerData(l) => PacketTypeV::LayerData(l@),
        }
    }
}

/// Message id a body is carried under.
pub open spec fn spec_body_id(b: PacketTypeV) -> u16 {
    match b {
        PacketTypeV::PacketAck(_) => ID_PACKET_ACK,
        PacketTypeV::StartPingCheck(_) => ID_START_PING_CHECK,
        PacketTypeV::CompletePingCheck(_) => ID_COMPLETE_PING_CHECK,
        PacketTypeV::UseCircuitCode(_) => ID_USE_CIRCUIT_CODE,
        PacketTypeV::ChatFromSimulator(_) => ID_CHAT_FROM_SIMULATOR,
        PacketTypeV::LayerData(_) => ID_LAYER_DATA,
    }
}

/// Frequency class a body is carried under.
pub open spec fn spec_body_frequency(b: PacketTypeV) -> PacketFrequency {
    match b {
        PacketTypeV::StartPingCheck(_) => PacketFrequency::High,
        PacketTypeV::CompletePingCheck(_) => PacketFrequency::High,
        _ => PacketFrequency::Low,
    }
}

impl PacketTypeV {
    /// Validity of a body: counted lists fit their count byte and the ids
    /// hold sixteen bytes.
    pub open spec fn wf(&self) -> bool {
        match self {
            PacketTypeV::PacketAck(a) => a.packet_ids.len() <= 255,
            PacketTypeV::StartPingCheck(_) => true,
            PacketTypeV::CompletePingCheck(_) => true,
            PacketTypeV::UseCircuitCode(u) => u.session_id.len() == 16 && u.agent_id.len() == 16,
            PacketTypeV::ChatFromSimulator(c) => c.wf(),
            PacketTypeV::LayerData(_) => true,
        }
    }
}

/// Wire bytes of a message body.
pub open spec fn spec_body_bytes(b: PacketTypeV) -> Seq<u8> {
    match b {
        PacketTypeV::PacketAck(a) => seq![a.packet_ids.len() as u8] + spec_acks_bytes(
            a.packet_ids,
        ),
        PacketTypeV::StartPingCheck(s) => seq![s.ping_id] + spec_u32_to_le_bytes(s.oldest_unacked),
        PacketTypeV::CompletePingCheck(c) => seq![c.ping_id],
        PacketTypeV::UseCircuitCode(u) => spec_u32_to_le_bytes(u.code) + u.session_id + u.agent_id,
        PacketTypeV::ChatFromSimulator(c) => spec_chat_bytes(c),
        PacketTypeV::LayerData(l) => spec_layer_data_bytes(l),
    }
}

/// Parse of body bytes under a message id and frequency class.
pub open spec fn spec_parse_body(id: u16, frequency: PacketFrequency, b: Seq<u8>) -> Result<
    PacketTypeV,
    DecodeError,
> {
    if id == ID_START_PING_CHECK && frequency == PacketFrequency::High {
        if b.len() < 5 {
            Err(DecodeError::Truncated)
        } else {
            Ok(
                PacketTypeV::StartPingCheck(
                    StartPingCheck {
                        ping_id: b[0],
                        oldest_unacked: spec_u32_from_le_bytes(b.subrange(1, 5)),
                    },
                ),
            )
        }
    } else if id == ID_COMPLETE_PING_CHECK && frequency == PacketFrequency::High {
        if b.len() < 1 {
            Err(DecodeError::Truncated)
        } else {
            Ok(PacketTypeV::CompletePingCheck(CompletePingCheck { ping_id: b[0] }))
        }
    } else if id == ID_USE_CIRCUIT_CODE && frequency == PacketFrequency::Low {
        if b.len() < 36 {
            Err(DecodeError::Truncated)
        } else {
            Ok(
                PacketTypeV::UseCircuitCode(
                    UseCircuitCodeV {
                        code: spec_u32_from_le_bytes(b.subrange(0, 4)),
                        session_id: b.subrange(4, 20),
                        agent_id: b.subrange(20, 36),
                    },
                ),
            )
        }
    } else if id == ID_LAYER_DATA && frequency == PacketFrequency::Low {
        match spec_parse_layer_data(b) {
            Ok(l) => Ok(PacketTypeV::LayerData(l)),
            Err(e) => Err(e),
        }
    } else if id == ID_CHAT_FROM_SIMULATOR && frequency == PacketFrequency::Low {
        match spec_parse_chat(b) {
            Ok(c) => Ok(PacketTypeV::ChatFromSimulator(c)),
            Err(e) => Err(e),
        }
    } else if id == ID_PACKET_ACK && frequency == PacketFrequency::Low {
        if b.len() < 1 {
            Err(DecodeError::Truncated)
        } else {
            let count = b[0] as int;
            if b.len() < 1 + 4 * count {
                Err(DecodeError::Truncated)
            } else {
                Ok(
                    PacketTypeV::PacketAck(
                        PacketAckV {
                            packet_ids: Seq::new(
                                count as nat,
                                |i: int| spec_u32_from_le_bytes(b.subrange(1 + 4 * i, 5 + 4 * i)),
                            ),
                        },
                    ),
                )
            }
        }
    } else {
        Err(DecodeError::UnknownType)
    }
}

impl PacketType {
    /// Whether this body is relayed to the UI process as a decoded event.
    pub fn is_ui_event(&self) -> (r: bool)
        ensures
            r == (self@ is ChatFromSimulator || self@ is LayerData),
    {
        match self {
            PacketType::ChatFromSimulator(_) => true,
            PacketType::LayerData(_) => true,
            _ => false,
        }
    }

    /// Encodes the body into its wire bytes.
    pub fn to_bytes(&self) -> (r: Vec<u8>)
        requires
            self@.wf(),
        ensures
            r@ == spec_body_bytes(self@),
    {
        match self {
            PacketType::PacketAck(a) => {
                let mut out: Vec<u8> = Vec::new();
                let l = &a.packet_ids;
                out.push(l.len() as u8);
                let mut i: usize = 0;
                while i < l.len()
                    invariant
                        i <= l@.len() <= 255,
                        out@ == seq![l@.len() as u8] + spec_acks_bytes(l@.take(i as int)),
                    decreases l.len() - i,
                {
                    push_u32_le(&mut out, l[i]);
                    proof {
                        assert(l@.take(i + 1).drop_last() =~= l@.take(i as int));
                    }
                    i = i + 1;
                }
                proof {
                    assert(l@.take(l@.len() as int) =~= l@);
                }
                out
            },
            PacketType::StartPingCheck(s) => {
                let mut out: Vec<u8> = Vec::new();
                out.push(s.ping_id);
                push_u32_le(&mut out, s.oldest_unacked);
                proof {
                    assert(out@ =~= spec_body_bytes(self@));
                }
                out
            },
            PacketType::CompletePingCheck(c) => {
                let mut out: Vec<u8> = Vec::new();
                out.push(c.ping_id);
                proof {
                    assert(out@ =~= spec_body_bytes(self@));
                }
                out
            },
            PacketType::UseCircuitCode(u) => {
                let mut out: Vec<u8> = Vec::new();
                push_u32_le(&mut out, u.code);
                let sid = u.session_id.as_bytes();
                push_range(&mut out, sid.as_slice(), 0, sid.len());
                let aid = u.agent_id.as_bytes();
                push_range(&mut out, aid.as_slice(), 0, aid.len());
                proof {
                    assert(out@ =~= spec_body_bytes(self@));
                }
                out
            },
            PacketType::ChatFromSimulator(c) => c.to_bytes(),
            PacketType::LayerData(l) => l.to_bytes(),
        }
    }
}

/// Decodes body bytes under a message id and frequency class.
fn decode_body(id: u16, frequency: PacketFrequency, b: &[u8]) -> (r: Result<
    PacketType,
    DecodeError,
>)
    ensures
        match r {
            Ok(t) => spec_parse_body(id, frequency, b@) == Ok::<PacketTypeV, DecodeError>(t@)
                && t@.wf(),
            Err(e) => spec_parse_body(id, frequency, b@) == Err::<PacketTypeV, DecodeError>(e),
        },
{
    let n = b.len();
    if id == ID_START_PING_CHECK && frequency == PacketFrequency::High {
        if n < 5 {
            return Err(DecodeError::Truncated);
        }
        let ping_id = read_u8(b, 0);
        let oldest_unacked = read_u32_le(b, 1);
        Ok(PacketType::StartPingCheck(StartPingCheck { ping_id, oldest_unacked }))
    } else if id == ID_COMPLETE_PING_CHECK && frequency == PacketFrequency::High {
        if n < 1 {
            return Err(DecodeError::Truncated);
        }
        Ok(PacketType::CompletePingCheck(CompletePingCheck { ping_id: read_u8(b, 0) }))
    } else if id == ID_USE_CIRCUIT_CODE && frequency == PacketFrequency::Low {
        if n < 36 {
            return Err(DecodeError::Truncated);
        }
        let code = read_u32_le(b, 0);
        let session_id = UuidBytes::new(copy_range(b, 4, 20));
        let agent_id = UuidBytes::new(copy_range(b, 20, 36));
        Ok(PacketType::UseCircuitCode(UseCircuitCode { code, session_id, agent_id }))
    } else if id == ID_LAYER_DATA && frequency == PacketFrequency::Low {
        match LayerData::from_bytes(b) {
            Ok(l) => Ok(PacketType::LayerData(l)),
            Err(e) => Err(e),
        }
    } else if id == ID_CHAT_FROM_SIMULATOR && frequency == PacketFrequency::Low {
        match ChatFromSimulator::from_bytes(b) {
            Ok(c) => Ok(PacketType::ChatFromSimulator(c)),
            Err(e) => Err(e),
        }
    } else if id == ID_PACKET_ACK && frequency == PacketFrequency::Low {
        if n < 1 {
            return Err(DecodeError::Truncated);
        }
        let count = read_u8(b, 0) as usize;
        if n < 1 + 4 * count {
            return Err(DecodeError::Truncated);
        }
        let mut ids: Vec<u32> = Vec::new();
        let mut i: usize = 0;
        while i < count
            invariant
                i <= count,
                count <= 255,
                1 + 4 * count <= n == b@.len(),
                ids@ =~= Seq::new(
                    i as nat,
                    |k: int| spec_u32_from_le_bytes(b@.subrange(1 + 4 * k, 5 + 4 * k)),
                ),
            decreases count - i,
        {
            let x = read_u32_le(b, 1 + 4 * i);
            ids.push(x);
            proof {
                assert(ids@ =~= Seq::new(
                    (i + 1) as nat,
                    |k: int| spec_u32_from_le_bytes(b@.subrange(1 + 4 * k, 5 + 4 * k)),
                ));
            }
            i = i + 1;
        }
        Ok(PacketType::PacketAck(PacketAck { packet_ids: ids }))
    } else {
        Err(DecodeError::UnknownType)
    }
}

/// One discrete wire message: a fixed header and a typed body.
#[derive(Clone, Debug, PartialEq, Eq)]
pub struct Packet {
    pub header: Header,
    pub body: PacketType,
}

/// Mathematical model of a packet.
#[verifier::ext_equal]
pub ghost struct PacketV {
    pub header: HeaderV,
    pub body: PacketTypeV,
}

impl View for Packet {
    type V = PacketV;

    open spec fn view(&self) -> PacketV {
        PacketV { header: self.header@, body: self.body@ }
    }
}

impl PacketV {
    /// Validity of a packet: header and body are valid and the header
    /// carries the body's registered id and frequency class.
    pub open spec fn wf(&self) -> bool {
        &&& self.header.wf()
        &&& self.body.wf()
        &&& self.header.id == spec_body_id(self.body)
        &&& self.header.frequency == spec_body_frequency(self.body)
    }
}

/// Wire bytes of a packet: the header bytes followed by the body bytes.
pub open spec fn spec_packet_bytes(p: PacketV) -> Seq<u8> {
    spec_header_bytes(p.header) + spec_body_bytes(p.body)
}

/// Parse of a datagram as a packet: the header parse decides where the
/// body starts and which decoder reads it.
pub open spec fn spec_parse_packet(b: Seq<u8>) -> Result<PacketV, DecodeError> {
    match spec_parse_header(b) {
        Err(e) => Err(e),
        Ok((h, n)) => match spec_parse_body(h.id, h.frequency, b.skip(n)) {
            Err(e) => Err(e),
            Ok(body) => Ok(PacketV { header: h, body }),
        },
    }
}

impl Packet {
    /// Encodes the packet into datagram bytes. The header's
    /// `sequence_number` must already hold the value assigned at send
    /// time; encoding writes it as it stands.
    pub fn to_bytes(&self) -> (r: Vec<u8>)
        requires
            self@.wf(),
        ensures
            r@ == spec_packet_bytes(self@),
    {
        let mut out: Vec<u8> = Vec::new();
        push_header_bytes(&mut out, &self.header);
        let mut body = self.body.to_bytes();
        out.append(&mut body);
        out
    }

    /// Encodes the packet for a retransmission: the same datagram bytes,
    /// with the header's `resent` flag set.
    pub fn to_bytes_resent(&self) -> (r: Vec<u8>)
        requires
            self@.wf(),
        ensures
            r@ == spec_packet_bytes(
                PacketV { header: HeaderV { resent: true, ..self@.header }, body: self@.body },
            ),
    {
        let mut out: Vec<u8> = Vec::new();
        crate::header::push_header_bytes_with(&mut out, &self.header, true);
        let mut body = self.body.to_bytes();
        out.append(&mut body);
        out
    }

    /// Decodes one datagram. Returns the packet exactly when the bytes
    /// parse as a registered message; a malformed or unknown datagram
    /// yields the matching error and is dropped by the caller.
    pub fn from_bytes(bytes: &[u8]) -> (r: Result<Packet, DecodeError>)
        ensures
            match r {
                Ok(p) => spec_parse_packet(bytes@) == Ok::<PacketV, DecodeError>(p@) && p@.wf(),
                Err(e) => spec_parse_packet(bytes@) == Err::<PacketV, DecodeError>(e),
            },
    {
        let (header, consumed) = match decode_header(bytes) {
            Ok(p) => p,
            Err(e) => {
                return Err(e);
            },
        };
        let n = bytes.len();
        let body_bytes = copy_range(bytes, consumed, n);
        proof {
            assert(body_bytes@ =~= bytes@.skip(
                spec_parse_header(bytes@)->Ok_0.1,
            ));
        }
        let body = match decode_body(header.id, header.frequency, body_bytes.as_slice()) {
            Ok(t) => t,
            Err(e) => {
                return Err(e);
            },
        };
        Ok(Packet { header, body })
    }

    /// Builds a `PacketAck` packet carrying the given acknowledgment list.
    pub fn new_packet_ack(packet_ack: PacketAck) -> (r: Packet)
        requires
            packet_ack.packet_ids@.len() <= 255,
        ensures
            r@.body == PacketTypeV::PacketAck(packet_ack@),
            r@.header == spec_default_header(ID_PACKET_ACK, PacketFrequency::Low, false),
            r@.wf(),
    {
        Packet {
            header: default_header(ID_PACKET_ACK, PacketFrequency::Low, false),
            body: PacketType::PacketAck(packet_ack),
        }
    }

    /// Builds a `StartPingCheck` packet.
    pub fn new_start_ping_check(start_ping_check: StartPingCheck) -> (r: Packet)
        ensures
            r@.body == PacketTypeV::StartPingCheck(start_ping_check),
            r@.header == spec_default_header(ID_START_PING_CHECK, PacketFrequency::High, false),
            r@.wf(),
    {
        Packet {
            header: default_header(ID_START_PING_CHECK, PacketFrequency::High, false),
            body: PacketType::StartPingCheck(start_ping_check),
        }
    }

    /// Builds a `CompletePingCheck` packet.
    pub fn new_complete_ping_check(complete_ping_check: CompletePingCheck) -> (r: Packet)
        ensures
            r@.body == PacketTypeV::CompletePingCheck(complete_ping_check),
            r@.header == spec_default_header(ID_COMPLETE_PING_CHECK, PacketFrequency::High, false),
            r@.wf(),
    {
        Packet {
            header: default_header(ID_COMPLETE_PING_CHECK, PacketFrequency::High, false),
            body: PacketType::CompletePingCheck(complete_ping_check),
        }
    }

    /// Builds the reliable `UseCircuitCode` handshake packet.
    pub fn new_use_circuit_code(use_circuit_code: UseCircuitCode) -> (r: Packet)
        requires
            use_circuit_code.session_id@.len() == 16,
            use_circuit_code.agent_id@.len() == 16,
        ensures
            r@.body == PacketTypeV::UseCircuitCode(use_circuit_code@),
            r@.header == spec_default_header(ID_USE_CIRCUIT_CODE, PacketFrequency::Low, true),
            r@.wf(),
    {
        Packet {
            header: default_header(ID_USE_CIRCUIT_CODE, PacketFrequency::Low, true),
            body: PacketType::UseCircuitCode(use_circuit_code),
        }
    }

    /// Builds a `ChatFromSimulator` packet.
    pub fn new_chat_from_simulator(chat_from_simulator: ChatFromSimulator) -> (r: Packet)
        requires
            chat_from_simulator@.wf(),
        ensures
            r@.body == PacketTypeV::ChatFromSimulator(chat_from_simulator@),
            r@.header == spec_default_header(ID_CHAT_FROM_SIMULATOR, PacketFrequency::Low, false),
            r@.wf(),
    {
        Packet {
            header: default_header(ID_CHAT_FROM_SIMULATOR, PacketFrequency::Low, false),
            body: PacketType::ChatFromSimulator(chat_from_simulator),
        }
    }

    /// Builds a `LayerData` packet.
    pub fn new_layer_data(layer_data: LayerData) -> (r: Packet)
        ensures
            r@.body == PacketTypeV::LayerData(layer_data@),
            r@.header == spec_default_header(ID_LAYER_DATA, PacketFrequency::Low, false),
            r@.wf(),
    {
        Packet {
            header: default_header(ID_LAYER_DATA, PacketFrequency::Low, false),
            body: PacketType::LayerData(layer_data),
        }
    }
}

/// The header a constructor gives a fresh packet: flags clear but for
/// `reliable`, sequence number zero until send time, no acknowledgment
/// block.
pub open spec fn spec_default_header(id: u16, frequency: PacketFrequency, reliable: bool) -> HeaderV {
    HeaderV {
        id,
        frequency,
        reliable,
        resent: false,
        zerocoded: false,
        appended_acks: false,
        sequence_number: 0,
        ack_list: None,
    }
}

/// Builds the header a constructor gives a fresh packet.
fn default_header(id: u16, frequency: PacketFrequency, reliable: bool) -> (r: Header)
    ensures
        r@ == spec_default_header(id, frequency, reliable),
{
    Header {
        id,
        frequency,
        reliable,
        resent: false,
        zerocoded: false,
        appended_acks: false,
        sequence_number: 0,
        ack_list: None,
    }
}

/// Decoding the encoding of a valid body, under its registered id and
/// frequency class, gives the body back.
proof fn lemma_body_round_trip(b: PacketTypeV)
    requires
        b.wf(),
    ensures
        spec_parse_body(spec_body_id(b), spec_body_frequency(b), spec_body_bytes(b))
            == Ok::<PacketTypeV, DecodeError>(b),
{
    let bytes = spec_body_bytes(b);
    vstd::bytes::lemma_auto_spec_u32_to_from_le_bytes();
    match b {
        PacketTypeV::PacketAck(a) => {
            let l = a.packet_ids;
            lemma_acks_bytes_len(l);
            assert(bytes[0] == l.len() as u8);
            let parsed = Seq::new(
                l.len(),
                |i: int| spec_u32_from_le_bytes(bytes.subrange(1 + 4 * i, 5 + 4 * i)),
            );
            assert forall|i: int| 0 <= i < l.len() implies parsed[i] == l[i] by {
                lemma_acks_bytes_index(l, i);
                assert(bytes.subrange(1 + 4 * i, 5 + 4 * i) =~= spec_acks_bytes(l).subrange(
                    4 * i,
                    4 * i + 4,
                ));
            }
            assert(parsed =~= l);
        },
        PacketTypeV::StartPingCheck(s) => {
            assert(bytes.subrange(1, 5) =~= spec_u32_to_le_bytes(s.oldest_unacked));
        },
        PacketTypeV::CompletePingCheck(_) => {},
        PacketTypeV::UseCircuitCode(u) => {
            assert(bytes.subrange(0, 4) =~= spec_u32_to_le_bytes(u.code));
            assert(bytes.subrange(4, 20) =~= u.session_id);
            assert(bytes.subrange(20, 36) =~= u.agent_id);
        },
        PacketTypeV::ChatFromSimulator(c) => {
            lemma_chat_round_trip(c);
        },
        PacketTypeV::LayerData(l) => {
            lemma_layer_data_round_trip(l);
        },
    }
}

/// Round trip of the codec: decoding the encoding of any valid packet
/// gives the packet back, field for field. The sequence number rides
/// along as it stood when the packet was encoded.
pub proof fn lemma_packet_round_trip(p: PacketV)
    requires
        p.wf(),
    ensures
        spec_parse_packet(spec_packet_bytes(p)) == Ok::<PacketV, DecodeError>(p),
{
    let hb = spec_header_bytes(p.header);
    let bb = spec_body_bytes(p.body);
    let b = spec_packet_bytes(p);
    lemma_header_round_trip(p.header, bb);
    assert(b.skip(hb.len() as int) =~= bb);
    lemma_body_round_trip(p.body);
}

} // verus!
