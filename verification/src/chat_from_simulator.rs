//! Chat events sent by the simulator: the `ChatFromSimulator` body and its
//! classification enums.

use vstd::prelude::*;

verus! {

use vstd::bytes::{spec_u32_from_le_bytes, spec_u32_to_le_bytes};
use crate::packet::DecodeError;
use crate::uuid_bytes::UuidBytes;
use crate::wire::{copy_range, push_range, push_u32_le, read_u32_le, read_u8};

/// Who produced a chat message.
#[derive(Clone, Copy, Debug, PartialEq, Eq, Structural)]
pub enum SourceType {
    System,
    Agent,
    Object,
    Unknown,
}

/// Wire byte of a chat source.
pub open spec fn spec_source_type_byte(s: SourceType) -> u8 {
    match s {
        SourceType::System => 0,
        SourceType::Agent => 1,
        SourceType::Object => 2,
        SourceType::Unknown => 3,
    }
}

/// Chat source decoded from a wire byte.
pub open spec fn spec_source_type_from_byte(b: u8) -> SourceType {
    match b {
        0u8 => SourceType::System,
        1u8 => SourceType::Agent,
        2u8 => SourceType::Object,
        _ => SourceType::Unknown,
    }
}

impl SourceType {
    /// Decodes a wire byte into a chat source.
    pub fn from_bytes(bytes: u8) -> (r: Self)
        ensures
            r == spec_source_type_from_byte(bytes),
    {
        match bytes {
            0 => SourceType::System,
            1 => SourceType::Agent,
            2 => SourceType::Object,
            _ => SourceType::Unknown,
        }
    }

    /// Encodes the chat source as its wire byte.
    pub fn to_bytes(&self) -> (r: u8)
        ensures
            r == spec_source_type_byte(*self),
    {
        match self {
            SourceType::System => 0,
            SourceType::Agent => 1,
            SourceType::Object => 2,
            SourceType::Unknown => 3,
        }
    }
}

/// How audible a chat message is at the receiving agent's position.
#[derive(Clone, Copy, Debug, PartialEq, Eq, Structural)]
pub enum Audible {
    Not,
    Barely,
    Fully,
    Unknown,
}

/// Wire byte of an audibility level.
pub open spec fn spec_audible_byte(a: Audible) -> u8 {
    match a {
        Audible::Not => 255,
        Audible::Barely => 0,
        Audible::Fully => 1,
        Audible::Unknown => 2,
    }
}

/// Audibility level decoded from a wire byte.
pub open spec fn spec_audible_from_byte(b: u8) -> Audible {
    match b {
        255u8 => Audible::Not,
        0u8 => Audible::Barely,
        1u8 => Audible::Fully,
        _ => Audible::Unknown,
    }
}

impl Audible {
    /// Decodes a wire byte into an audibility level.
    pub fn from_bytes(bytes: u8) -> (r: Self)
        ensures
            r == spec_audible_from_byte(bytes),
    {
        match bytes {
            255 => Audible::Not,
            0 => Audible::Barely,
            1 => Audible::Fully,
            _ => Audible::Unknown,
        }
    }

    /// Encodes the audibility level as its wire byte.
    pub fn to_bytes(&self) -> (r: u8)
        ensures
            r == spec_audible_byte(*self),
    {
        match self {
            Audible::Not => 255,
            Audible::Barely => 0,
            Audible::Fully => 1,
            Audible::Unknown => 2,
        }
    }
}

/// Register a chat message was spoken on.
#[derive(Clone, Copy, Debug, PartialEq, Eq, Structural)]
pub enum ChatType {
    Whisper,
    Normal,
    Shout,
    Say,
    StartTyping,
    StopTyping,
    Debug,
    OwnerSay,
    Unknown,
}

/// Wire byte of a chat register.
pub open spec fn spec_chat_type_byte(c: ChatType) -> u8 {
    match c {
        ChatType::Whisper => 0,
        ChatType::Normal => 1,
        ChatType::Shout => 2,
        ChatType::Say => 3,
        ChatType::StartTyping => 4,
        ChatType::StopTyping => 5,
        ChatType::Debug => 6,
        ChatType::OwnerSay => 8,
        ChatType::Unknown => 9,
    }
}

/// Chat register decoded from a wire byte.
pub open spec fn spec_chat_type_from_byte(b: u8) -> ChatType {
    match b {
        0u8 => ChatType::Whisper,
        1u8 => ChatType::Normal,
        2u8 => ChatType::Shout,
        3u8 => ChatType::Say,
        4u8 => ChatType::StartTyping,
        5u8 => ChatType::StopTyping,
        6u8 => ChatType::Debug,
        8u8 => ChatType::OwnerSay,
        _ => ChatType::Unknown,
    }
}

impl ChatType {
    /// Decodes a wire byte into a chat register.
    pub fn from_bytes(bytes: u8) -> (r: Self)
        ensures
            r == spec_chat_type_from_byte(bytes),
    {
        match bytes {
            0 => ChatType::Whisper,
            1 => ChatType::Normal,
            2 => ChatType::Shout,
            3 => ChatType::Say,
            4 => ChatType::StartTyping,
            5 => ChatType::StopTyping,
            6 => ChatType::Debug,
            8 => ChatType::OwnerSay,
            _ => ChatType::Unknown,
        }
    }

    /// Encodes the chat register as its wire byte.
    pub fn to_bytes(&self) -> (r: u8)
        ensures
            r == spec_chat_type_byte(*self),
    {
        match self {
            ChatType::Whisper => 0,
            ChatType::Normal => 1,
            ChatType::Shout => 2,
            ChatType::Say => 3,
            ChatType::StartTyping => 4,
            ChatType::StopTyping => 5,
            ChatType::Debug => 6,
            ChatType::OwnerSay => 8,
            ChatType::Unknown => 9,
        }
    }
}

/// A position in region coordinates. Each field holds the IEEE-754 bit
/// pattern of one little-endian 32-bit float from the wire; the engine
/// relays positions without doing arithmetic on them.
#[derive(Clone, Copy, Debug, PartialEq, Eq, Structural)]
pub struct Vector3 {
    pub x_bits: u32,
    pub y_bits: u32,
    pub z_bits: u32,
}

/// Body of a `ChatFromSimulator` message. The speaker name and the message
/// hold the raw UTF-8 bytes from the wire.
#[derive(Clone, Debug, PartialEq, Eq)]
pub struct ChatFromSimulator {
    pub from_name: Vec<u8>,
    pub source_id: UuidBytes,
    pub owner_id: UuidBytes,
    pub source_type: SourceType,
    pub chat_type: ChatType,
    pub audible: Audible,
    pub position: Vector3,
    pub message: Vec<u8>,
}

/// Mathematical model of a `ChatFromSimulator` body.
#[verifier::ext_equal]
pub ghost struct ChatFromSimulatorV {
    pub from_name: Seq<u8>,
    pub source_id: Seq<u8>,
    pub owner_id: Seq<u8>,
    pub source_type: SourceType,
    pub chat_type: ChatType,
    pub audible: Audible,
    pub position: Vector3,
    pub message: Seq<u8>,
}

impl View for ChatFromSimulator {
    type V = ChatFromSimulatorV;

    open spec fn view(&self) -> ChatFromSimulatorV {
        ChatFromSimulatorV {
            from_name: self.from_name@,
            source_id: self.source_id@,
            owner_id: self.owner_id@,
            source_type: self.source_type,
            chat_type: self.chat_type,
            audible: self.audible,
            position: self.position,
            message: self.message@,
        }
    }
}

impl ChatFromSimulatorV {
    /// Validity of a chat body: the ids hold sixteen bytes each, and the
    /// speaker name is free of the byte that terminates it on the wire.
    pub open spec fn wf(&self) -> bool {
        &&& self.source_id.len() == 16
        &&& self.owner_id.len() == 16
        &&& forall|j: int| 0 <= j < self.from_name.len() ==> self.from_name[j] != 0u8
    }
}

/// Wire bytes of a chat body: the name terminated by a zero byte, the two
/// ids, three classification bytes, the position, then the message bracketed
/// by a reserved byte and a terminating zero byte.
pub open spec fn spec_chat_bytes(c: ChatFromSimulatorV) -> Seq<u8> {
    c.from_name + seq![0u8] + c.source_id + c.owner_id + seq![
        spec_source_type_byte(c.source_type),
        spec_chat_type_byte(c.chat_type),
        spec_audible_byte(c.audible),
    ] + spec_u32_to_le_bytes(c.position.x_bits) + spec_u32_to_le_bytes(c.position.y_bits)
        + spec_u32_to_le_bytes(c.position.z_bits) + seq![0u8] + c.message + seq![0u8]
}

/// Index of the first zero byte, or a negative value when there is none.
pub open spec fn spec_first_zero(b: Seq<u8>) -> int
    decreases b.len(),
{
    if b.len() == 0 {
        -1
    } else if b[0] == 0 {
        0
    } else if spec_first_zero(b.skip(1)) < 0 {
        -1
    } else {
        spec_first_zero(b.skip(1)) + 1
    }
}

/// What `spec_first_zero` finds: a zero byte with none before it, or no
/// zero byte anywhere.
pub proof fn lemma_first_zero(b: Seq<u8>)
    ensures
        spec_first_zero(b) >= 0 ==> {
            &&& spec_first_zero(b) < b.len()
            &&& b[spec_first_zero(b)] == 0u8
            &&& forall|j: int| 0 <= j < spec_first_zero(b) ==> b[j] != 0u8
        },
        spec_first_zero(b) < 0 ==> forall|j: int| 0 <= j < b.len() ==> b[j] != 0u8,
    decreases b.len(),
{
    if b.len() == 0 {
    } else if b[0] == 0 {
    } else {
        lemma_first_zero(b.skip(1));
        assert forall|j: int| 0 <= j < b.len() implies b.skip(1)[j - 1] == b[j] || j == 0 by {
            if j > 0 {
                assert(b.skip(1)[j - 1] == b[j]);
            }
        }
    }
}

/// A zero byte with none before it is the one `spec_first_zero` finds.
pub proof fn lemma_first_zero_at(b: Seq<u8>, i: int)
    requires
        0 <= i < b.len(),
        b[i] == 0u8,
        forall|j: int| 0 <= j < i ==> b[j] != 0u8,
    ensures
        spec_first_zero(b) == i,
{
    lemma_first_zero(b);
    let z = spec_first_zero(b);
    if z < 0 {
        assert(b[i] != 0u8);
    } else if z < i {
        assert(b[z] != 0u8);
    } else if z > i {
        assert(b[i] != 0u8);
    }
}

/// Finds the first zero byte of a buffer.
fn find_first_zero(b: &[u8]) -> (r: Option<usize>)
    ensures
        match r {
            Some(i) => i == spec_first_zero(b@),
            None => spec_first_zero(b@) < 0,
        },
{
    let n = b.len();
    let mut i: usize = 0;
    while i < n
        invariant
            i <= n == b@.len(),
            forall|j: int| 0 <= j < i ==> b@[j] != 0u8,
        decreases n - i,
    {
        if read_u8(b, i) == 0 {
            proof {
                lemma_first_zero_at(b@, i as int);
            }
            return Some(i);
        }
        i = i + 1;
    }
    proof {
        lemma_first_zero(b@);
        if spec_first_zero(b@) >= 0 {
            assert(b@[spec_first_zero(b@)] != 0u8);
        }
    }
    None
}

/// Parse of a byte sequence as a chat body. The name runs to the first zero
/// byte; one byte after the fixed fields is reserved; the final byte closes
/// the message and is dropped.
pub open spec fn spec_parse_chat(b: Seq<u8>) -> Result<ChatFromSimulatorV, DecodeError> {
    let z = spec_first_zero(b);
    if z < 0 {
        Err(DecodeError::Truncated)
    } else if b.len() < z + 48 {
        Err(DecodeError::Truncated)
    } else {
        Ok(
            ChatFromSimulatorV {
                from_name: b.take(z),
                source_id: b.subrange(z + 1, z + 17),
                owner_id: b.subrange(z + 17, z + 33),
                source_type: spec_source_type_from_byte(b[z + 33]),
                chat_type: spec_chat_type_from_byte(b[z + 34]),
                audible: spec_audible_from_byte(b[z + 35]),
                position: Vector3 {
                    x_bits: spec_u32_from_le_bytes(b.subrange(z + 36, z + 40)),
                    y_bits: spec_u32_from_le_bytes(b.subrange(z + 40, z + 44)),
                    z_bits: spec_u32_from_le_bytes(b.subrange(z + 44, z + 48)),
                },
                message: if b.len() >= z + 50 {
                    b.subrange(z + 49, b.len() as int - 1)
                } else {
                    Seq::empty()
                },
            },
        )
    }
}

impl ChatFromSimulator {
    /// Encodes the body into its wire bytes.
    pub fn to_bytes(&self) -> (r: Vec<u8>)
        ensures
            r@ == spec_chat_bytes(self@),
    {
        let mut out: Vec<u8> = Vec::new();
        push_range(&mut out, self.from_name.as_slice(), 0, self.from_name.len());
        out.push(0);
        let sid = self.source_id.as_bytes();
        push_range(&mut out, sid.as_slice(), 0, sid.len());
        let oid = self.owner_id.as_bytes();
        push_range(&mut out, oid.as_slice(), 0, oid.len());
        out.push(self.source_type.to_bytes());
        out.push(self.chat_type.to_bytes());
        out.push(self.audible.to_bytes());
        push_u32_le(&mut out, self.position.x_bits);
        push_u32_le(&mut out, self.position.y_bits);
        push_u32_le(&mut out, self.position.z_bits);
        out.push(0);
        push_range(&mut out, self.message.as_slice(), 0, self.message.len());
        out.push(0);
        proof {
            assert(out@ =~= spec_chat_bytes(self@));
        }
        out
    }

    /// Decodes a byte buffer into a chat body.
    pub fn from_bytes(bytes: &[u8]) -> (r: Result<Self, DecodeError>)
        ensures
            match r {
                Ok(c) => spec_parse_chat(bytes@) == Ok::<ChatFromSimulatorV, DecodeError>(c@)
                    && c@.wf(),
                Err(e) => spec_parse_chat(bytes@) == Err::<ChatFromSimulatorV, DecodeError>(e),
            },
    {
        let n = bytes.len();
        let z = match find_first_zero(bytes) {
            Some(z) => z,
            None => {
                return Err(DecodeError::Truncated);
            },
        };
        proof {
            lemma_first_zero(bytes@);
        }
        if n - z < 48 {
            return Err(DecodeError::Truncated);
        }
        let from_name = copy_range(bytes, 0, z);
        let source_id = UuidBytes::new(copy_range(bytes, z + 1, z + 17));
        let owner_id = UuidBytes::new(copy_range(bytes, z + 17, z + 33));
        let source_type = SourceType::from_bytes(read_u8(bytes, z + 33));
        let chat_type = ChatType::from_bytes(read_u8(bytes, z + 34));
        let audible = Audible::from_bytes(read_u8(bytes, z + 35));
        let position = Vector3 {
            x_bits: read_u32_le(bytes, z + 36),
            y_bits: read_u32_le(bytes, z + 40),
            z_bits: read_u32_le(bytes, z + 44),
        };
        let message = if n - z >= 50 {
            copy_range(bytes, z + 49, n - 1)
        } else {
            Vec::new()
        };
        proof {
            assert(bytes@.subrange(0, z as int) =~= bytes@.take(z as int));
            if n < z + 50 {
                assert(message@ =~= Seq::<u8>::empty());
            }
        }
        Ok(
            ChatFromSimulator {
                from_name,
                source_id,
                owner_id,
                source_type,
                chat_type,
                audible,
                position,
                message,
            },
        )
    }
}

/// Decoding the encoding of a valid chat body gives the body back.
pub proof fn lemma_chat_round_trip(c: ChatFromSimulatorV)
    requires
        c.wf(),
    ensures
        spec_parse_chat(spec_chat_bytes(c)) == Ok::<ChatFromSimulatorV, DecodeError>(c),
{
    let b = spec_chat_bytes(c);
    let nl = c.from_name.len() as int;
    vstd::bytes::lemma_auto_spec_u32_to_from_le_bytes();
    assert(b.len() == nl + 50 + c.message.len());
    assert(b[nl] == 0u8);
    lemma_first_zero_at(b, nl);
    let z = spec_first_zero(b);
    assert(z == nl);
    assert(b.take(z) =~= c.from_name);
    assert(b.subrange(z + 1, z + 17) =~= c.source_id);
    assert(b.subrange(z + 17, z + 33) =~= c.owner_id);
    assert(b[z + 33] == spec_source_type_byte(c.source_type));
    assert(b[z + 34] == spec_chat_type_byte(c.chat_type));
    assert(b[z + 35] == spec_audible_byte(c.audible));
    assert(b.subrange(z + 36, z + 40) =~= spec_u32_to_le_bytes(c.position.x_bits));
    assert(b.subrange(z + 40, z + 44) =~= spec_u32_to_le_bytes(c.position.y_bits));
    assert(b.subrange(z + 44, z + 48) =~= spec_u32_to_le_bytes(c.position.z_bits));
    assert(b.subrange(z + 49, b.len() as int - 1) =~= c.message);
}

} // verus!
