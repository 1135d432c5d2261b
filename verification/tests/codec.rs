use metaverse_session::agent_access::{parse_agent_access, AgentAccess};
use metaverse_session::chat_from_simulator::{
    Audible, ChatFromSimulator, ChatType, SourceType, Vector3,
};
use metaverse_session::header::{Header, PacketFrequency};
use metaverse_session::layer_data::{LayerData, LayerType};
use metaverse_session::packet::{
    CompletePingCheck, DecodeError, Packet, PacketAck, PacketType, StartPingCheck, UseCircuitCode,
};
use metaverse_session::ui_message::{chunk_ui_message, UiEventType, UiMessage};
use metaverse_session::uuid_bytes::UuidBytes;

fn sample_uuid(fill: u8) -> UuidBytes {
    UuidBytes::new(vec![fill; 16])
}

fn sample_layer_data() -> LayerData {
    LayerData {
        layer_id: LayerType::Land,
        stride: 264,
        patch_size: 16,
        layer_type: LayerType::Land,
        layer_content: vec![1, 2, 3, 4, 5],
    }
}

#[test]
fn layer_data_packet_round_trips_and_header_bits_are_clear() {
    // A non-reliable LayerData packet: id 11, frequency Low.
    let packet = Packet::new_layer_data(sample_layer_data());
    assert_eq!(packet.header.id, 11);
    assert_eq!(packet.header.frequency, PacketFrequency::Low);
    assert!(!packet.header.reliable);

    let bytes = packet.to_bytes();
    // Flags byte: reliable (0x40) and resent (0x20) bits are clear.
    assert_eq!(bytes[0] & 0x40, 0);
    assert_eq!(bytes[0] & 0x20, 0);
    assert_eq!(bytes[0], 0);
    // Sequence number as constructed, little endian.
    assert_eq!(&bytes[1..5], &[0, 0, 0, 0]);
    // Low-frequency id: two 0xff markers then the id in two bytes.
    assert_eq!(&bytes[5..9], &[255, 255, 11, 0]);

    let decoded = Packet::from_bytes(&bytes).expect("valid bytes must decode");
    match &decoded.body {
        PacketType::LayerData(l) => {
            assert_eq!(*l, sample_layer_data());
        }
        other => panic!("wrong body decoded: {:?}", other),
    }
    assert_eq!(decoded, packet);
}

#[test]
fn chat_packet_round_trips() {
    let chat = ChatFromSimulator {
        from_name: b"Nightclub Female".to_vec(),
        source_id: sample_uuid(0xAA),
        owner_id: sample_uuid(0xBB),
        source_type: SourceType::Agent,
        chat_type: ChatType::Shout,
        audible: Audible::Fully,
        position: Vector3 {
            x_bits: 0x3F800000,
            y_bits: 0x40000000,
            z_bits: 0x40400000,
        },
        message: b"Welcome, Avatar!".to_vec(),
    };
    let packet = Packet::new_chat_from_simulator(chat.clone());
    assert_eq!(packet.header.id, 139);
    assert_eq!(packet.header.frequency, PacketFrequency::Low);

    let bytes = packet.to_bytes();
    let decoded = Packet::from_bytes(&bytes).expect("valid bytes must decode");
    match &decoded.body {
        PacketType::ChatFromSimulator(c) => assert_eq!(*c, chat),
        other => panic!("wrong body decoded: {:?}", other),
    }
    assert_eq!(decoded, packet);
}

#[test]
fn chat_with_empty_name_and_message_round_trips() {
    let chat = ChatFromSimulator {
        from_name: Vec::new(),
        source_id: sample_uuid(1),
        owner_id: sample_uuid(2),
        source_type: SourceType::System,
        chat_type: ChatType::OwnerSay,
        audible: Audible::Not,
        position: Vector3 { x_bits: 0, y_bits: 0, z_bits: 0 },
        message: Vec::new(),
    };
    let packet = Packet::new_chat_from_simulator(chat.clone());
    let decoded = Packet::from_bytes(&packet.to_bytes()).unwrap();
    assert_eq!(decoded, packet);
}

#[test]
fn packet_ack_round_trips() {
    let packet = Packet::new_packet_ack(PacketAck {
        packet_ids: vec![7, 1000, 4294967295],
    });
    assert_eq!(packet.header.id, 65531);
    let decoded = Packet::from_bytes(&packet.to_bytes()).unwrap();
    assert_eq!(decoded, packet);
}

#[test]
fn packet_ack_with_a_full_count_byte_round_trips() {
    let ids: Vec<u32> = (0..255).collect();
    let packet = Packet::new_packet_ack(PacketAck { packet_ids: ids });
    let decoded = Packet::from_bytes(&packet.to_bytes()).unwrap();
    assert_eq!(decoded, packet);
}

#[test]
fn ping_packets_round_trip() {
    let ping = Packet::new_start_ping_check(StartPingCheck {
        ping_id: 3,
        oldest_unacked: 42,
    });
    assert_eq!(ping.header.id, 1);
    assert_eq!(ping.header.frequency, PacketFrequency::High);
    let bytes = ping.to_bytes();
    // High-frequency id: one byte, no 0xff marker.
    assert_eq!(bytes[5], 1);
    assert_eq!(Packet::from_bytes(&bytes).unwrap(), ping);

    let pong = Packet::new_complete_ping_check(CompletePingCheck { ping_id: 3 });
    assert_eq!(pong.header.id, 2);
    assert_eq!(Packet::from_bytes(&pong.to_bytes()).unwrap(), pong);
}

#[test]
fn use_circuit_code_round_trips_and_is_reliable() {
    let packet = Packet::new_use_circuit_code(UseCircuitCode {
        code: 697482820,
        session_id: sample_uuid(0x11),
        agent_id: sample_uuid(0x22),
    });
    assert_eq!(packet.header.id, 3);
    assert!(packet.header.reliable);
    let bytes = packet.to_bytes();
    assert_eq!(bytes[0] & 0x40, 0x40);
    assert_eq!(Packet::from_bytes(&bytes).unwrap(), packet);
}

#[test]
fn appended_acks_round_trip() {
    let mut packet = Packet::new_layer_data(sample_layer_data());
    packet.header.appended_acks = true;
    packet.header.ack_list = Some(vec![5, 6, 7]);
    packet.header.sequence_number = 9;
    let bytes = packet.to_bytes();
    assert_eq!(bytes[0] & 0x10, 0x10);
    assert_eq!(bytes[5], 3); // ack count
    let decoded = Packet::from_bytes(&bytes).unwrap();
    assert_eq!(decoded, packet);
}

#[test]
fn truncated_datagrams_are_rejected() {
    assert_eq!(Packet::from_bytes(&[]), Err(DecodeError::Truncated));
    assert_eq!(Packet::from_bytes(&[0, 1, 2]), Err(DecodeError::Truncated));
    // Header only, no id field.
    assert_eq!(
        Packet::from_bytes(&[0, 0, 0, 0, 0]),
        Err(DecodeError::Truncated)
    );
    // Low-frequency marker but the id bytes are missing.
    assert_eq!(
        Packet::from_bytes(&[0, 0, 0, 0, 0, 255, 255]),
        Err(DecodeError::Truncated)
    );
    // Ack flag set but the ack block is cut short.
    assert_eq!(
        Packet::from_bytes(&[0x10, 0, 0, 0, 0, 2, 1, 0, 0, 0]),
        Err(DecodeError::Truncated)
    );
    // A LayerData body needs seven bytes.
    let mut short = Packet::new_layer_data(sample_layer_data()).to_bytes();
    short.truncate(12);
    assert_eq!(Packet::from_bytes(&short), Err(DecodeError::Truncated));
}

#[test]
fn unknown_message_id_is_rejected() {
    // High-frequency id 99 is not registered.
    assert_eq!(
        Packet::from_bytes(&[0, 0, 0, 0, 0, 99]),
        Err(DecodeError::UnknownType)
    );
    // Low-frequency id 500 is not registered.
    assert_eq!(
        Packet::from_bytes(&[0, 0, 0, 0, 0, 255, 255, 244, 1]),
        Err(DecodeError::UnknownType)
    );
}

#[test]
fn agent_access_wire_bytes() {
    assert_eq!(AgentAccess::General.to_bytes(), 2);
    assert_eq!(AgentAccess::Trial.to_bytes(), 7);
    assert_eq!(AgentAccess::PG.to_bytes(), 13);
    assert_eq!(AgentAccess::Mature.to_bytes(), 21);
    assert_eq!(AgentAccess::Adult.to_bytes(), 42);
    assert_eq!(AgentAccess::Down.to_bytes(), 254);
    assert_eq!(AgentAccess::NonExistent.to_bytes(), 255);
    assert_eq!(AgentAccess::Unknown.to_bytes(), 0);
    for value in [2u8, 7, 13, 21, 42, 254, 255] {
        let decoded = AgentAccess::from_bytes(&value);
        assert_eq!(decoded.to_bytes(), value);
    }
    assert_eq!(AgentAccess::from_bytes(&99), AgentAccess::Unknown);
}

#[test]
fn agent_access_codes_parse() {
    assert_eq!(parse_agent_access(Some("M")), Some(AgentAccess::Mature));
    assert_eq!(parse_agent_access(Some("A")), Some(AgentAccess::Adult));
    assert_eq!(parse_agent_access(Some("PG")), Some(AgentAccess::PG));
    assert_eq!(parse_agent_access(Some("G")), Some(AgentAccess::General));
    assert_eq!(parse_agent_access(Some("")), Some(AgentAccess::NonExistent));
    assert_eq!(parse_agent_access(Some("Down")), Some(AgentAccess::Down));
    assert_eq!(parse_agent_access(Some("T")), Some(AgentAccess::Trial));
    assert_eq!(parse_agent_access(Some("x")), Some(AgentAccess::Unknown));
    assert_eq!(parse_agent_access(None), None);
}

#[test]
fn agent_access_codes_round_trip() {
    assert_eq!(AgentAccess::Mature.to_code(), b"M");
    assert_eq!(AgentAccess::Adult.to_code(), b"A");
    assert_eq!(AgentAccess::PG.to_code(), b"PG");
    assert_eq!(AgentAccess::General.to_code(), b"G");
    assert_eq!(AgentAccess::NonExistent.to_code(), b"");
    assert_eq!(AgentAccess::Down.to_code(), b"Down");
    assert_eq!(AgentAccess::Trial.to_code(), b"T");
    assert_eq!(AgentAccess::Unknown.to_code(), b"Unknown");
    for access in [
        AgentAccess::Mature,
        AgentAccess::Adult,
        AgentAccess::PG,
        AgentAccess::General,
        AgentAccess::NonExistent,
        AgentAccess::Down,
        AgentAccess::Trial,
        AgentAccess::Unknown,
    ] {
        let code = String::from_utf8(access.to_code()).unwrap();
        assert_eq!(parse_agent_access(Some(&code)), Some(access));
    }
}

#[test]
fn chat_enums_round_trip_on_wire_bytes() {
    assert_eq!(ChatType::Whisper.to_bytes(), 0);
    assert_eq!(ChatType::OwnerSay.to_bytes(), 8);
    assert_eq!(ChatType::Unknown.to_bytes(), 9);
    for value in [0u8, 1, 2, 3, 4, 5, 6, 8] {
        assert_eq!(ChatType::from_bytes(value).to_bytes(), value);
    }
    assert_eq!(ChatType::from_bytes(7).to_bytes(), 9);

    assert_eq!(SourceType::System.to_bytes(), 0);
    assert_eq!(SourceType::Unknown.to_bytes(), 3);
    for value in [0u8, 1, 2] {
        assert_eq!(SourceType::from_bytes(value).to_bytes(), value);
    }

    assert_eq!(Audible::Not.to_bytes(), 255);
    assert_eq!(Audible::Barely.to_bytes(), 0);
    assert_eq!(Audible::Fully.to_bytes(), 1);
    for value in [255u8, 0, 1] {
        assert_eq!(Audible::from_bytes(value).to_bytes(), value);
    }
}

#[test]
fn layer_types_round_trip_on_wire_bytes() {
    for value in [76u8, 77, 87, 88, 55, 57, 56, 58, 0] {
        assert_eq!(LayerType::from_bytes(value).to_bytes(), value);
    }
    assert_eq!(LayerType::from_bytes(42).to_bytes(), 0);
}

#[test]
fn ui_message_frame_round_trips() {
    let envelope = UiMessage {
        message_type: UiEventType::ChatFromSimulator,
        sequence_number: 3,
        total_packet_number: 4,
        packet_number: 9,
        message: vec![10, 20, 30],
    };
    let bytes = envelope.as_bytes();
    assert_eq!(bytes.len(), 7 + 3);
    assert_eq!(UiMessage::from_bytes(&bytes), Some(envelope));
}

#[test]
fn ui_message_rejects_bad_frames() {
    assert_eq!(UiMessage::from_bytes(&[1, 0, 0]), None);
    // Tag 9 names no event type.
    assert_eq!(UiMessage::from_bytes(&[9, 0, 0, 0, 0, 0, 0]), None);
}

#[test]
fn chunking_splits_an_oversized_payload_into_four_envelopes() {
    // One byte more than three full chunks of 1017 payload bytes.
    let payload: Vec<u8> = (0..1017 * 3 + 1).map(|i| (i % 251) as u8).collect();
    let msg = UiMessage::new(UiEventType::LayerData, payload.clone());
    let chunks = chunk_ui_message(&msg, 5);
    assert_eq!(chunks.len(), 4);
    let mut joined = Vec::new();
    for (i, chunk) in chunks.iter().enumerate() {
        assert_eq!(chunk.message_type, UiEventType::LayerData);
        assert_eq!(chunk.sequence_number, i as u16);
        assert_eq!(chunk.total_packet_number, 4);
        assert_eq!(chunk.packet_number, 5);
        assert!(chunk.as_bytes().len() <= 1024);
        joined.extend_from_slice(&chunk.message);
    }
    assert_eq!(joined, payload);
    assert_eq!(chunks[0].message.len(), 1017);
    assert_eq!(chunks[3].message.len(), 1);
}

#[test]
fn chunking_edge_sizes() {
    let empty = UiMessage::new(UiEventType::LayerData, Vec::new());
    assert_eq!(chunk_ui_message(&empty, 0).len(), 0);

    let exact = UiMessage::new(UiEventType::LayerData, vec![7; 1017]);
    let chunks = chunk_ui_message(&exact, 0);
    assert_eq!(chunks.len(), 1);
    assert_eq!(chunks[0].message.len(), 1017);

    let one_over = UiMessage::new(UiEventType::LayerData, vec![7; 1018]);
    let chunks = chunk_ui_message(&one_over, 0);
    assert_eq!(chunks.len(), 2);
    assert_eq!(chunks[1].message.len(), 1);
}
