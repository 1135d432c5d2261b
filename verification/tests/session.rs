use metaverse_session::layer_data::{LayerData, LayerType};
use metaverse_session::mailbox::{
    Mailbox, OutboundAction, ServerState, ServerToUiSocket, Session, SessionAction,
};
use metaverse_session::packet::{CompletePingCheck, Packet, PacketAck, PacketType, StartPingCheck};
use metaverse_session::reliability::{
    reliable_send_start, reliable_send_step, retransmit_bytes, AckTable, ReliabilityError,
    RetryEvent, RetryOutcome, ACK_ATTEMPTS, ACK_TIMEOUT_MS,
};
use metaverse_session::ui_message::{UiEventType, UiMessage};
use metaverse_session::uuid_bytes::UuidBytes;

fn sample_session() -> Session {
    Session {
        url: "192.168.1.2".to_string(),
        server_socket: 9000,
        agent_id: UuidBytes::new(vec![0x11; 16]),
        session_id: UuidBytes::new(vec![0x22; 16]),
        socket: None,
    }
}

fn established_mailbox() -> Mailbox {
    let mut mailbox = Mailbox::new(41518);
    assert!(mailbox.started());
    assert_eq!(mailbox.handle_session(sample_session()), SessionAction::Bind);
    mailbox.on_socket_bound(7);
    mailbox
}

fn layer_packet() -> Packet {
    Packet::new_layer_data(LayerData {
        layer_id: LayerType::Wind,
        stride: 4,
        patch_size: 16,
        layer_type: LayerType::Wind,
        layer_content: vec![9, 9, 9],
    })
}

#[test]
fn establishing_a_session_twice_reuses_the_socket() {
    let mut mailbox = Mailbox::new(41518);

    // First request: no socket exists, so the host is told to bind.
    let first = mailbox.handle_session(sample_session());
    assert_eq!(first, SessionAction::Bind);
    mailbox.on_socket_bound(7);
    assert_eq!(mailbox.session.as_ref().unwrap().socket, Some(7));

    // Second request with the same identifiers: the existing socket is
    // kept, no second bind happens.
    let second = mailbox.handle_session(sample_session());
    assert_eq!(second, SessionAction::UseExisting);
    let session = mailbox.session.as_ref().unwrap();
    assert_eq!(session.socket, Some(7));
    assert_eq!(session.url, "192.168.1.2");
    assert_eq!(session.server_socket, 9000);
}

#[test]
fn lifecycle_transitions_notify_waiters() {
    let mut mailbox = Mailbox::new(41518);
    assert_eq!(mailbox.state, ServerState::Starting);
    assert!(mailbox.started());
    assert_eq!(mailbox.state, ServerState::Running);
    assert!(!mailbox.set_state(ServerState::Stopping));
    assert!(mailbox.set_state(ServerState::Stopped));
    assert_eq!(mailbox.state, ServerState::Stopped);
}

#[test]
fn sequence_numbers_ascend_by_one_per_send() {
    let mut mailbox = established_mailbox();
    let mut seen = Vec::new();
    for _ in 0..3 {
        match mailbox.handle_packet(layer_packet()) {
            OutboundAction::Unreliable(bytes) => {
                let decoded = Packet::from_bytes(&bytes).unwrap();
                seen.push(decoded.header.sequence_number);
            }
            other => panic!("expected an unreliable send, got {:?}", other),
        }
    }
    assert_eq!(seen, vec![0, 1, 2]);
    assert_eq!(mailbox.packet_sequence_number, 3);
}

#[test]
fn sends_without_a_session_are_dropped() {
    let mut mailbox = Mailbox::new(41518);
    match mailbox.handle_packet(layer_packet()) {
        OutboundAction::NotEstablished => {}
        other => panic!("expected the packet to be dropped, got {:?}", other),
    }
    assert_eq!(mailbox.packet_sequence_number, 0);
}

#[test]
fn reliable_send_fails_after_three_unanswered_attempts() {
    assert_eq!(ACK_ATTEMPTS, 3);
    assert_eq!(ACK_TIMEOUT_MS, 1000);

    let mut table = AckTable::new();
    let mut packet = Packet::new_use_circuit_code(metaverse_session::packet::UseCircuitCode {
        code: 5,
        session_id: UuidBytes::new(vec![1; 16]),
        agent_id: UuidBytes::new(vec![2; 16]),
    });
    packet.header.sequence_number = 12;

    let (mut state, first) = reliable_send_start(&mut table, &packet);
    assert!(table.contains(12));
    // The first transmission does not carry the resent flag.
    assert_eq!(first[0] & 0x20, 0);

    // First timeout: retransmit, with the resent flag set.
    assert_eq!(
        reliable_send_step(&mut table, &mut state, RetryEvent::TimedOut),
        RetryOutcome::Retransmit
    );
    let again = retransmit_bytes(&packet);
    assert_eq!(again[0] & 0x20, 0x20);
    assert!(table.contains(12));

    // Second timeout: one retransmission is left.
    assert_eq!(
        reliable_send_step(&mut table, &mut state, RetryEvent::TimedOut),
        RetryOutcome::Retransmit
    );

    // Third timeout: the budget is spent; the send fails and the table
    // holds no entry for the sequence number afterward.
    assert_eq!(
        reliable_send_step(&mut table, &mut state, RetryEvent::TimedOut),
        RetryOutcome::Failed(ReliabilityError::AckTimeout)
    );
    assert!(!table.contains(12));
}

#[test]
fn reliable_send_succeeds_at_once_when_the_ack_arrives() {
    let mut table = AckTable::new();
    let mut packet = layer_packet();
    packet.header.reliable = true;
    packet.header.sequence_number = 3;

    let (mut state, _bytes) = reliable_send_start(&mut table, &packet);
    // The receive path matched the acknowledgment and removed the entry.
    assert!(table.remove(3));
    assert_eq!(
        reliable_send_step(&mut table, &mut state, RetryEvent::AckReceived),
        RetryOutcome::Succeeded
    );
    assert_eq!(state.attempts, 0);
}

#[test]
fn inbound_acknowledgment_completes_pending_sends() {
    let mut mailbox = established_mailbox();

    // Two reliable sends register their sequence numbers.
    for _ in 0..2 {
        let mut p = layer_packet();
        p.header.reliable = true;
        match mailbox.handle_packet(p) {
            OutboundAction::Reliable(_, _) => {}
            other => panic!("expected a reliable send, got {:?}", other),
        }
    }
    assert!(mailbox.ack_queue.contains(0));
    assert!(mailbox.ack_queue.contains(1));

    // The peer acknowledges both, plus an id that was never registered.
    let ack = Packet::new_packet_ack(PacketAck {
        packet_ids: vec![0, 99, 1],
    });
    let actions = mailbox.process_datagram(&ack.to_bytes());
    assert_eq!(actions.completed_sends, vec![0, 1]);
    assert_eq!(actions.ack_reply, None);
    assert!(!actions.pong);
    assert!(actions.ui_event.is_none());
    assert!(!mailbox.ack_queue.contains(0));
    assert!(!mailbox.ack_queue.contains(1));
}

#[test]
fn duplicate_acknowledged_ids_complete_once() {
    let mut mailbox = established_mailbox();
    let mut p = layer_packet();
    p.header.reliable = true;
    match mailbox.handle_packet(p) {
        OutboundAction::Reliable(_, _) => {}
        other => panic!("expected a reliable send, got {:?}", other),
    }
    let ack = Packet::new_packet_ack(PacketAck {
        packet_ids: vec![0, 0, 0],
    });
    let actions = mailbox.process_datagram(&ack.to_bytes());
    assert_eq!(actions.completed_sends, vec![0]);
    assert!(!mailbox.ack_queue.contains(0));
}

#[test]
fn inbound_reliable_packet_is_acknowledged() {
    let mut mailbox = established_mailbox();
    let mut packet = layer_packet();
    packet.header.reliable = true;
    packet.header.sequence_number = 77;
    let actions = mailbox.process_datagram(&packet.to_bytes());
    assert_eq!(actions.ack_reply, Some(77));
    // The reliable LayerData packet is also a UI event.
    let envelope = actions.ui_event.expect("layer data is relayed to the UI");
    assert_eq!(envelope.message_type, UiEventType::LayerData);
}

#[test]
fn inbound_chat_is_relayed_with_its_body_bytes() {
    let mut mailbox = established_mailbox();
    let chat = metaverse_session::chat_from_simulator::ChatFromSimulator {
        from_name: b"First Last".to_vec(),
        source_id: UuidBytes::new(vec![3; 16]),
        owner_id: UuidBytes::new(vec![4; 16]),
        source_type: metaverse_session::chat_from_simulator::SourceType::Agent,
        chat_type: metaverse_session::chat_from_simulator::ChatType::Normal,
        audible: metaverse_session::chat_from_simulator::Audible::Fully,
        position: metaverse_session::chat_from_simulator::Vector3 {
            x_bits: 0,
            y_bits: 0,
            z_bits: 0,
        },
        message: b"Shopping".to_vec(),
    };
    let packet = Packet::new_chat_from_simulator(chat.clone());
    let body_bytes = match &packet.body {
        PacketType::ChatFromSimulator(c) => c.to_bytes(),
        _ => unreachable!(),
    };
    let actions = mailbox.process_datagram(&packet.to_bytes());
    assert_eq!(actions.ack_reply, None);
    let envelope = actions.ui_event.expect("chat is relayed to the UI");
    assert_eq!(envelope.message_type, UiEventType::ChatFromSimulator);
    assert_eq!(envelope.message, body_bytes);
    assert_eq!(envelope.sequence_number, 0);
    assert_eq!(envelope.total_packet_number, 0);
}

#[test]
fn inbound_pong_is_reported() {
    let mut mailbox = established_mailbox();
    let packet = Packet::new_complete_ping_check(CompletePingCheck { ping_id: 1 });
    let actions = mailbox.process_datagram(&packet.to_bytes());
    assert!(actions.pong);
    assert!(actions.ui_event.is_none());
}

#[test]
fn malformed_datagrams_change_nothing() {
    let mut mailbox = established_mailbox();
    let actions = mailbox.process_datagram(&[1, 2, 3]);
    assert_eq!(actions.ack_reply, None);
    assert!(actions.completed_sends.is_empty());
    assert!(!actions.pong);
    assert!(actions.ui_event.is_none());
    assert_eq!(mailbox.packet_sequence_number, 0);
}

#[test]
fn keepalive_counters_and_latency() {
    let mut mailbox = established_mailbox();

    let probe = mailbox.handle_ping(1000);
    match &probe.body {
        PacketType::StartPingCheck(StartPingCheck { ping_id, oldest_unacked }) => {
            assert_eq!(*ping_id, 0);
            assert_eq!(*oldest_unacked, 0);
        }
        other => panic!("expected a keepalive probe, got {:?}", other),
    }
    assert_eq!(mailbox.ping_info.ping_number, 1);
    assert_eq!(mailbox.ping_info.last_ping_ms, 1000);

    let reissue = mailbox.handle_pong(1250);
    assert_eq!(mailbox.ping_info.ping_latency_ms, 250);
    match &reissue.body {
        PacketType::StartPingCheck(StartPingCheck { ping_id, .. }) => {
            assert_eq!(*ping_id, 1);
        }
        other => panic!("expected a keepalive probe, got {:?}", other),
    }
}

#[test]
fn ui_relay_counts_once_per_logical_message() {
    let mut mailbox = established_mailbox();

    // Without a configured relay socket nothing is sent.
    let msg = UiMessage::new(UiEventType::LayerData, vec![1; 2048]);
    assert!(mailbox.handle_ui_message(msg).is_empty());
    assert_eq!(mailbox.sent_packet_count, 0);

    mailbox.handle_server_to_ui_socket(ServerToUiSocket {
        socket_path: "/tmp/benthic_ui.sock".to_string(),
    });
    let msg = UiMessage::new(UiEventType::LayerData, vec![1; 2048]);
    let envelopes = mailbox.handle_ui_message(msg);
    assert_eq!(envelopes.len(), 3);
    for (i, envelope) in envelopes.iter().enumerate() {
        assert_eq!(envelope.packet_number, 0);
        assert_eq!(envelope.sequence_number, i as u16);
        assert_eq!(envelope.total_packet_number, 3);
    }
    // The relay count moves up once per logical message, not per chunk.
    assert_eq!(mailbox.sent_packet_count, 1);

    let msg = UiMessage::new(UiEventType::LayerData, vec![2; 10]);
    let envelopes = mailbox.handle_ui_message(msg);
    assert_eq!(envelopes.len(), 1);
    assert_eq!(envelopes[0].packet_number, 1);
    assert_eq!(mailbox.sent_packet_count, 2);
}
