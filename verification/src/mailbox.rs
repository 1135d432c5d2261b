//! The mailbox: the per-session orchestrator owning the sequence counter,
//! the reliability table, the lifecycle state and the UI relay settings.
//!
//! Each handler is a pure state transition: it updates the mailbox and
//! returns the actions the host loop must perform (transmit bytes, fulfill
//! completion signals, relay envelopes, bind a socket). The host owns the
//! sockets, timers and tasks; no I/O happens here.

use vstd::prelude::*;

verus! {

use crate::packet::{
    spec_body_bytes, spec_default_header, spec_packet_bytes, spec_parse_packet, Packet,
    PacketTypeV, PacketV, StartPingCheck, ID_START_PING_CHECK,
};
use crate::header::{HeaderV, PacketFrequency};
use crate::reliability::{reliable_send_start, AckTable, ReliableSend};
use crate::ui_message::{chunk_ui_message, spec_chunk_count, spec_chunk_payload, UiEventType, UiMessage};
use crate::uuid_bytes::UuidBytes;

/// Lifecycle state of a mailbox.
#[derive(Clone, Copy, Debug, PartialEq, Eq, Structural)]
pub enum ServerState {
    /// The mailbox starts in the `Starting` state.
    Starting,
    /// The mailbox is running.
    Running,
    /// The mailbox is preparing to stop.
    Stopping,
    /// The mailbox is stopped.
    Stopped,
}

/// Keepalive bookkeeping. Timestamps are milliseconds of the host's
/// monotonic clock, handed in by the caller.
#[derive(Clone, Copy, Debug, PartialEq, Eq, Structural)]
pub struct PingInfo {
    /// Counter carried by the next keepalive probe.
    pub ping_number: u8,
    /// Round-trip time measured by the last keepalive exchange.
    pub ping_latency_ms: u64,
    /// When the last probe was sent.
    pub last_ping_ms: u64,
}

/// Where the local relay channel delivers UI envelopes.
#[derive(Clone, Debug, PartialEq, Eq)]
pub struct ServerToUiSocket {
    /// Path of the UI process's datagram socket.
    pub socket_path: String,
}

/// One logical connection to a simulator.
#[derive(Clone, Debug, PartialEq, Eq)]
pub struct Session {
    /// Host of the simulator the session speaks to.
    pub url: String,
    /// Port of the simulator the session speaks to.
    pub server_socket: u16,
    /// Agent id of the user.
    pub agent_id: UuidBytes,
    /// Session id of the user.
    pub session_id: UuidBytes,
    /// Handle of the bound UDP socket, as the host loop named it when the
    /// bind completed; absent until then. The socket itself lives with
    /// the host.
    pub socket: Option<u64>,
}

/// What the host must do after a session request.
#[derive(Clone, Copy, Debug, PartialEq, Eq, Structural)]
pub enum SessionAction {
    /// No socket exists yet: bind one to the mailbox's client port, spawn
    /// the receive loop, and report the handle back with
    /// [`Mailbox::on_socket_bound`]. A bind failure is fatal to session
    /// establishment and is surfaced to the requester.
    Bind,
    /// The session already owns a socket; it is kept, and no second bind
    /// or receive loop is started.
    UseExisting,
}

/// What the host must do with an outbound packet.
#[derive(Debug)]
pub enum OutboundAction {
    /// No established session with a bound socket exists; the packet is
    /// dropped.
    NotEstablished,
    /// Transmit these bytes once to the session's endpoint.
    Unreliable(Vec<u8>),
    /// A reliable send was started: transmit the bytes, then run the
    /// retry cycle of [`crate::reliability::reliable_send_step`].
    Reliable(ReliableSend, Vec<u8>),
}

/// What the host must do after an inbound datagram.
#[derive(Debug)]
pub struct InboundActions {
    /// Present when the datagram was a reliable packet: send a
    /// `PacketAck` for this sequence number back through the outbound
    /// path.
    pub ack_reply: Option<u32>,
    /// In-flight reliable sends this datagram acknowledged; the host
    /// fulfills their completion signals.
    pub completed_sends: Vec<u32>,
    /// The datagram was a keepalive reply; the host reports it to
    /// [`Mailbox::handle_pong`].
    pub pong: bool,
    /// A decoded event to relay to the UI process through
    /// [`Mailbox::handle_ui_message`].
    pub ui_event: Option<UiMessage>,
}

/// Sequentially applying an acknowledgment list to the table: each id
/// removes its entry; the ids that had one, in order, complete their
/// sends. An id with no entry is ignored.
pub open spec fn spec_apply_acks(table: Set<u32>, ids: Seq<u32>) -> (Set<u32>, Seq<u32>)
    decreases ids.len(),
{
    if ids.len() == 0 {
        (table, Seq::empty())
    } else {
        let prev = spec_apply_acks(table, ids.drop_last());
        let id = ids.last();
        if prev.0.contains(id) {
            (prev.0.remove(id), prev.1.push(id))
        } else {
            (prev.0, prev.1)
        }
    }
}

/// The mailbox for handling packets and sessions in the client.
#[derive(Debug)]
pub struct Mailbox {
    /// Local port the session's UDP socket binds to.
    pub client_socket: u16,
    /// Local datagram channel to the UI process, once configured.
    pub server_to_ui_socket: Option<ServerToUiSocket>,
    /// In-flight reliable sends awaiting acknowledgment.
    pub ack_queue: AckTable,
    /// Next sequence number to assign; ascends by one per send.
    pub packet_sequence_number: u32,
    /// Lifecycle state.
    pub state: ServerState,
    /// Session information, once established.
    pub session: Option<Session>,
    /// How many logical relay calls have been made to the UI process.
    pub sent_packet_count: u16,
    /// Keepalive bookkeeping.
    pub ping_info: PingInfo,
}

impl Mailbox {
    /// Validity of a mailbox, kept by every handler.
    pub open spec fn wf(&self) -> bool {
        self.ack_queue.wf()
    }

    /// A fresh mailbox: starting, with no session, an empty table and
    /// all counters at zero.
    pub fn new(client_socket: u16) -> (r: Mailbox)
        ensures
            r.wf(),
            r.client_socket == client_socket,
            r.server_to_ui_socket is None,
            r.ack_queue@ == Set::<u32>::empty(),
            r.packet_sequence_number == 0,
            r.state == ServerState::Starting,
            r.session is None,
            r.sent_packet_count == 0,
            r.ping_info == (PingInfo { ping_number: 0, ping_latency_ms: 0, last_ping_ms: 0 }),
    {
        Mailbox {
            client_socket,
            server_to_ui_socket: None,
            ack_queue: AckTable::new(),
            packet_sequence_number: 0,
            state: ServerState::Starting,
            session: None,
            sent_packet_count: 0,
            ping_info: PingInfo { ping_number: 0, ping_latency_ms: 0, last_ping_ms: 0 },
        }
    }

    /// Moves the lifecycle to `new_state` and says whether waiters must
    /// be notified: entering `Running` or `Stopped` publishes a one-shot
    /// notification to whoever awaits startup or shutdown.
    pub fn set_state(&mut self, new_state: ServerState) -> (notify: bool)
        ensures
            final(self).state == new_state,
            notify == (new_state == ServerState::Running || new_state == ServerState::Stopped),
            final(self).client_socket == old(self).client_socket,
            final(self).server_to_ui_socket == old(self).server_to_ui_socket,
            final(self).ack_queue == old(self).ack_queue,
            final(self).packet_sequence_number == old(self).packet_sequence_number,
            final(self).session == old(self).session,
            final(self).sent_packet_count == old(self).sent_packet_count,
            final(self).ping_info == old(self).ping_info,
    {
        self.state = new_state;
        new_state == ServerState::Running || new_state == ServerState::Stopped
    }

    /// Entry into the running state when the mailbox starts; returns
    /// whether waiters must be notified (always, for this transition).
    pub fn started(&mut self) -> (notify: bool)
        ensures
            final(self).state == ServerState::Running,
            notify,
            final(self).client_socket == old(self).client_socket,
            final(self).server_to_ui_socket == old(self).server_to_ui_socket,
            final(self).ack_queue == old(self).ack_queue,
            final(self).packet_sequence_number == old(self).packet_sequence_number,
            final(self).session == old(self).session,
            final(self).sent_packet_count == old(self).sent_packet_count,
            final(self).ping_info == old(self).ping_info,
    {
        self.set_state(ServerState::Running)
    }

    /// Configures where UI envelopes are delivered.
    pub fn handle_server_to_ui_socket(&mut self, msg: ServerToUiSocket)
        ensures
            final(self).server_to_ui_socket == Some(msg),
            final(self).client_socket == old(self).client_socket,
            final(self).ack_queue == old(self).ack_queue,
            final(self).packet_sequence_number == old(self).packet_sequence_number,
            final(self).state == old(self).state,
            final(self).session == old(self).session,
            final(self).sent_packet_count == old(self).sent_packet_count,
            final(self).ping_info == old(self).ping_info,
    {
        self.server_to_ui_socket = Some(msg);
    }

    /// Establishes or re-establishes the session.
    ///
    /// The request's identifiers replace the stored ones. Establishment
    /// is idempotent in the socket: when the stored session already owns
    /// one, it is kept — same handle, no second bind, no second receive
    /// loop — and the host is told `UseExisting`. Only a session without
    /// a socket asks the host to `Bind`.
    pub fn handle_session(&mut self, msg: Session) -> (r: SessionAction)
        ensures
            final(self).session matches Some(s) && {
                &&& s.url == msg.url
                &&& s.server_socket == msg.server_socket
                &&& s.agent_id == msg.agent_id
                &&& s.session_id == msg.session_id
                &&& s.socket == (match old(self).session {
                    Some(prev) => prev.socket,
                    None => msg.socket,
                })
                &&& r == (if s.socket is None {
                    SessionAction::Bind
                } else {
                    SessionAction::UseExisting
                })
            },
            final(self).client_socket == old(self).client_socket,
            final(self).server_to_ui_socket == old(self).server_to_ui_socket,
            final(self).ack_queue == old(self).ack_queue,
            final(self).packet_sequence_number == old(self).packet_sequence_number,
            final(self).state == old(self).state,
            final(self).sent_packet_count == old(self).sent_packet_count,
            final(self).ping_info == old(self).ping_info,
    {
        let mut msg = msg;
        match &self.session {
            Some(prev) => {
                msg.socket = prev.socket;
            },
            None => {},
        }
        let needs_bind = msg.socket.is_none();
        self.session = Some(msg);
        if needs_bind {
            SessionAction::Bind
        } else {
            SessionAction::UseExisting
        }
    }

    /// Stores the socket handle the host named when its bind completed.
    /// Without a session the report is ignored.
    pub fn on_socket_bound(&mut self, handle: u64)
        ensures
            match old(self).session {
                None => *final(self) == *old(self),
                Some(prev) => {
                    &&& final(self).session matches Some(s) && {
                        &&& s.url == prev.url
                        &&& s.server_socket == prev.server_socket
                        &&& s.agent_id == prev.agent_id
                        &&& s.session_id == prev.session_id
                        &&& s.socket == Some(handle)
                    }
                    &&& final(self).client_socket == old(self).client_socket
                    &&& final(self).server_to_ui_socket == old(self).server_to_ui_socket
                    &&& final(self).ack_queue == old(self).ack_queue
                    &&& final(self).packet_sequence_number == old(self).packet_sequence_number
                    &&& final(self).state == old(self).state
                    &&& final(self).sent_packet_count == old(self).sent_packet_count
                    &&& final(self).ping_info == old(self).ping_info
                },
            },
    {
        match &mut self.session {
            None => {},
            Some(s) => {
                s.socket = Some(handle);
            },
        }
    }

    /// Assigns the next sequence number to an outbound packet and decides
    /// how it is sent.
    ///
    /// Successive sends within one session carry numbers that ascend by
    /// exactly one: the packet takes the counter's value and the counter
    /// moves up by one, whatever else happens. A reliable packet is
    /// registered in the table before its first transmission; an
    /// unreliable one is transmitted once. Without an established
    /// session and bound socket nothing changes and the packet is
    /// dropped.
    pub fn handle_packet(&mut self, packet: Packet) -> (r: OutboundAction)
        requires
            old(self).wf(),
            packet@.wf(),
            old(self).packet_sequence_number < u32::MAX,
        ensures
            final(self).wf(),
            ({
                let established = old(self).session matches Some(s) && s.socket is Some;
                let sent = PacketV {
                    header: HeaderV {
                        sequence_number: old(self).packet_sequence_number,
                        ..packet@.header
                    },
                    body: packet@.body,
                };
                if !established {
                    r is NotEstablished && *final(self) == *old(self)
                } else {
                    &&& final(self).packet_sequence_number == old(self).packet_sequence_number + 1
                    &&& (if packet@.header.reliable {
                        &&& r matches OutboundAction::Reliable(state, bytes) && {
                            &&& state.sequence_number == old(self).packet_sequence_number
                            &&& state.attempts == 0
                            &&& bytes@ == spec_packet_bytes(sent)
                        }
                        &&& final(self).ack_queue@ == old(self).ack_queue@.insert(
                            old(self).packet_sequence_number,
                        )
                    } else {
                        &&& r matches OutboundAction::Unreliable(bytes) && bytes@
                            == spec_packet_bytes(sent)
                        &&& final(self).ack_queue@ == old(self).ack_queue@
                    })
                    &&& final(self).client_socket == old(self).client_socket
                    &&& final(self).server_to_ui_socket == old(self).server_to_ui_socket
                    &&& final(self).state == old(self).state
                    &&& final(self).session == old(self).session
                    &&& final(self).sent_packet_count == old(self).sent_packet_count
                    &&& final(self).ping_info == old(self).ping_info
                }
            }),
    {
        let established = match &self.session {
            Some(s) => s.socket.is_some(),
            None => false,
        };
        if !established {
            return OutboundAction::NotEstablished;
        }
        let mut packet = packet;
        packet.header.sequence_number = self.packet_sequence_number;
        self.packet_sequence_number = self.packet_sequence_number + 1;
        if packet.header.reliable {
            let (state, bytes) = reliable_send_start(&mut self.ack_queue, &packet);
            OutboundAction::Reliable(state, bytes)
        } else {
            OutboundAction::Unreliable(packet.to_bytes())
        }
    }

    /// Processes one inbound datagram, in arrival order.
    ///
    /// A datagram that fails to decode is dropped and changes nothing: a
    /// malformed datagram is never fatal to the receive loop. A decoded
    /// reliable packet is acknowledged back. An acknowledgment body
    /// completes the matching in-flight sends and removes their table
    /// entries; ids with no entry are ignored. A keepalive reply is
    /// reported, and a UI-relevant body is handed on as an envelope
    /// around its re-encoded bytes.
    pub fn process_datagram(&mut self, bytes: &[u8]) -> (r: InboundActions)
        requires
            old(self).wf(),
        ensures
            final(self).wf(),
            final(self).client_socket == old(self).client_socket,
            final(self).server_to_ui_socket == old(self).server_to_ui_socket,
            final(self).packet_sequence_number == old(self).packet_sequence_number,
            final(self).state == old(self).state,
            final(self).session == old(self).session,
            final(self).sent_packet_count == old(self).sent_packet_count,
            final(self).ping_info == old(self).ping_info,
            match spec_parse_packet(bytes@) {
                Err(_) => {
                    &&& final(self).ack_queue@ == old(self).ack_queue@
                    &&& r.ack_reply is None
                    &&& r.completed_sends@ == Seq::<u32>::empty()
                    &&& r.pong == false
                    &&& r.ui_event is None
                },
                Ok(p) => {
                    &&& r.ack_reply == (if p.header.reliable {
                        Some(p.header.sequence_number)
                    } else {
                        None::<u32>
                    })
                    &&& (match p.body {
                        PacketTypeV::PacketAck(a) => {
                            &&& final(self).ack_queue@ == spec_apply_acks(
                                old(self).ack_queue@,
                                a.packet_ids,
                            ).0
                            &&& r.completed_sends@ == spec_apply_acks(
                                old(self).ack_queue@,
                                a.packet_ids,
                            ).1
                        },
                        _ => {
                            &&& final(self).ack_queue@ == old(self).ack_queue@
                            &&& r.completed_sends@ == Seq::<u32>::empty()
                        },
                    })
                    &&& r.pong == (p.body is CompletePingCheck)
                    &&& (if p.body is ChatFromSimulator {
                        r.ui_event matches Some(m) && m@.message_type
                            == UiEventType::ChatFromSimulator && m@.message == spec_body_bytes(
                            p.body,
                        ) && m@.sequence_number == 0 && m@.total_packet_number == 0
                            && m@.packet_number == 0
                    } else if p.body is LayerData {
                        r.ui_event matches Some(m) && m@.message_type == UiEventType::LayerData
                            && m@.message == spec_body_bytes(p.body) && m@.sequence_number == 0
                            && m@.total_packet_number == 0 && m@.packet_number == 0
                    } else {
                        r.ui_event is None
                    })
                },
            },
    {
        let packet = match Packet::from_bytes(bytes) {
            Ok(p) => p,
            Err(_) => {
                return InboundActions {
                    ack_reply: None,
                    completed_sends: Vec::new(),
                    pong: false,
                    ui_event: None,
                };
            },
        };
        let ack_reply = if packet.header.reliable {
            Some(packet.header.sequence_number)
        } else {
            None
        };
        let mut completed_sends: Vec<u32> = Vec::new();
        match &packet.body {
            crate::packet::PacketType::PacketAck(a) => {
                let ghost ids = a.packet_ids@;
                let ghost table0 = self.ack_queue@;
                let n = a.packet_ids.len();
                let mut i: usize = 0;
                while i < n
                    invariant
                        i <= n == ids.len(),
                        a.packet_ids@ == ids,
                        self.wf(),
                        self.ack_queue@ == spec_apply_acks(table0, ids.take(i as int)).0,
                        completed_sends@ == spec_apply_acks(table0, ids.take(i as int)).1,
                        self.client_socket == old(self).client_socket,
                        self.server_to_ui_socket == old(self).server_to_ui_socket,
                        self.packet_sequence_number == old(self).packet_sequence_number,
                        self.state == old(self).state,
                        self.session == old(self).session,
                        self.sent_packet_count == old(self).sent_packet_count,
                        self.ping_info == old(self).ping_info,
                    decreases n - i,
                {
                    let id = a.packet_ids[i];
                    let found = self.ack_queue.remove(id);
                    if found {
                        completed_sends.push(id);
                    }
                    proof {
                        assert(ids.take(i + 1).drop_last() =~= ids.take(i as int));
                        assert(ids.take(i + 1).last() == ids[i as int]);
                        if !spec_apply_acks(table0, ids.take(i as int)).0.contains(id) {
                            assert(spec_apply_acks(table0, ids.take(i as int)).0.remove(id)
                                =~= spec_apply_acks(table0, ids.take(i as int)).0);
                        }
                    }
                    i = i + 1;
                }
                proof {
                    assert(ids.take(n as int) =~= ids);
                }
            },
            _ => {},
        }
        let pong = match &packet.body {
            crate::packet::PacketType::CompletePingCheck(_) => true,
            _ => false,
        };
        let ui_event = if packet.body.is_ui_event() {
            let event_type = match &packet.body {
                crate::packet::PacketType::ChatFromSimulator(_) => UiEventType::ChatFromSimulator,
                _ => UiEventType::LayerData,
            };
            Some(UiMessage::new(event_type, packet.body.to_bytes()))
        } else {
            None
        };
        InboundActions { ack_reply, completed_sends, pong, ui_event }
    }

    /// Splits one UI-bound message into envelopes for the relay channel.
    ///
    /// Without a configured relay socket nothing is sent and nothing
    /// changes. Otherwise every envelope of this logical message carries
    /// the session's relay call count as its `packet_number`, and the
    /// count moves up by one — once per logical message, not per chunk.
    pub fn handle_ui_message(&mut self, msg: UiMessage) -> (r: Vec<UiMessage>)
        requires
            old(self).sent_packet_count < u16::MAX,
            spec_chunk_count(msg@.message.len() as int) <= u16::MAX,
            msg@.sequence_number + spec_chunk_count(msg@.message.len() as int) <= u16::MAX + 1,
        ensures
            old(self).server_to_ui_socket is None ==> r@.len() == 0 && *final(self) == *old(self),
            old(self).server_to_ui_socket is Some ==> {
                &&& r@.len() == spec_chunk_count(msg@.message.len() as int)
                &&& (forall|i: int|
                    0 <= i < r@.len() ==> {
                        &&& (#[trigger] r@[i])@.message_type == msg@.message_type
                        &&& r@[i]@.sequence_number == msg@.sequence_number + i
                        &&& r@[i]@.total_packet_number == r@.len()
                        &&& r@[i]@.packet_number == old(self).sent_packet_count
                        &&& r@[i]@.message == spec_chunk_payload(msg@.message, i)
                    })
                &&& final(self).sent_packet_count == old(self).sent_packet_count + 1
                &&& final(self).client_socket == old(self).client_socket
                &&& final(self).server_to_ui_socket == old(self).server_to_ui_socket
                &&& final(self).ack_queue == old(self).ack_queue
                &&& final(self).packet_sequence_number == old(self).packet_sequence_number
                &&& final(self).state == old(self).state
                &&& final(self).session == old(self).session
                &&& final(self).ping_info == old(self).ping_info
            },
    {
        match &self.server_to_ui_socket {
            None => Vec::new(),
            Some(_) => {
                let chunks = chunk_ui_message(&msg, self.sent_packet_count);
                self.sent_packet_count = self.sent_packet_count + 1;
                chunks
            },
        }
    }

    /// Emits the next keepalive probe: it carries the current ping
    /// counter and the oldest sequence number not yet acknowledged, then
    /// the counter moves up and the send time is recorded.
    pub fn handle_ping(&mut self, now_ms: u64) -> (r: Packet)
        requires
            old(self).ping_info.ping_number < u8::MAX,
        ensures
            r@.body == PacketTypeV::StartPingCheck(
                StartPingCheck {
                    ping_id: old(self).ping_info.ping_number,
                    oldest_unacked: old(self).packet_sequence_number,
                },
            ),
            r@.header == spec_default_header(ID_START_PING_CHECK, PacketFrequency::High, false),
            r@.wf(),
            final(self).ping_info.ping_number == old(self).ping_info.ping_number + 1,
            final(self).ping_info.last_ping_ms == now_ms,
            final(self).ping_info.ping_latency_ms == old(self).ping_info.ping_latency_ms,
            final(self).client_socket == old(self).client_socket,
            final(self).server_to_ui_socket == old(self).server_to_ui_socket,
            final(self).ack_queue == old(self).ack_queue,
            final(self).packet_sequence_number == old(self).packet_sequence_number,
            final(self).state == old(self).state,
            final(self).session == old(self).session,
            final(self).sent_packet_count == old(self).sent_packet_count,
    {
        let packet = Packet::new_start_ping_check(
            StartPingCheck {
                ping_id: self.ping_info.ping_number,
                oldest_unacked: self.packet_sequence_number,
            },
        );
        self.ping_info.ping_number = self.ping_info.ping_number + 1;
        self.ping_info.last_ping_ms = now_ms;
        packet
    }

    /// Takes a keepalive reply: measures the round trip against the last
    /// probe's send time and re-issues the next probe's packet.
    pub fn handle_pong(&mut self, now_ms: u64) -> (r: Packet)
        requires
            now_ms >= old(self).ping_info.last_ping_ms,
        ensures
            r@.body == PacketTypeV::StartPingCheck(
                StartPingCheck {
                    ping_id: old(self).ping_info.ping_number,
                    oldest_unacked: old(self).packet_sequence_number,
                },
            ),
            r@.header == spec_default_header(ID_START_PING_CHECK, PacketFrequency::High, false),
            r@.wf(),
            final(self).ping_info.ping_latency_ms == now_ms - old(self).ping_info.last_ping_ms,
            final(self).ping_info.ping_number == old(self).ping_info.ping_number,
            final(self).ping_info.last_ping_ms == old(self).ping_info.last_ping_ms,
            final(self).client_socket == old(self).client_socket,
            final(self).server_to_ui_socket == old(self).server_to_ui_socket,
            final(self).ack_queue == old(self).ack_queue,
            final(self).packet_sequence_number == old(self).packet_sequence_number,
            final(self).state == old(self).state,
            final(self).session == old(self).session,
            final(self).sent_packet_count == old(self).sent_packet_count,
    {
        let packet = Packet::new_start_ping_check(
            StartPingCheck {
                ping_id: self.ping_info.ping_number,
                oldest_unacked: self.packet_sequence_number,
            },
        );
        self.ping_info.ping_latency_ms = now_ms - self.ping_info.last_ping_ms;
        packet
    }
}

} // verus!
