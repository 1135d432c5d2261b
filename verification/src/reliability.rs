//! The send-side reliability protocol: the table of in-flight reliable
//! sends and the retry cycle that retransmits a packet until its
//! acknowledgment arrives or the attempt budget runs out.
//!
//! The host loop owns the clock and the completion signals; the functions
//! here decide, for each observed event, what the next transmission and
//! table state are.

use vstd::prelude::*;

verus! {

use crate::packet::{spec_packet_bytes, Packet, PacketV};
use crate::header::HeaderV;

/// How many transmissions a reliable send may use before it fails.
pub const ACK_ATTEMPTS: u8 = 3;

/// How long the host loop waits for an acknowledgment after each
/// transmission, in milliseconds.
pub const ACK_TIMEOUT_MS: u64 = 1000;

/// Failure surfaced to the sender of one reliable packet; the session
/// itself is unaffected.
#[derive(Clone, Copy, Debug, PartialEq, Eq, Structural)]
pub enum ReliabilityError {
    /// The attempt budget ran out with no acknowledgment observed.
    AckTimeout,
}

/// The set of sequence numbers with an in-flight reliable send. The send
/// path registers a number before the first transmission; the receive
/// path removes it when a matching acknowledgment arrives; the retry
/// cycle removes it when the budget runs out.
#[derive(Debug)]
pub struct AckTable {
    pending: Vec<u32>,
}

impl View for AckTable {
    type V = Set<u32>;

    closed spec fn view(&self) -> Set<u32> {
        self.pending@.to_set()
    }
}

impl AckTable {
    /// The table's registered numbers are stored once each.
    pub closed spec fn wf(&self) -> bool {
        self.pending@.no_duplicates()
    }

    /// Creates an empty table.
    pub fn new() -> (r: AckTable)
        ensures
            r@ == Set::<u32>::empty(),
            r.wf(),
    {
        let r = AckTable { pending: Vec::new() };
        proof {
            assert(r@ =~= Set::<u32>::empty());
        }
        r
    }

    /// Position of `sequence_number` among the registered numbers.
    fn index_of(&self, sequence_number: u32) -> (r: Option<usize>)
        ensures
            match r {
                Some(i) => i < self.pending@.len() && self.pending@[i as int] == sequence_number,
                None => !self.pending@.contains(sequence_number),
            },
    {
        let n = self.pending.len();
        let mut i: usize = 0;
        while i < n
            invariant
                i <= n == self.pending@.len(),
                forall|j: int| 0 <= j < i ==> self.pending@[j] != sequence_number,
            decreases n - i,
        {
            if self.pending[i] == sequence_number {
                return Some(i);
            }
            i = i + 1;
        }
        None
    }

    /// Whether a reliable send is in flight under `sequence_number`.
    pub fn contains(&self, sequence_number: u32) -> (r: bool)
        ensures
            r == self@.contains(sequence_number),
    {
        match self.index_of(sequence_number) {
            Some(_) => true,
            None => false,
        }
    }

    /// Registers `sequence_number` as in flight. Registering a number
    /// twice leaves one entry.
    pub fn register(&mut self, sequence_number: u32)
        requires
            old(self).wf(),
        ensures
            final(self)@ == old(self)@.insert(sequence_number),
            final(self).wf(),
    {
        if !self.contains(sequence_number) {
            self.pending.push(sequence_number);
            proof {
                assert forall|j: int, k: int|
                    0 <= j < k < self.pending@.len() implies self.pending@[j]
                    != self.pending@[k] by {
                    if k < self.pending@.len() - 1 {
                        assert(old(self).pending@[j] != old(self).pending@[k]);
                    } else {
                        assert(old(self).pending@[j] == self.pending@[j]);
                        assert(!old(self).pending@.contains(sequence_number));
                    }
                }
                assert forall|x: u32|
                    self.pending@.contains(x) <==> (old(self).pending@.contains(x) || x
                    == sequence_number) by {
                    if self.pending@.contains(x) {
                        let k = choose|k: int|
                            0 <= k < self.pending@.len() && self.pending@[k] == x;
                        if k < old(self).pending@.len() {
                            assert(old(self).pending@[k] == x);
                        }
                    }
                    if old(self).pending@.contains(x) {
                        let k = choose|k: int|
                            0 <= k < old(self).pending@.len() && old(self).pending@[k] == x;
                        assert(self.pending@[k] == x);
                    }
                    if x == sequence_number {
                        assert(self.pending@[self.pending@.len() - 1] == x);
                    }
                }
            }
        }
        proof {
            assert(self@ =~= old(self)@.insert(sequence_number));
        }
    }

    /// Removes `sequence_number` and reports whether it was registered.
    /// An acknowledgment for an unregistered number is a harmless no-op:
    /// the local retry may already have given up.
    pub fn remove(&mut self, sequence_number: u32) -> (found: bool)
        requires
            old(self).wf(),
        ensures
            final(self)@ == old(self)@.remove(sequence_number),
            found == old(self)@.contains(sequence_number),
            final(self).wf(),
    {
        let idx = match self.index_of(sequence_number) {
            None => {
                proof {
                    assert(self@ =~= old(self)@.remove(sequence_number));
                }
                return false;
            },
            Some(i) => i,
        };
        self.pending.remove(idx);
        proof {
            let s_old = old(self).pending@;
            let s_new = self.pending@;
            let i = idx as int;
            s_old.remove_ensures(i);
            assert(s_old.contains(sequence_number));
            assert forall|x: u32| s_new.contains(x) implies s_old.contains(x) && x
                != sequence_number by {
                let k = choose|k: int| 0 <= k < s_new.len() && s_new[k] == x;
                let w = if k < i {
                    k
                } else {
                    k + 1
                };
                assert(s_old[w] == x);
                if x == sequence_number {
                    assert(s_old[w] == s_old[i] && w != i);
                }
            }
            assert forall|x: u32| s_old.contains(x) && x != sequence_number implies s_new.contains(
                x,
            ) by {
                let k = choose|k: int| 0 <= k < s_old.len() && s_old[k] == x;
                if k < i {
                    assert(s_new[k] == x);
                } else {
                    assert(s_new[k - 1] == x);
                }
            }
            assert(self@ =~= old(self)@.remove(sequence_number));
            assert forall|a: int, b: int| 0 <= a < b < s_new.len() implies s_new[a] != s_new[b] by {
                let a2 = if a < i {
                    a
                } else {
                    a + 1
                };
                let b2 = if b < i {
                    b
                } else {
                    b + 1
                };
                assert(s_new[a] == s_old[a2] && s_new[b] == s_old[b2]);
            }
        }
        true
    }
}

/// State of one reliable send's retry cycle.
#[derive(Clone, Copy, Debug, PartialEq, Eq, Structural)]
pub struct ReliableSend {
    /// The sequence number the send was registered under.
    pub sequence_number: u32,
    /// How many transmissions have timed out so far.
    pub attempts: u8,
}

/// What the host loop observed while waiting after one transmission.
#[derive(Clone, Copy, Debug, PartialEq, Eq, Structural)]
pub enum RetryEvent {
    /// The completion signal fired: the receive path matched an
    /// acknowledgment for this sequence number.
    AckReceived,
    /// The wait of `ACK_TIMEOUT_MS` elapsed first.
    TimedOut,
}

/// What the retry cycle decides after an event.
#[derive(Clone, Copy, Debug, PartialEq, Eq, Structural)]
pub enum RetryOutcome {
    /// The send completed; no further transmissions happen.
    Succeeded,
    /// Transmit the packet again, with the `resent` flag set, and wait
    /// again.
    Retransmit,
    /// The budget ran out; the send failed, and the error is surfaced to
    /// whoever awaits this send.
    Failed(ReliabilityError),
}

/// Decision of the retry cycle: an acknowledgment completes the send at
/// once, whatever attempt it arrives on; a timeout retransmits until the
/// budget of `ACK_ATTEMPTS` transmissions is spent, then fails.
pub open spec fn spec_retry_outcome(attempts_before: u8, event: RetryEvent) -> RetryOutcome {
    match event {
        RetryEvent::AckReceived => RetryOutcome::Succeeded,
        RetryEvent::TimedOut => if attempts_before + 1 < ACK_ATTEMPTS {
            RetryOutcome::Retransmit
        } else {
            RetryOutcome::Failed(ReliabilityError::AckTimeout)
        },
    }
}

/// Starts a reliable send: registers the packet's sequence number and
/// returns the retry state and the bytes of the first transmission.
pub fn reliable_send_start(table: &mut AckTable, packet: &Packet) -> (r: (ReliableSend, Vec<u8>))
    requires
        old(table).wf(),
        packet@.wf(),
    ensures
        final(table)@ == old(table)@.insert(packet@.header.sequence_number),
        final(table).wf(),
        r.0.sequence_number == packet@.header.sequence_number,
        r.0.attempts == 0,
        r.1@ == spec_packet_bytes(packet@),
{
    table.register(packet.header.sequence_number);
    let state = ReliableSend { sequence_number: packet.header.sequence_number, attempts: 0 };
    (state, packet.to_bytes())
}

/// Advances one reliable send after an observed event.
///
/// An acknowledgment succeeds at once and leaves the table alone: the
/// receive path already removed the entry when it matched the
/// acknowledgment. A timeout within budget counts the attempt and keeps
/// the entry registered for the retransmission; the final timeout removes
/// the entry, so no registration outlives its send.
pub fn reliable_send_step(
    table: &mut AckTable,
    state: &mut ReliableSend,
    event: RetryEvent,
) -> (r: RetryOutcome)
    requires
        old(table).wf(),
        old(state).attempts < ACK_ATTEMPTS,
    ensures
        r == spec_retry_outcome(old(state).attempts, event),
        final(state).sequence_number == old(state).sequence_number,
        final(table).wf(),
        event is AckReceived ==> *final(state) == *old(state) && final(table)@ == old(table)@,
        event is TimedOut ==> final(state).attempts == old(state).attempts + 1,
        r is Retransmit ==> final(table)@ == old(table)@.insert(old(state).sequence_number),
        r is Failed ==> final(table)@ == old(table)@.remove(old(state).sequence_number),
{
    match event {
        RetryEvent::AckReceived => RetryOutcome::Succeeded,
        RetryEvent::TimedOut => {
            state.attempts = state.attempts + 1;
            if state.attempts < ACK_ATTEMPTS {
                table.register(state.sequence_number);
                RetryOutcome::Retransmit
            } else {
                table.remove(state.sequence_number);
                RetryOutcome::Failed(ReliabilityError::AckTimeout)
            }
        },
    }
}

/// Bytes of a retransmission: the packet unchanged but for the header's
/// `resent` flag, which every attempt after the first carries.
pub fn retransmit_bytes(packet: &Packet) -> (r: Vec<u8>)
    requires
        packet@.wf(),
    ensures
        r@ == spec_packet_bytes(
            PacketV { header: HeaderV { resent: true, ..packet@.header }, body: packet@.body },
        ),
{
    packet.to_bytes_resent()
}

/// A reliable send whose acknowledgments never arrive fails after exactly
/// `ACK_ATTEMPTS` transmissions: the first two timeouts retransmit, the
/// third ends the send with `AckTimeout`, and the final step removes the
/// table entry (stated on `reliable_send_step`).
pub proof fn lemma_retry_exhaustion()
    ensures
        spec_retry_outcome(0, RetryEvent::TimedOut) == RetryOutcome::Retransmit,
        spec_retry_outcome(1, RetryEvent::TimedOut) == RetryOutcome::Retransmit,
        spec_retry_outcome(2, RetryEvent::TimedOut) == RetryOutcome::Failed(
            ReliabilityError::AckTimeout,
        ),
        forall|a: u8|
            spec_retry_outcome(a, RetryEvent::TimedOut) == RetryOutcome::Failed(
                ReliabilityError::AckTimeout,
            ) <==> a >= ACK_ATTEMPTS - 1,
{
}

/// A reliable send whose acknowledgment arrives completes successfully at
/// once, on whatever attempt it arrives, without waiting out the
/// remaining budget.
pub proof fn lemma_ack_completes_immediately(attempts_before: u8)
    ensures
        spec_retry_outcome(attempts_before, RetryEvent::AckReceived) == RetryOutcome::Succeeded,
{
}

} // verus!
