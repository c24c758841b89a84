//! Packet channel: bounded, ordered hand-off of compressed packets from the
//! demux driver to the decoder worker.
//!
//! The exec type models one end-to-end queue with a fixed capacity and a flag
//! for each dropped end; a full channel refuses a packet by handing it back,
//! so the producer can only wait — nothing is ever dropped. The spec-level
//! trace model at the bottom states that law for every interleaving of sends
//! and receives.

use vstd::prelude::*;

verus! {

/// One compressed access unit read from the container: the index of the
/// stream it belongs to, its compressed bytes, and its optional decode and
/// presentation timestamps.
#[derive(Debug)]
pub struct Packet {
    pub stream_index: usize,
    pub data: Vec<u8>,
    pub pts: Option<i64>,
    pub dts: Option<i64>,
}

/// What became of a packet handed to `try_send`.
pub enum SendOutcome {
    /// The packet was queued.
    Sent,
    /// The channel is at capacity; the packet comes back untouched and the
    /// producer must wait — backpressure, never loss.
    Full(Packet),
    /// The receiving end is gone; the packet comes back untouched.
    Closed(Packet),
}

/// What a call to `try_recv` found.
pub enum RecvOutcome {
    /// The oldest queued packet.
    Received(Packet),
    /// Nothing queued, but the sender may still deliver more.
    Empty,
    /// Nothing queued and the sending end is gone: normal end of the stream.
    Disconnected,
}

/// Bounded single-producer/single-consumer packet queue, oldest packet first.
pub struct PacketChannel {
    queue: Vec<Packet>,
    capacity: usize,
    sender_open: bool,
    receiver_open: bool,
}

impl PacketChannel {
    /// The queued packets, in arrival order.
    pub closed spec fn view(self) -> Seq<Packet> {
        self.queue@
    }

    /// The fixed capacity the channel was created with.
    pub closed spec fn cap(self) -> int {
        self.capacity as int
    }

    /// Whether the sending end is still attached.
    pub closed spec fn sender_attached(self) -> bool {
        self.sender_open
    }

    /// Whether the receiving end is still attached.
    pub closed spec fn receiver_attached(self) -> bool {
        self.receiver_open
    }

    /// The channel never holds more packets than its capacity.
    pub open spec fn inv(self) -> bool {
        &&& self.view().len() <= self.cap()
        &&& self.cap() >= 1
    }

    /// A fresh, empty channel with both ends attached.
    pub fn new(capacity: usize) -> (chan: Self)
        requires
            capacity >= 1,
        ensures
            chan.inv(),
            chan.view() == Seq::<Packet>::empty(),
            chan.cap() == capacity,
            chan.sender_attached(),
            chan.receiver_attached(),
    {
        PacketChannel { queue: Vec::new(), capacity, sender_open: true, receiver_open: true }
    }

    /// How many packets are queued.
    pub fn len(&self) -> (n: usize)
        ensures
            n == self.view().len(),
    {
        self.queue.len()
    }

    /// Offers a packet to the channel. It is queued exactly when the receiver
    /// is attached and there is room; otherwise the same packet comes back,
    /// marked `Full` (producer must wait) or `Closed` (receiver gone), and
    /// the queue is untouched. No outcome loses a packet.
    pub fn try_send(&mut self, packet: Packet) -> (outcome: SendOutcome)
        requires
            old(self).inv(),
        ensures
            final(self).inv(),
            final(self).cap() == old(self).cap(),
            final(self).sender_attached() == old(self).sender_attached(),
            final(self).receiver_attached() == old(self).receiver_attached(),
            !old(self).receiver_attached() ==> outcome == SendOutcome::Closed(packet)
                && final(self).view() == old(self).view(),
            old(self).receiver_attached() && old(self).view().len() == old(self).cap()
                ==> outcome == SendOutcome::Full(packet) && final(self).view() == old(self).view(),
            old(self).receiver_attached() && old(self).view().len() < old(self).cap()
                ==> outcome == SendOutcome::Sent && final(self).view() == old(self).view().push(
                packet,
            ),
    {
        if !self.receiver_open {
            SendOutcome::Closed(packet)
        } else if self.queue.len() == self.capacity {
            SendOutcome::Full(packet)
        } else {
            self.queue.push(packet);
            SendOutcome::Sent
        }
    }

    /// Takes the oldest queued packet, if any. An empty channel reports
    /// `Empty` while the sender is attached, and `Disconnected` — the normal
    /// termination signal — once it is gone.
    pub fn try_recv(&mut self) -> (outcome: RecvOutcome)
        requires
            old(self).inv(),
        ensures
            final(self).inv(),
            final(self).cap() == old(self).cap(),
            final(self).sender_attached() == old(self).sender_attached(),
            final(self).receiver_attached() == old(self).receiver_attached(),
            old(self).view().len() > 0 ==> outcome == RecvOutcome::Received(old(self).view()[0])
                && final(self).view() == old(self).view().drop_first(),
            old(self).view().len() == 0 && old(self).sender_attached() ==> outcome
                == RecvOutcome::Empty && final(self).view() == old(self).view(),
            old(self).view().len() == 0 && !old(self).sender_attached() ==> outcome
                == RecvOutcome::Disconnected && final(self).view() == old(self).view(),
    {
        if self.queue.len() > 0 {
            let packet = self.queue.remove(0);
            RecvOutcome::Received(packet)
        } else if self.sender_open {
            RecvOutcome::Empty
        } else {
            RecvOutcome::Disconnected
        }
    }

    /// The demux driver drops its sending end when the container is
    /// exhausted; already-queued packets stay deliverable.
    pub fn close_sender(&mut self)
        requires
            old(self).inv(),
        ensures
            final(self).inv(),
            final(self).view() == old(self).view(),
            final(self).cap() == old(self).cap(),
            !final(self).sender_attached(),
            final(self).receiver_attached() == old(self).receiver_attached(),
    {
        self.sender_open = false;
    }

    /// The worker drops its receiving end when it terminates; senders then
    /// get every further packet back as `Closed`.
    pub fn close_receiver(&mut self)
        requires
            old(self).inv(),
        ensures
            final(self).inv(),
            final(self).view() == old(self).view(),
            final(self).cap() == old(self).cap(),
            final(self).sender_attached() == old(self).sender_attached(),
            !final(self).receiver_attached(),
    {
        self.receiver_open = false;
    }
}

/// Spec-level state of the producer/channel/consumer pipeline: what the demux
/// driver still has to send, what sits in the channel, and what the worker
/// has already taken, each in order.
pub struct PipeState {
    pub pending: Seq<Packet>,
    pub queued: Seq<Packet>,
    pub delivered: Seq<Packet>,
}

/// One scheduling choice: the producer tries to send, or the consumer tries
/// to receive.
pub enum PipeOp {
    Send,
    Recv,
}

/// Every packet the pipeline knows of, in stream order.
pub open spec fn pipe_stream(s: PipeState) -> Seq<Packet> {
    s.delivered + s.queued + s.pending
}

/// One step of the pipeline. A send moves the producer's next packet into the
/// channel only if there is room: against a full channel the producer blocks
/// and the state is unchanged — the packet is never dropped. A receive moves
/// the oldest queued packet to the consumer.
pub open spec fn pipe_step(s: PipeState, cap: int, op: PipeOp) -> PipeState {
    match op {
        PipeOp::Send => {
            if s.pending.len() > 0 && s.queued.len() < cap {
                PipeState {
                    pending: s.pending.drop_first(),
                    queued: s.queued.push(s.pending.first()),
                    delivered: s.delivered,
                }
            } else {
                s
            }
        },
        PipeOp::Recv => {
            if s.queued.len() > 0 {
                PipeState {
                    pending: s.pending,
                    queued: s.queued.drop_first(),
                    delivered: s.delivered.push(s.queued.first()),
                }
            } else {
                s
            }
        },
    }
}

/// The pipeline after a whole schedule of steps.
pub open spec fn pipe_run(s: PipeState, cap: int, ops: Seq<PipeOp>) -> PipeState
    decreases ops.len(),
{
    if ops.len() == 0 {
        s
    } else {
        pipe_run(pipe_step(s, cap, ops.first()), cap, ops.drop_first())
    }
}

/// One step neither loses nor reorders packets, and keeps the channel within
/// its capacity.
proof fn lemma_pipe_step_conserves(s: PipeState, cap: int, op: PipeOp)
    ensures
        pipe_stream(pipe_step(s, cap, op)) == pipe_stream(s),
        s.queued.len() <= cap ==> pipe_step(s, cap, op).queued.len() <= cap,
        s.delivered.is_prefix_of(pipe_step(s, cap, op).delivered),
{
    let s2 = pipe_step(s, cap, op);
    match op {
        PipeOp::Send => {
            if s.pending.len() > 0 && s.queued.len() < cap {
                assert(s.pending =~= seq![s.pending.first()] + s.pending.drop_first());
                assert(pipe_stream(s2) =~= pipe_stream(s));
            }
        },
        PipeOp::Recv => {
            if s.queued.len() > 0 {
                assert(s.queued =~= seq![s.queued.first()] + s.queued.drop_first());
                assert(pipe_stream(s2) =~= pipe_stream(s));
            }
        },
    }
    assert(s.delivered.is_prefix_of(s2.delivered));
}

/// Backpressure loses no packet: under any schedule of sends and receives, a
/// full channel only ever blocks the producer, so what has been delivered,
/// what is queued and what is still pending always add back up to the
/// original packet sequence, in the original order; the channel never exceeds
/// its capacity; and delivery only ever extends what was delivered before.
pub proof fn lemma_no_packet_loss(s: PipeState, cap: int, ops: Seq<PipeOp>)
    ensures
        pipe_stream(pipe_run(s, cap, ops)) == pipe_stream(s),
        s.queued.len() <= cap ==> pipe_run(s, cap, ops).queued.len() <= cap,
        s.delivered.is_prefix_of(pipe_run(s, cap, ops).delivered),
    decreases ops.len(),
{
    if ops.len() == 0 {
    } else {
        let s2 = pipe_step(s, cap, ops.first());
        lemma_pipe_step_conserves(s, cap, ops.first());
        lemma_no_packet_loss(s2, cap, ops.drop_first());
        assert(s.delivered.is_prefix_of(pipe_run(s, cap, ops).delivered));
    }
}

/// Delivery order is stream order: whatever the schedule, the packets the
/// consumer has taken are exactly a prefix of the full original sequence.
pub proof fn lemma_delivery_in_order(s: PipeState, cap: int, ops: Seq<PipeOp>)
    requires
        s.delivered.len() == 0,
        s.queued.len() == 0,
    ensures
        pipe_run(s, cap, ops).delivered.is_prefix_of(pipe_stream(s)),
{
    lemma_no_packet_loss(s, cap, ops);
    let s2 = pipe_run(s, cap, ops);
    assert(pipe_stream(s2) == pipe_stream(s));
    assert(s2.delivered.is_prefix_of(pipe_stream(s2)));
}

} // verus!
