//! Decoder worker: the state machine that drives the decode thread.
//!
//! The thread itself, the codec and the real OS channels live with the
//! embedder; every decision the thread takes — which lifecycle state follows
//! a control command, when to take a packet, when to exit, what to do when a
//! control message lands in the middle of a pacing wait, which errors stop
//! the session — is a function here, with its transition stated exactly.

use crate::channel::{Packet, PacketChannel, SendOutcome};
use crate::host::PlayerError;
use vstd::prelude::*;

verus! {

/// Lifecycle directive sent into the running pipeline.
#[derive(Clone, Copy, Debug, PartialEq, Eq, Structural)]
pub enum ControlCommand {
    Play,
    Pause,
    Stop,
}

/// Lifecycle state of the decoder worker.
#[derive(Clone, Copy, Debug, PartialEq, Eq, Structural)]
pub enum WorkerState {
    /// Constructed; no packet consumed yet.
    Idle,
    /// Consuming packets, decoding and delivering frames.
    Playing,
    /// Packet consumption suspended; the thread stays alive and the display
    /// buffer stays frozen on the last delivered frame.
    Paused,
    /// The absorbing final state: no further command is accepted and the
    /// thread exits promptly.
    Terminated,
}

/// The worker's state machine: `Play` resumes, `Pause` suspends, `Stop`
/// terminates, and `Terminated` absorbs every command.
pub open spec fn control_transition(state: WorkerState, command: ControlCommand) -> WorkerState {
    match state {
        WorkerState::Terminated => WorkerState::Terminated,
        _ => match command {
            ControlCommand::Play => WorkerState::Playing,
            ControlCommand::Pause => WorkerState::Paused,
            ControlCommand::Stop => WorkerState::Terminated,
        },
    }
}

/// Terminated is absorbing: once the worker has terminated, no command moves
/// it anywhere else.
pub proof fn lemma_terminated_absorbing(command: ControlCommand)
    ensures
        control_transition(WorkerState::Terminated, command) == WorkerState::Terminated,
{
}

/// What the worker loop must do next.
pub enum WorkerStep {
    /// Feed this packet to the codec and drain the frames it yields.
    Decode(Packet),
    /// Idle or paused: block on the control channel alone; no packet is
    /// consumed and the display buffer stays as it is.
    WaitControl,
    /// Playing with an empty channel: wait for a packet, still observing
    /// control messages.
    WaitPacket,
    /// Terminated: leave the loop.
    Exit,
}

/// What reached the worker while it was pacing a frame.
pub enum PacingEvent {
    /// A control message interrupted the wait.
    ControlArrived(ControlCommand),
    /// The full pacing delay passed with no interruption.
    DelayElapsed,
}

/// What to do with the already-decoded frame after a pacing wait ends.
pub enum PacingStep {
    /// Present the frame now.
    Deliver,
    /// Keep waiting out the remaining delay.
    KeepWaiting,
    /// Exit without presenting the frame.
    Abandon,
}

/// The decoder worker's decision state: its lifecycle state and the packet
/// channel it consumes. The embedder owns the thread and the codec and calls
/// in here for every decision.
pub struct VideoDecoder {
    state: WorkerState,
    channel: PacketChannel,
}

impl VideoDecoder {
    /// The worker's lifecycle state.
    pub closed spec fn state_spec(self) -> WorkerState {
        self.state
    }

    /// The packets queued for decode, oldest first.
    pub closed spec fn queued(self) -> Seq<Packet> {
        self.channel.view()
    }

    /// The packet channel's fixed capacity.
    pub closed spec fn cap(self) -> int {
        self.channel.cap()
    }

    /// Whether the demux driver still holds the sending end.
    pub closed spec fn sender_attached(self) -> bool {
        self.channel.sender_attached()
    }

    /// The channel respects its capacity, and its receiving end is held
    /// exactly as long as the worker has not terminated.
    pub closed spec fn inv(self) -> bool {
        &&& self.channel.inv()
        &&& self.channel.receiver_attached() <==> !(self.state is Terminated)
    }

    /// The worker's lifecycle state, for the embedder's loop.
    pub fn state(&self) -> (state: WorkerState)
        ensures
            state == self.state_spec(),
    {
        self.state
    }

    /// How many packets are queued for decode.
    pub fn queue_len(&self) -> (n: usize)
        ensures
            n == self.queued().len(),
    {
        self.channel.len()
    }

    /// A worker bound to a fresh packet channel of the given capacity,
    /// playing from the start.
    pub fn start(capacity: usize) -> (worker: Self)
        requires
            capacity >= 1,
        ensures
            worker.inv(),
            worker.state_spec() is Playing,
            worker.queued() == Seq::<Packet>::empty(),
            worker.cap() == capacity,
            worker.sender_attached(),
    {
        VideoDecoder { state: WorkerState::Playing, channel: PacketChannel::new(capacity) }
    }

    /// The producer side: offers one packet to the worker's channel. The
    /// packet is queued exactly when the worker is alive and the channel has
    /// room; a full channel hands it back (`Full`) so the producer blocks
    /// rather than drop it, and a terminated worker hands it back (`Closed`).
    pub fn receive_packet(&mut self, packet: Packet) -> (outcome: SendOutcome)
        requires
            old(self).inv(),
        ensures
            final (self).inv(),
            final (self).state_spec() == old(self).state_spec(),
            final (self).cap() == old(self).cap(),
            final (self).sender_attached() == old(self).sender_attached(),
            old(self).state_spec() is Terminated ==> outcome == SendOutcome::Closed(packet)
                && final (self).queued() == old(self).queued(),
            !(old(self).state_spec() is Terminated) && old(self).queued().len() == old(self).cap()
                ==> outcome == SendOutcome::Full(packet) && final (self).queued() == old(
                self,
            ).queued(),
            !(old(self).state_spec() is Terminated) && old(self).queued().len() < old(self).cap()
                ==> outcome == SendOutcome::Sent && final (self).queued() == old(
                self,
            ).queued().push(packet),
    {
        self.channel.try_send(packet)
    }

    /// The demux driver dropped its sending end: the container is exhausted
    /// or unreadable. Queued packets stay deliverable; once they run out the
    /// worker will observe the disconnect and terminate.
    pub fn end_of_input(&mut self)
        requires
            old(self).inv(),
        ensures
            final (self).inv(),
            final (self).state_spec() == old(self).state_spec(),
            final (self).queued() == old(self).queued(),
            final (self).cap() == old(self).cap(),
            !final (self).sender_attached(),
    {
        self.channel.close_sender();
    }

    /// Applies one control command: the new state is exactly
    /// `control_transition` of the old state and the command; the queue is
    /// untouched.
    pub fn send_control_message(&mut self, message: ControlCommand)
        requires
            old(self).inv(),
        ensures
            final (self).inv(),
            final (self).state_spec() == control_transition(old(self).state_spec(), message),
            final (self).queued() == old(self).queued(),
            final (self).cap() == old(self).cap(),
            final (self).sender_attached() == old(self).sender_attached(),
    {
        let next = match self.state {
            WorkerState::Terminated => WorkerState::Terminated,
            _ => match message {
                ControlCommand::Play => WorkerState::Playing,
                ControlCommand::Pause => WorkerState::Paused,
                ControlCommand::Stop => WorkerState::Terminated,
            },
        };
        if matches!(next, WorkerState::Terminated) && !matches!(
            self.state,
            WorkerState::Terminated,
        ) {
            self.channel.close_receiver();
        }
        self.state = next;
    }

    /// One iteration of the worker loop, after control messages have been
    /// applied: a terminated worker exits; an idle or paused worker consumes
    /// nothing and waits on control alone; a playing worker takes the oldest
    /// queued packet for decode, waits when the channel is merely empty, and
    /// — the channel disconnected and drained — terminates and exits as its
    /// normal end, with nothing to report.
    pub fn next_step(&mut self) -> (step: WorkerStep)
        requires
            old(self).inv(),
        ensures
            final (self).inv(),
            final (self).cap() == old(self).cap(),
            final (self).sender_attached() == old(self).sender_attached(),
            old(self).state_spec() is Terminated ==> step == WorkerStep::Exit && final (self).state_spec() == old(self).state_spec()
                && final (self).queued() == old(self).queued(),
            (old(self).state_spec() is Idle || old(self).state_spec() is Paused) ==> step
                == WorkerStep::WaitControl && final (self).state_spec() == old(self).state_spec() && final (self).queued()
                == old(self).queued(),
            old(self).state_spec() is Playing && old(self).queued().len() > 0 ==> step
                == WorkerStep::Decode(old(self).queued()[0]) && final (self).state_spec()
                is Playing && final (self).queued() == old(self).queued().drop_first(),
            old(self).state_spec() is Playing && old(self).queued().len() == 0 && old(
                self,
            ).sender_attached() ==> step == WorkerStep::WaitPacket && final (self).state_spec() == old(self).state_spec() && final (self).queued()
                == old(self).queued(),
            old(self).state_spec() is Playing && old(self).queued().len() == 0 && !old(
                self,
            ).sender_attached() ==> step == WorkerStep::Exit && final (self).state_spec()
                is Terminated && final (self).queued() == old(self).queued(),
    {
        match self.state {
            WorkerState::Terminated => WorkerStep::Exit,
            WorkerState::Idle => WorkerStep::WaitControl,
            WorkerState::Paused => WorkerStep::WaitControl,
            WorkerState::Playing => {
                match self.channel.try_recv() {
                    crate::channel::RecvOutcome::Received(packet) => WorkerStep::Decode(packet),
                    crate::channel::RecvOutcome::Empty => WorkerStep::WaitPacket,
                    crate::channel::RecvOutcome::Disconnected => {
                        self.channel.close_receiver();
                        self.state = WorkerState::Terminated;
                        WorkerStep::Exit
                    },
                }
            },
        }
    }

    /// Resolves a pacing wait. The wait is an interruptible timed wait keyed
    /// on the control channel, so a command arriving mid-wait acts at once:
    /// `Stop` terminates and abandons the frame without waiting out the
    /// delay; `Pause` presents the already-converted frame and then holds;
    /// `Play` keeps waiting out the remaining delay. An uninterrupted wait
    /// delivers the frame.
    pub fn pacing_wait(&mut self, event: PacingEvent) -> (step: PacingStep)
        requires
            old(self).inv(),
        ensures
            final (self).inv(),
            final (self).queued() == old(self).queued(),
            final (self).cap() == old(self).cap(),
            final (self).sender_attached() == old(self).sender_attached(),
            event is DelayElapsed ==> final (self).state_spec() == old(self).state_spec() && (step
                == if old(
                self,
            ).state_spec() is Terminated {
                PacingStep::Abandon
            } else {
                PacingStep::Deliver
            }),
            event matches PacingEvent::ControlArrived(command) ==> {
                &&& final (self).state_spec() == control_transition(
                    old(self).state_spec(),
                    command,
                )
                &&& step == (match final (self).state_spec() {
                    WorkerState::Terminated => PacingStep::Abandon,
                    WorkerState::Paused => PacingStep::Deliver,
                    _ => PacingStep::KeepWaiting,
                })
            },
            event == PacingEvent::ControlArrived(ControlCommand::Stop) ==> step
                == PacingStep::Abandon && final (self).state_spec() is Terminated,
    {
        match event {
            PacingEvent::DelayElapsed => {
                if matches!(self.state, WorkerState::Terminated) {
                    PacingStep::Abandon
                } else {
                    PacingStep::Deliver
                }
            },
            PacingEvent::ControlArrived(command) => {
                self.send_control_message(command);
                match self.state {
                    WorkerState::Terminated => PacingStep::Abandon,
                    WorkerState::Paused => PacingStep::Deliver,
                    _ => PacingStep::KeepWaiting,
                }
            },
        }
    }

    /// Applies the failure policy to an error met while decoding: a packet
    /// that would not decode is reported and skipped, the worker playing on;
    /// a closed channel ends the session silently; anything else is fatal —
    /// the worker terminates and the error is reported once.
    pub fn absorb_error(&mut self, error: &PlayerError) -> (report: bool)
        requires
            old(self).inv(),
        ensures
            final (self).inv(),
            final (self).queued() == old(self).queued(),
            final (self).cap() == old(self).cap(),
            final (self).sender_attached() == old(self).sender_attached(),
            final (self).state_spec() == if error is DecodeError {
                old(self).state_spec()
            } else {
                WorkerState::Terminated
            },
            report == !(error is ChannelClosed),
    {
        match error {
            PlayerError::DecodeError => true,
            PlayerError::ChannelClosed => {
                self.terminate();
                false
            },
            _ => {
                self.terminate();
                true
            },
        }
    }

    /// Moves to the absorbing final state and releases the receiving end.
    fn terminate(&mut self)
        requires
            old(self).inv(),
        ensures
            final (self).inv(),
            final (self).state_spec() is Terminated,
            final (self).queued() == old(self).queued(),
            final (self).cap() == old(self).cap(),
            final (self).sender_attached() == old(self).sender_attached(),
    {
        if !matches!(self.state, WorkerState::Terminated) {
            self.channel.close_receiver();
        }
        self.state = WorkerState::Terminated;
    }
}

} // verus!
