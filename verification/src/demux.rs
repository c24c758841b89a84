//! Demux driver: walks the container's packets in order and forwards into the
//! packet channel exactly those belonging to the selected video stream.
//!
//! The file reads themselves are the embedder's; the driver here decides, for
//! each read, whether the packet is forwarded, skipped, or — at end of stream
//! or on an unreadable container — whether the driver finishes and drops its
//! sending end, the signal the worker terminates on.

use crate::channel::Packet;
use vstd::prelude::*;

verus! {

/// What one sequential read of the container produced.
pub enum ReadEvent {
    /// The next packet, whatever stream it belongs to.
    Packet(Packet),
    /// The container is exhausted.
    EndOfStream,
    /// The container could not be read further; treated like exhaustion, the
    /// session ends rather than stall.
    ReadError,
}

/// The driver's decision for one read.
#[derive(Debug)]
pub enum DemuxAction {
    /// Send this packet into the packet channel (blocking while it is full).
    Forward(Packet),
    /// The packet belongs to another stream: drop it and read on.
    Skip,
    /// Reading is over: drop the channel sender and stop.
    Finish,
}

/// Sequential reader state: which stream index is selected, and whether
/// reading has ended.
pub struct DemuxDriver {
    video_stream_index: usize,
    finished: bool,
}

impl DemuxDriver {
    /// The index of the selected video stream.
    pub closed spec fn selected(self) -> int {
        self.video_stream_index as int
    }

    /// Whether the driver has stopped reading.
    pub closed spec fn is_finished(self) -> bool {
        self.finished
    }

    /// A driver that will forward packets of stream `video_stream_index`.
    pub fn new(video_stream_index: usize) -> (driver: Self)
        ensures
            driver.selected() == video_stream_index,
            !driver.is_finished(),
    {
        DemuxDriver { video_stream_index, finished: false }
    }

    /// Decides one read: a packet of the selected stream is forwarded, any
    /// other packet is skipped, and exhaustion or a read error finishes the
    /// driver; a finished driver forwards nothing more.
    pub fn on_read(&mut self, event: ReadEvent) -> (action: DemuxAction)
        ensures
            final (self).selected() == old(self).selected(),
            old(self).is_finished() ==> action is Finish && final (self).is_finished(),
            !old(self).is_finished() ==> match event {
                ReadEvent::Packet(packet) => {
                    &&& !final (self).is_finished()
                    &&& action == if packet.stream_index == old(self).selected() {
                        DemuxAction::Forward(packet)
                    } else {
                        DemuxAction::Skip
                    }
                },
                ReadEvent::EndOfStream => action is Finish && final (self).is_finished(),
                ReadEvent::ReadError => action is Finish && final (self).is_finished(),
            },
    {
        if self.finished {
            return DemuxAction::Finish;
        }
        match event {
            ReadEvent::Packet(packet) => {
                if packet.stream_index == self.video_stream_index {
                    DemuxAction::Forward(packet)
                } else {
                    DemuxAction::Skip
                }
            },
            ReadEvent::EndOfStream => {
                self.finished = true;
                DemuxAction::Finish
            },
            ReadEvent::ReadError => {
                self.finished = true;
                DemuxAction::Finish
            },
        }
    }
}

/// The packets of one stream, in container order: what the demux driver
/// forwards out of a whole container.
pub open spec fn selected_packets(container: Seq<Packet>, stream_index: int) -> Seq<Packet>
    decreases container.len(),
{
    if container.len() == 0 {
        Seq::empty()
    } else {
        (if container.first().stream_index == stream_index {
            seq![container.first()]
        } else {
            Seq::empty()
        }) + selected_packets(container.drop_first(), stream_index)
    }
}

/// Filters a whole container down to the selected stream's packets, keeping
/// container order — exactly the sequence the demux driver forwards.
pub fn filter_container(container: Vec<Packet>, video_stream_index: usize) -> (selected: Vec<
    Packet,
>)
    ensures
        selected@ == selected_packets(container@, video_stream_index as int),
{
    let index = video_stream_index;
    let mut rest = container;
    let ghost all = rest@;
    let mut selected: Vec<Packet> = Vec::new();
    while rest.len() > 0
        invariant
            selected_packets(all, index as int) == selected@ + selected_packets(
                rest@,
                index as int,
            ),
        decreases rest.len(),
    {
        let ghost rest_old = rest@;
        let ghost selected_old = selected@;
        let packet = rest.remove(0);
        proof {
            assert(rest_old.first() == packet);
            assert(rest_old.drop_first() =~= rest@);
        }
        if packet.stream_index == index {
            selected.push(packet);
            proof {
                assert(selected_old + selected_packets(rest_old, index as int) =~= selected@
                    + selected_packets(rest@, index as int));
            }
        } else {
            proof {
                assert(selected_old + selected_packets(rest_old, index as int) =~= selected@
                    + selected_packets(rest@, index as int));
            }
        }
    }
    proof {
        assert(selected_packets(all, index as int) =~= selected@);
    }
    selected
}

} // verus!
