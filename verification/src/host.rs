//! Playback host concerns: the error taxonomy and how each kind propagates,
//! selection of the video stream a container offers, construction of the
//! stream clock, and the shared display slot the renderer reads.

use crate::clock::StreamClock;
use crate::frame::DisplayBuffer;
use vstd::prelude::*;

verus! {

/// Everything that can go wrong in the pipeline, by kind.
#[derive(Clone, Copy, Debug, PartialEq, Eq, Structural)]
pub enum PlayerError {
    /// The file is missing, unreadable, or not a recognized container.
    OpenError,
    /// The container holds no usable video stream.
    UnsupportedStreamError,
    /// No codec could be instantiated for the stream's parameters.
    DecoderInitError,
    /// One packet failed to decode; playback continues with the next.
    DecodeError,
    /// The packet channel closed: the normal termination signal, no failure.
    ChannelClosed,
}

impl PlayerError {
    /// Errors surfaced synchronously by `open`, before any thread is
    /// considered running.
    pub fn is_fatal_at_open(&self) -> (fatal: bool)
        ensures
            fatal == (self is OpenError || self is UnsupportedStreamError
                || self is DecoderInitError),
    {
        match self {
            PlayerError::OpenError => true,
            PlayerError::UnsupportedStreamError => true,
            PlayerError::DecoderInitError => true,
            PlayerError::DecodeError => false,
            PlayerError::ChannelClosed => false,
        }
    }

    /// The one error the worker recovers from locally, keeping playback
    /// going: a single packet that would not decode.
    pub fn is_recoverable(&self) -> (recoverable: bool)
        ensures
            recoverable == (self is DecodeError),
    {
        match self {
            PlayerError::DecodeError => true,
            _ => false,
        }
    }

    /// The normal way a playback session ends; never reported to the user.
    pub fn is_normal_termination(&self) -> (normal: bool)
        ensures
            normal == (self is ChannelClosed),
    {
        match self {
            PlayerError::ChannelClosed => true,
            _ => false,
        }
    }
}

/// What a container stream carries.
#[derive(Clone, Copy, Debug, PartialEq, Eq, Structural)]
pub enum MediaKind {
    Video,
    Audio,
    Other,
}

/// The parameters of one container stream that the host reads: what it
/// carries and its rational time base, in seconds per tick.
#[derive(Clone, Copy, Debug, PartialEq, Eq, Structural)]
pub struct StreamInfo {
    pub kind: MediaKind,
    pub time_base_num: u32,
    pub time_base_den: u32,
}

/// No stream of the container carries video.
pub open spec fn no_video(streams: Seq<StreamInfo>) -> bool {
    forall|j: int| 0 <= j < streams.len() ==> !(streams[j].kind is Video)
}

/// Position `i` holds the container's first video stream.
pub open spec fn first_video(streams: Seq<StreamInfo>, i: int) -> bool {
    &&& 0 <= i < streams.len()
    &&& streams[i].kind is Video
    &&& forall|j: int| 0 <= j < i ==> !(streams[j].kind is Video)
}

/// Picks the video stream to play: the first video stream of the container,
/// or nothing when the container has none.
pub fn select_best_stream(streams: &Vec<StreamInfo>) -> (selected: Option<usize>)
    ensures
        match selected {
            Some(i) => first_video(streams@, i as int),
            None => no_video(streams@),
        },
{
    let n = streams.len();
    let mut i: usize = 0;
    while i < n
        invariant
            n == streams@.len(),
            i <= n,
            forall|j: int| 0 <= j < i ==> !(streams@[j].kind is Video),
        decreases n - i,
    {
        if matches!(streams[i].kind, MediaKind::Video) {
            return Some(i);
        }
        i += 1;
    }
    None
}

/// A stream the host opened: which stream index the demux driver must select
/// and the clock that paces its frames.
#[derive(Clone, Copy, Debug)]
pub struct OpenedStream {
    pub stream_index: usize,
    pub clock: StreamClock,
}

/// Opens a container's streams for playback: selects the first video stream
/// and builds the stream's clock from its time base. Fails with
/// `UnsupportedStreamError` exactly when the container has no video stream,
/// and with `DecoderInitError` exactly when the selected stream's time base
/// is degenerate (a zero denominator), so that success is owed on every
/// container whose first video stream has a rational time base.
pub fn open_stream(streams: &Vec<StreamInfo>) -> (outcome: Result<OpenedStream, PlayerError>)
    ensures
        outcome is Ok <==> exists|i: int|
            first_video(streams@, i) && streams@[i].time_base_den > 0,
        outcome == Result::<OpenedStream, PlayerError>::Err(PlayerError::UnsupportedStreamError)
            <==> no_video(streams@),
        outcome == Result::<OpenedStream, PlayerError>::Err(PlayerError::DecoderInitError) <==> (
        exists|i: int| first_video(streams@, i) && streams@[i].time_base_den == 0),
        outcome matches Ok(opened) ==> {
            &&& first_video(streams@, opened.stream_index as int)
            &&& opened.clock.wf()
            &&& opened.clock.num() == streams@[opened.stream_index as int].time_base_num
            &&& opened.clock.den() == streams@[opened.stream_index as int].time_base_den
        },
{
    proof {
        assert(forall|i: int, j: int|
            first_video(streams@, i) && first_video(streams@, j) ==> i == j);
    }
    match select_best_stream(streams) {
        None => Err(PlayerError::UnsupportedStreamError),
        Some(i) => {
            let info = streams[i];
            if info.time_base_den == 0 {
                Err(PlayerError::DecoderInitError)
            } else {
                Ok(
                    OpenedStream {
                        stream_index: i,
                        clock: StreamClock::new(info.time_base_num, info.time_base_den),
                    },
                )
            }
        },
    }
}

/// The shared display slot: the one place the decoder worker writes finished
/// frames and the renderer reads them. Replacement is whole-buffer — a reader
/// can never observe a partially written frame.
pub struct DisplaySlot {
    current: DisplayBuffer,
}

impl DisplaySlot {
    /// The buffer a reader sees right now.
    pub closed spec fn current_spec(self) -> DisplayBuffer {
        self.current
    }

    /// A slot showing the given initial picture until the first frame lands.
    pub fn new(initial: DisplayBuffer) -> (slot: Self)
        ensures
            slot.current_spec() == initial,
    {
        DisplaySlot { current: initial }
    }

    /// Swaps in a whole new frame; the previous buffer is discarded in one
    /// step, never mutated in place.
    pub fn publish(&mut self, buffer: DisplayBuffer)
        ensures
            final (self).current_spec() == buffer,
    {
        self.current = buffer;
    }

    /// Read-only snapshot for the renderer.
    pub fn current_frame(&self) -> (buffer: &DisplayBuffer)
        ensures
            *buffer == self.current_spec(),
    {
        &self.current
    }
}

} // verus!
