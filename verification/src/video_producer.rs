//! The video decode producer's decisions.
//!
//! The producer's thread reads packets, decodes and scales them, and pushes
//! the frames onto the frame queue. What it does next is decided here, from
//! what it last learned: whether the queue has room, which stream the next
//! packet belongs to, that the stream ended, or that a step failed. It reads
//! a packet only after it has seen room in the queue, so a frame is never
//! decoded with nowhere to go, and it takes the queue's lock only to look.

use vstd::prelude::*;
use crate::error::PlaybackError;
use crate::frame_queue::FrameQueue;

verus! {

/// Where the video decode producer stands.
#[derive(Clone, Copy, Debug, PartialEq, Eq, Structural)]
pub enum VideoPhase {
    /// It has to look at the queue before it reads on.
    AwaitingRoom,
    /// It has seen room in the queue and asked for the next packet.
    AwaitingPacket,
    /// The stream has ended; nothing more is pushed.
    Finished,
    /// A step failed; the thread is over.
    Failed,
}

/// What the producer's thread reports back.
#[derive(Clone, Copy, Debug, PartialEq, Eq, Structural)]
pub enum VideoEvent {
    /// It looked at the queue: whether there is room for one more frame.
    Room(bool),
    /// It read a packet, which belongs to the stream of this index.
    Packet(usize),
    /// The container has no more packets.
    EndOfStream,
    /// Reading, decoding or scaling failed.
    Failure(PlaybackError),
}

/// What the producer's thread is to do next.
#[derive(Clone, Copy, Debug, PartialEq, Eq, Structural)]
pub enum VideoAction {
    /// Let go of the queue, idle a moment, then look at the queue again.
    Idle,
    /// Read the next packet from the container.
    ReadPacket,
    /// Decode the packet, scale the frame, push it, then look at the queue.
    DecodeAndPush,
    /// Look at the queue.
    CheckQueue,
    /// Push nothing more.
    Stop,
    /// Report the failure and end the thread.
    Abort(PlaybackError),
}

/// The producer's phase after an event, for a producer that decodes the stream
/// of index `stream`.
pub open spec fn video_next_phase(phase: VideoPhase, event: VideoEvent) -> VideoPhase {
    match phase {
        VideoPhase::Finished => VideoPhase::Finished,
        VideoPhase::Failed => VideoPhase::Failed,
        _ => match event {
            VideoEvent::Room(true) => VideoPhase::AwaitingPacket,
            VideoEvent::Room(false) => VideoPhase::AwaitingRoom,
            VideoEvent::Packet(_) => VideoPhase::AwaitingRoom,
            VideoEvent::EndOfStream => if phase == VideoPhase::AwaitingPacket {
                VideoPhase::Finished
            } else {
                VideoPhase::AwaitingRoom
            },
            VideoEvent::Failure(_) => VideoPhase::Failed,
        },
    }
}

/// What the producer asks for after an event. A packet is decoded only if it
/// was asked for and belongs to the producer's stream; an end of stream counts
/// only if a packet was asked for.
pub open spec fn video_action(phase: VideoPhase, stream: usize, event: VideoEvent)
    -> VideoAction {
    match phase {
        VideoPhase::Finished | VideoPhase::Failed => VideoAction::Stop,
        _ => match event {
            VideoEvent::Room(true) => VideoAction::ReadPacket,
            VideoEvent::Room(false) => VideoAction::Idle,
            VideoEvent::Packet(index) => if phase == VideoPhase::AwaitingPacket && index
                == stream {
                VideoAction::DecodeAndPush
            } else {
                VideoAction::CheckQueue
            },
            VideoEvent::EndOfStream => if phase == VideoPhase::AwaitingPacket {
                VideoAction::Stop
            } else {
                VideoAction::CheckQueue
            },
            VideoEvent::Failure(error) => VideoAction::Abort(error),
        },
    }
}

/// The video decode producer's state: the stream it decodes and its phase.
#[derive(Clone, Copy, Debug)]
pub struct VideoProducer {
    stream: usize,
    phase: VideoPhase,
}

impl VideoProducer {
    /// The index of the stream this producer decodes.
    pub closed spec fn stream_spec(&self) -> usize {
        self.stream
    }

    /// The producer's phase.
    pub closed spec fn phase_spec(&self) -> VideoPhase {
        self.phase
    }

    /// A producer for the stream of index `stream`, about to look at the queue.
    pub fn new(stream: usize) -> (producer: VideoProducer)
        ensures
            producer.stream_spec() == stream,
            producer.phase_spec() == VideoPhase::AwaitingRoom,
    {
        VideoProducer { stream, phase: VideoPhase::AwaitingRoom }
    }

    /// The index of the stream this producer decodes.
    #[verifier::when_used_as_spec(stream_spec)]
    pub fn stream(&self) -> (stream: usize)
        ensures
            stream == self.stream_spec(),
    {
        self.stream
    }

    /// The producer's phase.
    #[verifier::when_used_as_spec(phase_spec)]
    pub fn phase(&self) -> (phase: VideoPhase)
        ensures
            phase == self.phase_spec(),
    {
        self.phase
    }

    /// Takes in what the thread reports and says what it is to do next.
    pub fn step(&mut self, event: VideoEvent) -> (action: VideoAction)
        ensures
            final(self).stream_spec() == old(self).stream_spec(),
            final(self).phase_spec() == video_next_phase(old(self).phase_spec(), event),
            action == video_action(old(self).phase_spec(), old(self).stream_spec(), event),
    {
        let phase = self.phase;
        match phase {
            VideoPhase::Finished | VideoPhase::Failed => VideoAction::Stop,
            _ => match event {
                VideoEvent::Room(true) => {
                    self.phase = VideoPhase::AwaitingPacket;
                    VideoAction::ReadPacket
                },
                VideoEvent::Room(false) => {
                    self.phase = VideoPhase::AwaitingRoom;
                    VideoAction::Idle
                },
                VideoEvent::Packet(index) => {
                    self.phase = VideoPhase::AwaitingRoom;
                    if phase == VideoPhase::AwaitingPacket && index == self.stream {
                        VideoAction::DecodeAndPush
                    } else {
                        VideoAction::CheckQueue
                    }
                },
                VideoEvent::EndOfStream => {
                    if phase == VideoPhase::AwaitingPacket {
                        self.phase = VideoPhase::Finished;
                        VideoAction::Stop
                    } else {
                        self.phase = VideoPhase::AwaitingRoom;
                        VideoAction::CheckQueue
                    }
                },
                VideoEvent::Failure(error) => {
                    self.phase = VideoPhase::Failed;
                    VideoAction::Abort(error)
                },
            },
        }
    }

    /// Looks at the queue on the producer's behalf: reports whether it has
    /// room for one more frame, and says what to do next. A full queue makes
    /// a running producer idle; it never makes it push.
    pub fn check_queue<T>(&mut self, queue: &FrameQueue<T>) -> (action: VideoAction)
        requires
            queue.wf(),
        ensures
            final(self).stream_spec() == old(self).stream_spec(),
            final(self).phase_spec() == video_next_phase(
                old(self).phase_spec(),
                VideoEvent::Room(queue@.len() < queue.capacity_spec()),
            ),
            action == video_action(
                old(self).phase_spec(),
                old(self).stream_spec(),
                VideoEvent::Room(queue@.len() < queue.capacity_spec()),
            ),
    {
        let room = !queue.is_full();
        self.step(VideoEvent::Room(room))
    }
}

/// The producer's phase after a run of events, starting from `AwaitingRoom`.
pub open spec fn video_phase_after(events: Seq<VideoEvent>) -> VideoPhase
    decreases events.len(),
{
    if events.len() == 0 {
        VideoPhase::AwaitingRoom
    } else {
        video_next_phase(video_phase_after(events.drop_last()), events.last())
    }
}

/// The producer never decodes a frame without having seen room for it: in any
/// run of events, the one that makes it decode and push is a packet of its own
/// stream that directly follows a look at the queue that found room.
pub proof fn lemma_push_only_after_room(events: Seq<VideoEvent>, stream: usize)
    requires
        events.len() > 0,
        video_action(video_phase_after(events.drop_last()), stream, events.last())
            == VideoAction::DecodeAndPush,
    ensures
        events.last() == VideoEvent::Packet(stream),
        events.len() >= 2,
        events[events.len() - 2] == VideoEvent::Room(true),
{
    let earlier = events.drop_last();
    assert(video_phase_after(earlier) == VideoPhase::AwaitingPacket);
    assert(earlier.len() > 0);
    assert(earlier.last() == events[events.len() - 2]);
}

/// Once the stream has ended or a step has failed, the producer asks for
/// nothing but to stop, whatever is reported to it.
pub proof fn lemma_video_stops_for_good(events: Seq<VideoEvent>, upto: int, stream: usize)
    requires
        0 <= upto < events.len(),
        video_phase_after(events.take(upto)) == VideoPhase::Finished || video_phase_after(
            events.take(upto),
        ) == VideoPhase::Failed,
    ensures
        video_phase_after(events) == video_phase_after(events.take(upto)),
        video_action(video_phase_after(events.drop_last()), stream, events.last())
            == VideoAction::Stop,
    decreases events.len(),
{
    let earlier = events.drop_last();
    assert(earlier.take(upto) =~= events.take(upto));
    if upto == earlier.len() {
        assert(earlier.take(upto) =~= earlier);
    } else {
        lemma_video_stops_for_good(earlier, upto, stream);
    }
}

} // verus!
