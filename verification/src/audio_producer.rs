//! The audio decode producer's decisions.
//!
//! The producer's thread first polls the playback gate. Only when the playback gate is
//! open does it start the hardware stream, and only then does it read
//! packets, decode and resample them, and feed the sample ring. What it does
//! next is decided here, from what it last learned.

use vstd::prelude::*;
use crate::error::PlaybackError;

verus! {

/// Where the audio decode producer stands.
#[derive(Clone, Copy, Debug, PartialEq, Eq, Structural)]
pub enum AudioPhase {
    /// No frame has been shown yet: the hardware stream is not started.
    AwaitingGate,
    /// The hardware stream runs and packets are being decoded.
    Streaming,
    /// The stream has ended; nothing more is pushed.
    Finished,
    /// A step failed; the thread is over.
    Failed,
}

/// What the producer's thread reports back.
#[derive(Clone, Copy, Debug, PartialEq, Eq, Structural)]
pub enum AudioEvent {
    /// It read the playback gate: whether it is open.
    Gate(bool),
    /// It read a packet, which belongs to the stream of this index.
    Packet(usize),
    /// The container has no more packets.
    EndOfStream,
    /// Reading, decoding or resampling failed.
    Failure(PlaybackError),
    /// It did what it was last asked to do, and nothing came of it to report.
    Done,
}

/// What the producer's thread is to do next.
#[derive(Clone, Copy, Debug, PartialEq, Eq, Structural)]
pub enum AudioAction {
    /// Read the playback gate again.
    PollGate,
    /// Start the hardware stream.
    StartPlayback,
    /// Decode the packet, resample its frames and feed them to the ring.
    Decode,
    /// Read the next packet.
    ReadNext,
    /// Push nothing more.
    Stop,
    /// Report the failure and end the thread.
    Abort(PlaybackError),
}

/// The producer's phase after an event. Only an open gate gets it out of
/// waiting, and only the end of the stream or a failure ends streaming.
pub open spec fn audio_next_phase(phase: AudioPhase, event: AudioEvent) -> AudioPhase {
    match phase {
        AudioPhase::AwaitingGate => if event == AudioEvent::Gate(true) {
            AudioPhase::Streaming
        } else {
            AudioPhase::AwaitingGate
        },
        AudioPhase::Streaming => match event {
            AudioEvent::EndOfStream => AudioPhase::Finished,
            AudioEvent::Failure(_) => AudioPhase::Failed,
            _ => AudioPhase::Streaming,
        },
        AudioPhase::Finished => AudioPhase::Finished,
        AudioPhase::Failed => AudioPhase::Failed,
    }
}

/// What the producer asks for after an event, for a producer that decodes the
/// stream of index `stream`.
pub open spec fn audio_action(phase: AudioPhase, stream: usize, event: AudioEvent)
    -> AudioAction {
    match phase {
        AudioPhase::AwaitingGate => if event == AudioEvent::Gate(true) {
            AudioAction::StartPlayback
        } else {
            AudioAction::PollGate
        },
        AudioPhase::Streaming => match event {
            AudioEvent::Packet(index) => if index == stream {
                AudioAction::Decode
            } else {
                AudioAction::ReadNext
            },
            AudioEvent::EndOfStream => AudioAction::Stop,
            AudioEvent::Failure(error) => AudioAction::Abort(error),
            AudioEvent::Gate(_) | AudioEvent::Done => AudioAction::ReadNext,
        },
        AudioPhase::Finished | AudioPhase::Failed => AudioAction::Stop,
    }
}

/// The audio decode producer's state: the stream it decodes and its phase.
#[derive(Clone, Copy, Debug)]
pub struct AudioProducer {
    stream: usize,
    phase: AudioPhase,
}

impl AudioProducer {
    /// The index of the stream this producer decodes.
    pub closed spec fn stream_spec(&self) -> usize {
        self.stream
    }

    /// The producer's phase.
    pub closed spec fn phase_spec(&self) -> AudioPhase {
        self.phase
    }

    /// A producer for the stream of index `stream`, waiting for the playback gate.
    pub fn new(stream: usize) -> (producer: AudioProducer)
        ensures
            producer.stream_spec() == stream,
            producer.phase_spec() == AudioPhase::AwaitingGate,
    {
        AudioProducer { stream, phase: AudioPhase::AwaitingGate }
    }

    /// The index of the stream this producer decodes.
    #[verifier::when_used_as_spec(stream_spec)]
    pub fn stream(&self) -> (stream: usize)
        ensures
            stream == self.stream_spec(),
    {
        self.stream
    }

    /// The producer's phase.
    #[verifier::when_used_as_spec(phase_spec)]
    pub fn phase(&self) -> (phase: AudioPhase)
        ensures
            phase == self.phase_spec(),
    {
        self.phase
    }

    /// Takes in what the thread reports and says what it is to do next.
    pub fn step(&mut self, event: AudioEvent) -> (action: AudioAction)
        ensures
            final(self).stream_spec() == old(self).stream_spec(),
            final(self).phase_spec() == audio_next_phase(old(self).phase_spec(), event),
            action == audio_action(old(self).phase_spec(), old(self).stream_spec(), event),
    {
        match self.phase {
            AudioPhase::AwaitingGate => match event {
                AudioEvent::Gate(true) => {
                    self.phase = AudioPhase::Streaming;
                    AudioAction::StartPlayback
                },
                _ => AudioAction::PollGate,
            },
            AudioPhase::Streaming => match event {
                AudioEvent::Packet(index) => {
                    if index == self.stream {
                        AudioAction::Decode
                    } else {
                        AudioAction::ReadNext
                    }
                },
                AudioEvent::EndOfStream => {
                    self.phase = AudioPhase::Finished;
                    AudioAction::Stop
                },
                AudioEvent::Failure(error) => {
                    self.phase = AudioPhase::Failed;
                    AudioAction::Abort(error)
                },
                AudioEvent::Gate(_) | AudioEvent::Done => AudioAction::ReadNext,
            },
            AudioPhase::Finished | AudioPhase::Failed => AudioAction::Stop,
        }
    }
}

/// The producer's phase after a run of events, starting from `AwaitingGate`.
pub open spec fn audio_phase_after(events: Seq<AudioEvent>) -> AudioPhase
    decreases events.len(),
{
    if events.len() == 0 {
        AudioPhase::AwaitingGate
    } else {
        audio_next_phase(audio_phase_after(events.drop_last()), events.last())
    }
}

/// Audio follows video: as long as no reading of the playback gate has found it open,
/// the producer is still waiting, and all it asks for is another look at the
/// gate. It neither starts the hardware stream nor decodes a packet.
pub proof fn lemma_waits_for_gate(events: Seq<AudioEvent>, stream: usize)
    requires
        forall|i: int| 0 <= i < events.len() ==> events[i] != AudioEvent::Gate(true),
    ensures
        audio_phase_after(events) == AudioPhase::AwaitingGate,
        events.len() > 0 ==> audio_action(
            audio_phase_after(events.drop_last()),
            stream,
            events.last(),
        ) == AudioAction::PollGate,
    decreases events.len(),
{
    if events.len() > 0 {
        lemma_waits_for_gate(events.drop_last(), stream);
    }
}

/// The hardware stream is started once: the event that makes the producer
/// start it is the first reading of the playback gate that finds it open.
pub proof fn lemma_starts_playback_once(events: Seq<AudioEvent>, stream: usize)
    requires
        events.len() > 0,
        audio_action(audio_phase_after(events.drop_last()), stream, events.last())
            == AudioAction::StartPlayback,
    ensures
        events.last() == AudioEvent::Gate(true),
        forall|i: int| 0 <= i < events.len() - 1 ==> events[i] != AudioEvent::Gate(true),
{
    let earlier = events.drop_last();
    assert(audio_phase_after(earlier) == AudioPhase::AwaitingGate);
    lemma_left_waiting_for_good(earlier);
    assert forall|i: int| 0 <= i < events.len() - 1 implies events[i] != AudioEvent::Gate(
        true,
    ) by {
        assert(events[i] == earlier[i]);
    }
}

/// A producer that is still waiting has never seen the playback gate open.
proof fn lemma_left_waiting_for_good(events: Seq<AudioEvent>)
    requires
        audio_phase_after(events) == AudioPhase::AwaitingGate,
    ensures
        forall|i: int| 0 <= i < events.len() ==> events[i] != AudioEvent::Gate(true),
    decreases events.len(),
{
    if events.len() > 0 {
        let earlier = events.drop_last();
        assert(audio_phase_after(earlier) == AudioPhase::AwaitingGate);
        lemma_left_waiting_for_good(earlier);
        assert forall|i: int| 0 <= i < events.len() implies events[i] != AudioEvent::Gate(
            true,
        ) by {
            if i < events.len() - 1 {
                assert(events[i] == earlier[i]);
            }
        }
    }
}

} // verus!
