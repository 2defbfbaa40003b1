//! The audio recorder: its states and the samples it holds.
use vstd::prelude::*;
use vstd::string::*;

verus! {

/// State of the audio recording session.
#[derive(Debug, Clone, Copy, PartialEq, Eq, Structural)]
pub enum RecordingState {
    Idle,
    Recording,
    Stopping,
}

/// Why the recorder refuses a request.
#[derive(Debug, Clone, Copy, PartialEq, Eq, Structural)]
pub enum RecorderError {
    AlreadyRecording,
    StillStopping,
    NotRecording,
    AlreadyStopping,
    NoSamples,
}

impl RecorderError {
    /// The message shown for the error.
    pub fn message(self) -> (r: String)
        ensures
            r@ == match self {
                RecorderError::AlreadyRecording => "Recording already in progress"@,
                RecorderError::StillStopping => "Previous recording still stopping"@,
                RecorderError::NotRecording => "No recording in progress"@,
                RecorderError::AlreadyStopping => "Recording already stopping"@,
                RecorderError::NoSamples => "No audio samples recorded"@,
            },
    {
        match self {
            RecorderError::AlreadyRecording => "Recording already in progress".to_owned(),
            RecorderError::StillStopping => "Previous recording still stopping".to_owned(),
            RecorderError::NotRecording => "No recording in progress".to_owned(),
            RecorderError::AlreadyStopping => "Recording already stopping".to_owned(),
            RecorderError::NoSamples => "No audio samples recorded".to_owned(),
        }
    }
}

/// Manages the lifecycle of audio streams and recordings: which requests the recorder takes, the
/// state that each leaves, and the samples that were captured and not yet handed out. A sample is
/// kept as the bits of its number.
#[derive(Debug)]
pub struct AudioStreamManager {
    pub sample_rate_hz: u32,
    pub channels: usize,
    pub state: RecordingState,
    pub samples: Vec<u32>,
}

/// A recorder, with the samples in the order in which they were captured.
#[verifier::ext_equal]
pub struct RecorderView {
    pub sample_rate_hz: u32,
    pub channels: usize,
    pub state: RecordingState,
    pub samples: Seq<u32>,
}

impl View for AudioStreamManager {
    type V = RecorderView;

    open spec fn view(&self) -> RecorderView {
        RecorderView {
            sample_rate_hz: self.sample_rate_hz,
            channels: self.channels,
            state: self.state,
            samples: self.samples@,
        }
    }
}

/// The recorder in another state, with the same samples.
pub open spec fn in_state(m: RecorderView, state: RecordingState) -> RecorderView {
    RecorderView { state, ..m }
}

/// The recorder without its samples.
pub open spec fn emptied(m: RecorderView) -> RecorderView {
    RecorderView { samples: Seq::empty(), ..m }
}

/// The recorder after these samples were captured.
pub open spec fn with_captured(m: RecorderView, bits: Seq<u32>) -> RecorderView {
    RecorderView { samples: m.samples + bits, ..m }
}

/// Whether a recording may start.
pub open spec fn may_start(m: RecorderView) -> Result<(), RecorderError> {
    match m.state {
        RecordingState::Idle => Ok(()),
        RecordingState::Recording => Err(RecorderError::AlreadyRecording),
        RecordingState::Stopping => Err(RecorderError::StillStopping),
    }
}

/// The recorder after it was asked to start: a recording that may start begins without samples.
pub open spec fn starting(m: RecorderView) -> RecorderView {
    if may_start(m) is Ok {
        emptied(m)
    } else {
        m
    }
}

/// Whether a recording may stop to be saved.
pub open spec fn may_stop(m: RecorderView) -> Result<(), RecorderError> {
    match m.state {
        RecordingState::Recording => Ok(()),
        RecordingState::Idle => Err(RecorderError::NotRecording),
        RecordingState::Stopping => Err(RecorderError::AlreadyStopping),
    }
}

/// The recorder after it was asked to stop, whether to save the recording or to discard it: one
/// that records is stopping.
pub open spec fn stopping(m: RecorderView) -> RecorderView {
    if m.state == RecordingState::Recording {
        in_state(m, RecordingState::Stopping)
    } else {
        m
    }
}

/// The recorder at rest after a recording: nothing of it is left.
pub open spec fn ended(m: RecorderView) -> RecorderView {
    in_state(emptied(m), RecordingState::Idle)
}

/// The recorder after its recording, if one runs, was stopped and discarded.
pub open spec fn discarded(m: RecorderView) -> RecorderView {
    if m.state == RecordingState::Recording {
        ended(m)
    } else {
        m
    }
}

impl AudioStreamManager {
    /// A recorder at rest.
    pub fn new(sample_rate_hz: u32, channels: usize) -> (r: AudioStreamManager)
        ensures
            r@ == (RecorderView {
                sample_rate_hz,
                channels,
                state: RecordingState::Idle,
                samples: Seq::empty(),
            }),
    {
        AudioStreamManager {
            sample_rate_hz,
            channels,
            state: RecordingState::Idle,
            samples: Vec::new(),
        }
    }

    /// The samples per second of the recordings.
    pub fn sample_rate_hz(&self) -> (r: u32)
        ensures
            r == self@.sample_rate_hz,
    {
        self.sample_rate_hz
    }

    /// Whether a recording may start now: only from rest. What an earlier one has left is dropped
    /// before the stream is made, so that all that the new stream captures is kept.
    pub fn start_recording(&mut self) -> (r: Result<(), RecorderError>)
        ensures
            r == may_start(old(self)@),
            final(self)@ == starting(old(self)@),
    {
        match self.state {
            RecordingState::Recording => Err(RecorderError::AlreadyRecording),
            RecordingState::Stopping => Err(RecorderError::StillStopping),
            RecordingState::Idle => {
                self.samples = Vec::new();
                Ok(())
            },
        }
    }

    /// The stream of a recording that may start is playing. It may have captured samples already.
    pub fn recording_started(&mut self)
        requires
            old(self).state == RecordingState::Idle,
        ensures
            final(self)@ == in_state(old(self)@, RecordingState::Recording),
    {
        self.state = RecordingState::Recording;
    }

    /// The stream has captured samples.
    pub fn samples_recorded(&mut self, bits: Vec<u32>)
        ensures
            final(self)@ == with_captured(old(self)@, bits@),
    {
        let mut more = bits;
        self.samples.append(&mut more);
    }

    /// Takes the samples that are held, while the stream goes on.
    pub fn drain_samples(&mut self) -> (r: Vec<u32>)
        ensures
            r@ == old(self)@.samples,
            final(self)@ == emptied(old(self)@),
    {
        let mut r: Vec<u32> = Vec::new();
        r.append(&mut self.samples);
        assert(r@ =~= old(self)@.samples);
        r
    }

    /// Begins to stop a recording whose audio is to be saved.
    pub fn stop_recording(&mut self) -> (r: Result<(), RecorderError>)
        ensures
            r == may_stop(old(self)@),
            final(self)@ == stopping(old(self)@),
    {
        match self.state {
            RecordingState::Idle => Err(RecorderError::NotRecording),
            RecordingState::Stopping => Err(RecorderError::AlreadyStopping),
            RecordingState::Recording => {
                self.state = RecordingState::Stopping;
                Ok(())
            },
        }
    }

    /// The stream has stopped: gives the samples that are to be saved. Without samples there is
    /// nothing to save, and the recorder is at rest again.
    pub fn samples_captured(&mut self) -> (r: Result<Vec<u32>, RecorderError>)
        requires
            old(self).state == RecordingState::Stopping,
        ensures
            if old(self)@.samples.len() == 0 {
                r matches Err(e) && e == RecorderError::NoSamples && final(self)@ == ended(
                    old(self)@,
                )
            } else {
                r matches Ok(s) && s@ == old(self)@.samples && final(self)@ == old(self)@
            },
    {
        if self.samples.len() == 0 {
            self.state = RecordingState::Idle;
            assert(self@.samples =~= Seq::empty());
            return Err(RecorderError::NoSamples);
        }
        Ok(self.samples.clone())
    }

    /// The audio is saved, or discarded: the recorder is at rest again, without samples.
    pub fn recording_ended(&mut self)
        requires
            old(self).state == RecordingState::Stopping,
        ensures
            final(self)@ == ended(old(self)@),
    {
        self.samples = Vec::new();
        self.state = RecordingState::Idle;
    }

    /// Begins to stop a recording whose audio is discarded (used for streaming mode). Says whether
    /// there is a stream to stop; `recording_ended` then discards the audio.
    pub fn stop_recording_discard(&mut self) -> (r: bool)
        ensures
            r == (old(self)@.state == RecordingState::Recording),
            final(self)@ == stopping(old(self)@),
    {
        match self.state {
            RecordingState::Recording => {
                self.state = RecordingState::Stopping;
                true
            },
            _ => false,
        }
    }
}

/// A recorder that was at rest, has recorded and has stopped is at rest and holds no samples, and in
/// between it takes no other recording.
pub proof fn recorder_comes_to_rest(m: RecorderView, captured: Seq<u32>)
    requires
        m.state == RecordingState::Idle,
    ensures
        ({
            let recording = with_captured(
                in_state(starting(m), RecordingState::Recording),
                captured,
            );
            let stopped = stopping(recording);
            &&& may_start(m) is Ok && may_stop(m) == Err::<(), RecorderError>(
                RecorderError::NotRecording,
            )
            &&& may_start(recording) == Err::<(), RecorderError>(RecorderError::AlreadyRecording)
            &&& may_stop(recording) is Ok
            &&& stopped.samples == captured
            &&& may_start(stopped) == Err::<(), RecorderError>(RecorderError::StillStopping)
            &&& may_stop(stopped) == Err::<(), RecorderError>(RecorderError::AlreadyStopping)
            &&& ended(stopped) == emptied(m)
        }),
{
    assert(Seq::<u32>::empty() + captured =~= captured);
}

/// Discarding a recording leaves the recorder at rest without samples, whatever was captured until
/// the stream had stopped. A recorder that is at rest or stopping keeps its state and its samples,
/// and so does one whose recording was discarded before.
pub proof fn discarding_is_done_once(m: RecorderView, late: Seq<u32>)
    ensures
        m.state == RecordingState::Recording ==> ended(with_captured(stopping(m), late))
            == discarded(m) && discarded(m).state == RecordingState::Idle
            && discarded(m).samples.len() == 0 && may_start(discarded(m)) is Ok,
        m.state != RecordingState::Recording ==> stopping(m) == m && discarded(m) == m,
        stopping(discarded(m)) == discarded(m),
        discarded(discarded(m)) == discarded(m),
{
}

/// What happens to the samples while a stream plays.
pub enum BufferStep {
    /// The stream captures samples.
    Capture(Seq<u32>),
    /// The samples that are held are taken.
    Drain,
}

/// The recorder after these steps, and all that was taken from it.
pub open spec fn buffered(m: RecorderView, steps: Seq<BufferStep>) -> (RecorderView, Seq<u32>)
    decreases steps.len(),
{
    if steps.len() == 0 {
        (m, Seq::empty())
    } else {
        let (before, out) = buffered(m, steps.drop_last());
        match steps.last() {
            BufferStep::Capture(bits) => (with_captured(before, bits), out),
            BufferStep::Drain => (emptied(before), out + before.samples),
        }
    }
}

/// All that is captured in these steps.
pub open spec fn all_captured(steps: Seq<BufferStep>) -> Seq<u32>
    decreases steps.len(),
{
    if steps.len() == 0 {
        Seq::empty()
    } else {
        match steps.last() {
            BufferStep::Capture(bits) => all_captured(steps.drop_last()) + bits,
            BufferStep::Drain => all_captured(steps.drop_last()),
        }
    }
}

/// Whenever samples are captured and taken, each is handed out once and in order: what was taken and
/// what is still held are, one after the other, what was held at first and then captured.
pub proof fn draining_keeps_every_sample(m: RecorderView, steps: Seq<BufferStep>)
    ensures
        buffered(m, steps).1 + buffered(m, steps).0.samples == m.samples + all_captured(steps),
        buffered(m, steps).0.state == m.state,
    decreases steps.len(),
{
    if steps.len() == 0 {
        assert(Seq::<u32>::empty() + m.samples =~= m.samples + Seq::<u32>::empty());
    } else {
        draining_keeps_every_sample(m, steps.drop_last());
        let (before, out) = buffered(m, steps.drop_last());
        let captured = all_captured(steps.drop_last());
        match steps.last() {
            BufferStep::Capture(bits) => {
                assert(out + (before.samples + bits) =~= (out + before.samples) + bits);
                assert(m.samples + (captured + bits) =~= (m.samples + captured) + bits);
            },
            BufferStep::Drain => {
                assert((out + before.samples) + Seq::<u32>::empty() =~= out + before.samples);
            },
        }
    }
}

} // verus!
