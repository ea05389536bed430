//! A capture session: the stream that is active, if any, together with the
//! buffer its samples are collected in.
use crate::capture::{clamped_capacity, newest, CaptureBuffer};
use crate::channels::{channel_of, deinterleave, effective_channels, split};
use crate::ring::MAX_CAPACITY;
use vstd::prelude::*;

verus! {

/// The buffer holds one part in `BUFFERS_PER_SECOND` of a second of audio.
pub const BUFFERS_PER_SECOND: u32 = 5;

/// What is known of an active stream.
#[derive(Clone, Copy, Debug, PartialEq, Eq)]
pub struct StreamConfig {
    /// Samples per second and channel.
    pub sample_rate: u32,
    /// Number of interleaved channels the device delivers.
    pub channels: u16,
}

/// The buffer capacity for a stream: the samples of all its channels over one
/// buffer period, clamped to what a buffer can have.
pub open spec fn stream_capacity_spec(config: StreamConfig) -> nat {
    clamped_capacity(
        ((config.sample_rate as nat) / (BUFFERS_PER_SECOND as nat)) * (config.channels as nat),
    )
}

/// The channel count the display uses: that of the stream where it is one or
/// two, and one otherwise, also while no stream is active.
pub open spec fn display_channels(stream: Option<StreamConfig>) -> nat {
    match stream {
        Some(config) => if config.channels == 2 {
            2
        } else {
            1
        },
        None => 1,
    }
}

/// The sample rate the display uses: that of the stream, and zero while no
/// stream is active.
pub open spec fn display_sample_rate(stream: Option<StreamConfig>) -> nat {
    match stream {
        Some(config) => config.sample_rate as nat,
        None => 0,
    }
}

/// The buffer capacity for a stream.
pub fn stream_capacity(config: &StreamConfig) -> (capacity: usize)
    ensures
        capacity == stream_capacity_spec(*config),
        1 <= capacity <= MAX_CAPACITY,
{
    let per_channel: u64 = (config.sample_rate / BUFFERS_PER_SECOND) as u64;
    let channels: u64 = config.channels as u64;
    assert(per_channel * channels <= 0xffff_ffff * 0xffff) by (nonlinear_arith)
        requires
            per_channel <= 0xffff_ffff,
            channels <= 0xffff,
    ;
    let wanted: u64 = per_channel * channels;
    if wanted < 1 {
        1
    } else if wanted > MAX_CAPACITY as u64 {
        MAX_CAPACITY
    } else {
        wanted as usize
    }
}

/// The state of capture: the active stream, if any, and the samples collected
/// from it.
pub struct Session {
    buffer: CaptureBuffer,
    stream: Option<StreamConfig>,
}

impl Session {
    /// The samples collected, oldest first.
    pub closed spec fn view(&self) -> Seq<u32> {
        self.buffer@
    }

    /// The active stream, if any.
    pub closed spec fn stream(&self) -> Option<StreamConfig> {
        self.stream
    }

    /// The capacity of the session's buffer.
    pub closed spec fn spec_capacity(&self) -> nat {
        self.buffer.spec_capacity()
    }

    /// The session's invariant: its buffer is well formed.
    pub closed spec fn wf(&self) -> bool {
        self.buffer.wf()
    }

    /// A well-formed session never holds more samples than its capacity.
    pub proof fn lemma_bounded(&self)
        requires
            self.wf(),
        ensures
            1 <= self.spec_capacity() <= MAX_CAPACITY,
            self@.len() <= self.spec_capacity(),
    {
        self.buffer.lemma_bounded();
    }

    /// A session without a stream, with an empty buffer of capacity one.
    pub fn new() -> (session: Self)
        ensures
            session.wf(),
            session.stream() == None::<StreamConfig>,
            session@ == Seq::<u32>::empty(),
            session.spec_capacity() == 1,
    {
        Session { buffer: CaptureBuffer::new(1), stream: None }
    }

    /// Takes up a stream: the buffer is emptied and sized for it.
    pub fn start(&mut self, config: StreamConfig)
        ensures
            final(self).wf(),
            final(self).stream() == Some(config),
            final(self)@ == Seq::<u32>::empty(),
            final(self).spec_capacity() == stream_capacity_spec(config),
    {
        let capacity = stream_capacity(&config);
        self.buffer.resize(capacity);
        self.stream = Some(config);
    }

    /// Gives up the stream: the buffer is emptied and keeps its capacity.
    pub fn stop(&mut self)
        requires
            old(self).wf(),
        ensures
            final(self).wf(),
            final(self).stream() == None::<StreamConfig>,
            final(self)@ == Seq::<u32>::empty(),
            final(self).spec_capacity() == old(self).spec_capacity(),
    {
        self.stream = None;
        self.buffer.clear();
    }

    /// Collects a block of interleaved samples; the oldest samples give way
    /// where the buffer overflows.
    pub fn capture(&mut self, samples: &[u32])
        requires
            old(self).wf(),
        ensures
            final(self).wf(),
            final(self).stream() == old(self).stream(),
            final(self).spec_capacity() == old(self).spec_capacity(),
            final(self)@ == newest(old(self)@ + samples@, old(self).spec_capacity()),
    {
        self.buffer.push(samples);
    }

    /// The active stream, if any.
    pub fn config(&self) -> (stream: Option<StreamConfig>)
        ensures
            stream == self.stream(),
    {
        self.stream
    }

    /// Whether a stream is active.
    pub fn is_streaming(&self) -> (active: bool)
        ensures
            active == self.stream().is_some(),
    {
        self.stream.is_some()
    }

    /// The sample rate the display uses.
    pub fn sample_rate(&self) -> (rate: u32)
        ensures
            rate == display_sample_rate(self.stream()),
    {
        match self.stream {
            Some(config) => config.sample_rate,
            None => 0,
        }
    }

    /// The channel count the display uses.
    pub fn channel_count(&self) -> (count: usize)
        ensures
            count == display_channels(self.stream()),
    {
        match self.stream {
            Some(config) => effective_channels(config.channels),
            None => 1,
        }
    }

    /// The capacity of the session's buffer.
    pub fn capacity(&self) -> (capacity: usize)
        ensures
            capacity == self.spec_capacity(),
    {
        self.buffer.capacity()
    }

    /// A copy of the samples collected, oldest first.
    pub fn snapshot(&self) -> (samples: Vec<u32>)
        ensures
            samples@ == self@,
    {
        self.buffer.snapshot()
    }

    /// The samples collected, split by channel.
    pub fn channels(&self) -> (channels: Vec<Vec<u32>>)
        ensures
            channels@.len() == display_channels(self.stream()),
            forall|c: int|
                0 <= c < channels@.len() ==> (#[trigger] channels@[c])@ == channel_of(
                    self@,
                    display_channels(self.stream()),
                    c as nat,
                ),
            channels@.map_values(|one: Vec<u32>| one@) == split(
                self@,
                display_channels(self.stream()),
            ),
    {
        let samples = self.buffer.snapshot();
        let count = self.channel_count();
        deinterleave(samples.as_slice(), count)
    }
}

} // verus!
