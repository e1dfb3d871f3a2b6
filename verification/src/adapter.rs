use vstd::prelude::*;

use crate::accumulator::OutputAccumulator;
use crate::errors::FlacError;

verus! {

/// Externally observable lifecycle stage of the adapter.
#[derive(Clone, Copy, PartialEq, Eq, Structural, Debug)]
pub enum AdapterState {
    /// A fresh engine resource exists; the stream is not yet open.
    Constructed,
    /// The stream is open and the adapter accepts sample submissions.
    Initialized,
    /// The engine rejected an initialization or a reset; further encode
    /// calls are expected to fail, but the adapter remains safely destructible.
    Degraded,
}

/// Mathematical model of the adapter: the fixed configuration, the bytes
/// pending in the output accumulator, and the lifecycle stage.
#[verifier::ext_equal]
pub struct AdapterView {
    pub sample_rate: u32,
    pub bits_per_sample: u32,
    pub channels: u32,
    pub frame_length: u32,
    pub compression_level: u32,
    pub pending: Seq<u8>,
    pub state: AdapterState,
}

impl AdapterView {
    /// Configuration invariant: positive sample rate and channel count, and
    /// one of the supported bit depths.
    pub open spec fn wf(self) -> bool {
        &&& self.sample_rate > 0
        &&& self.channels > 0
        &&& (self.bits_per_sample == 16 || self.bits_per_sample == 24
            || self.bits_per_sample == 32)
    }
}

/// Model of construction: the configuration is recorded, no bytes are
/// pending, and the adapter starts in the constructed stage.
pub open spec fn construct_view(
    sample_rate: u32,
    bits_per_sample: u32,
    channels: u32,
    frame_length: u32,
    compression_level: u32,
) -> AdapterView {
    AdapterView {
        sample_rate,
        bits_per_sample,
        channels,
        frame_length,
        compression_level,
        pending: Seq::<u8>::empty(),
        state: AdapterState::Constructed,
    }
}

/// Model of applying the engine's initialization verdict to the state.
pub open spec fn init_next(pre: AdapterView, accepted: bool, status: u32) -> AdapterView {
    AdapterView {
        state: if accepted {
            AdapterState::Initialized
        } else {
            AdapterState::Degraded
        },
        ..pre
    }
}

/// Model of what an initialization attempt returns.
pub open spec fn init_out(pre: AdapterView, accepted: bool, status: u32) -> Result<
    (),
    FlacError,
> {
    if accepted {
        Ok(())
    } else {
        Err(FlacError::InitializationFailure { status })
    }
}

/// Whether a sample count is a whole number of interleaved frames.
pub open spec fn whole_frames(sample_count: usize, channels: u32) -> bool {
    sample_count as int % channels as int == 0
}

/// The number of interleaved frames in a sample count.
pub open spec fn frame_count(sample_count: usize, channels: u32) -> int {
    sample_count as int / channels as int
}

/// Model of the first half of an encode call: a whole-frame sample count
/// clears the pending output; a ragged one leaves the adapter unchanged.
pub open spec fn encode_begin_next(pre: AdapterView, sample_count: usize) -> AdapterView {
    if whole_frames(sample_count, pre.channels) {
        AdapterView { pending: Seq::<u8>::empty(), ..pre }
    } else {
        pre
    }
}

/// Model of what the first half of an encode call returns: the frame count
/// to hand to the engine, or the rejection of a ragged sample count.
pub open spec fn encode_begin_out(pre: AdapterView, sample_count: usize) -> Result<
    u32,
    FlacError,
> {
    if whole_frames(sample_count, pre.channels) {
        Ok(frame_count(sample_count, pre.channels) as u32)
    } else {
        Err(FlacError::InvalidInput { sample_count, channels: pre.channels })
    }
}

/// Model of the write callback: a produced chunk is appended verbatim to the
/// pending output.
pub open spec fn push_next(pre: AdapterView, chunk: Seq<u8>) -> AdapterView {
    AdapterView { pending: pre.pending + chunk, ..pre }
}

/// Model of what the second half of an encode call returns: the engine's
/// failure, the caller's buffer being too small, or the count of copied bytes.
pub open spec fn encode_finish_out(
    pre: AdapterView,
    processed: bool,
    engine_state: u32,
    capacity: nat,
) -> Result<usize, FlacError> {
    if !processed {
        Err(FlacError::ProcessingFailure { state: engine_state })
    } else if pre.pending.len() > capacity {
        Err(
            FlacError::BufferTooSmall {
                needed: pre.pending.len() as usize,
                capacity: capacity as usize,
            },
        )
    } else {
        Ok(pre.pending.len() as usize)
    }
}

/// Model of the caller's buffer after the second half of an encode call: on
/// success the pending bytes stand at the front and the rest is untouched;
/// on any failure the buffer is untouched.
pub open spec fn encode_finish_buffer(
    pre: AdapterView,
    processed: bool,
    buffer: Seq<u8>,
) -> Seq<u8> {
    if processed && pre.pending.len() <= buffer.len() {
        pre.pending + buffer.skip(pre.pending.len() as int)
    } else {
        buffer
    }
}

/// Model of applying the engine's verdict on a reset: only the lifecycle
/// stage changes; the configuration and the pending bytes are preserved.
pub open spec fn reset_next(pre: AdapterView, accepted: bool, engine_state: u32) -> AdapterView {
    AdapterView {
        state: if accepted {
            AdapterState::Initialized
        } else {
            AdapterState::Degraded
        },
        ..pre
    }
}

/// Model of what a reset attempt returns.
pub open spec fn reset_out(pre: AdapterView, accepted: bool, engine_state: u32) -> Result<
    (),
    FlacError,
> {
    if accepted {
        Ok(())
    } else {
        Err(FlacError::ResetFailure { state: engine_state })
    }
}

/// Verified core of the FLAC encoder adapter.  It owns the configuration,
/// the output accumulator and the lifecycle stage, and decides every step of
/// the encode lifecycle; the opaque engine resource lives in an unverified
/// shell that performs each native call and hands its verdict back here.
pub struct FlacEncoder {
    sample_rate: u32,
    bits_per_sample: u32,
    channels: u32,
    frame_length: u32,
    compression_level: u32,
    buffer: OutputAccumulator,
    state: AdapterState,
}

impl View for FlacEncoder {
    type V = AdapterView;

    closed spec fn view(&self) -> AdapterView {
        AdapterView {
            sample_rate: self.sample_rate,
            bits_per_sample: self.bits_per_sample,
            channels: self.channels,
            frame_length: self.frame_length,
            compression_level: self.compression_level,
            pending: self.buffer@,
            state: self.state,
        }
    }
}

impl FlacEncoder {
    /// Records the configuration for the lifetime of the adapter.  A frame
    /// length of zero lets the engine pick its own block size.
    pub fn new(
        sample_rate: u32,
        bits_per_sample: u32,
        channels: u32,
        frame_length: u32,
        compression_level: u32,
    ) -> (r: FlacEncoder)
        requires
            sample_rate > 0,
            channels > 0,
            bits_per_sample == 16 || bits_per_sample == 24 || bits_per_sample == 32,
        ensures
            r@ == construct_view(
                sample_rate,
                bits_per_sample,
                channels,
                frame_length,
                compression_level,
            ),
            r@.wf(),
    {
        let r = FlacEncoder {
            sample_rate,
            bits_per_sample,
            channels,
            frame_length,
            compression_level,
            buffer: OutputAccumulator::new(),
            state: AdapterState::Constructed,
        };
        proof {
            assert(r@ =~= construct_view(
                sample_rate,
                bits_per_sample,
                channels,
                frame_length,
                compression_level,
            ));
        }
        r
    }

    /// Applies the engine's verdict on opening the stream: `accepted` says
    /// whether the engine reported a successful initialization, `status` is
    /// the code it reported.  May be called once per resource; a repeat
    /// requires an intervening reset.
    pub fn init(&mut self, accepted: bool, status: u32) -> (r: Result<(), FlacError>)
        requires
            old(self)@.state == AdapterState::Constructed,
        ensures
            final(self)@ == init_next(old(self)@, accepted, status),
            r == init_out(old(self)@, accepted, status),
    {
        if accepted {
            self.state = AdapterState::Initialized;
            proof {
                assert(self@ =~= init_next(old(self)@, accepted, status));
            }
            Ok(())
        } else {
            self.state = AdapterState::Degraded;
            proof {
                assert(self@ =~= init_next(old(self)@, accepted, status));
            }
            Err(FlacError::InitializationFailure { status })
        }
    }

    /// Packed 16-bit input is permanently unsupported: callers must widen
    /// samples to the 32-bit interleaved representation first.  Nothing is
    /// read or written.
    pub fn encode_i16(&mut self, input: &[i16], output: &mut Vec<u8>) -> (r: Result<
        usize,
        FlacError,
    >)
        ensures
            final(self)@ == old(self)@,
            final(output)@ == old(output)@,
            r == Err::<usize, FlacError>(FlacError::NotImplemented),
    {
        Err(FlacError::NotImplemented)
    }

    /// First half of an encode call: rejects a sample count that is not a
    /// whole number of interleaved frames, clears the output accumulator and
    /// returns the frame count to hand to the engine.
    pub fn encode_i32_begin(&mut self, sample_count: usize) -> (r: Result<u32, FlacError>)
        requires
            old(self)@.wf(),
            frame_count(sample_count, old(self)@.channels) <= u32::MAX,
        ensures
            final(self)@ == encode_begin_next(old(self)@, sample_count),
            r == encode_begin_out(old(self)@, sample_count),
    {
        let ch: usize = self.channels as usize;
        if sample_count % ch != 0 {
            return Err(FlacError::InvalidInput { sample_count, channels: self.channels });
        }
        self.buffer.clear();
        let frames: u32 = (sample_count / ch) as u32;
        proof {
            assert(self@ =~= encode_begin_next(old(self)@, sample_count));
        }
        Ok(frames)
    }

    /// Verified half of the engine's write callback: appends a produced
    /// chunk verbatim to the pending output, preserving byte order and
    /// values.  Always succeeds, so the engine keeps processing.
    pub fn push_encoded_bytes(&mut self, chunk: &[u8])
        ensures
            final(self)@ == push_next(old(self)@, chunk@),
    {
        self.buffer.append(chunk);
        proof {
            assert(self@ =~= push_next(old(self)@, chunk@));
        }
    }

    /// Second half of an encode call: applies the engine's processing
    /// verdict and, on success, copies the pending bytes to the front of the
    /// caller's buffer and returns their count.  On any failure the buffer
    /// is left untouched; no truncated output is ever produced.
    pub fn encode_i32_finish(
        &self,
        processed: bool,
        engine_state: u32,
        output: &mut Vec<u8>,
    ) -> (r: Result<usize, FlacError>)
        ensures
            r == encode_finish_out(self@, processed, engine_state, old(output)@.len()),
            final(output)@ == encode_finish_buffer(self@, processed, old(output)@),
    {
        if !processed {
            return Err(FlacError::ProcessingFailure { state: engine_state });
        }
        let n: usize = self.buffer.len();
        if output.len() < n {
            return Err(FlacError::BufferTooSmall { needed: n, capacity: output.len() });
        }
        let mut i: usize = 0;
        while i < n
            invariant
                i <= n,
                n == self@.pending.len(),
                n <= output@.len(),
                output@.len() == old(output)@.len(),
                forall|j: int| 0 <= j < i ==> output@[j] == self@.pending[j],
                forall|j: int| i <= j < output@.len() ==> output@[j] == old(output)@[j],
            decreases n - i,
        {
            let b: u8 = self.buffer.byte_at(i);
            output[i] = b;
            i = i + 1;
        }
        proof {
            assert(output@ =~= encode_finish_buffer(self@, processed, old(output)@));
        }
        Ok(n)
    }

    /// Applies the engine's verdict on a reset, after the shell has
    /// finalized the old resource, allocated a fresh one, re-applied the
    /// recorded configuration and re-opened the stream.  The configuration
    /// is preserved; on acceptance the adapter is ready to encode again.
    pub fn reset(&mut self, accepted: bool, engine_state: u32) -> (r: Result<(), FlacError>)
        ensures
            final(self)@ == reset_next(old(self)@, accepted, engine_state),
            r == reset_out(old(self)@, accepted, engine_state),
    {
        if accepted {
            self.state = AdapterState::Initialized;
            proof {
                assert(self@ =~= reset_next(old(self)@, accepted, engine_state));
            }
            Ok(())
        } else {
            self.state = AdapterState::Degraded;
            proof {
                assert(self@ =~= reset_next(old(self)@, accepted, engine_state));
            }
            Err(FlacError::ResetFailure { state: engine_state })
        }
    }

    /// The configured sample rate in hertz.
    pub fn sample_rate(&self) -> (r: u32)
        ensures
            r == self@.sample_rate,
    {
        self.sample_rate
    }

    /// The configured bit depth of the source samples.
    pub fn bits_per_sample(&self) -> (r: u32)
        ensures
            r == self@.bits_per_sample,
    {
        self.bits_per_sample
    }

    /// The configured channel count.
    pub fn channels(&self) -> (r: u32)
        ensures
            r == self@.channels,
    {
        self.channels
    }

    /// The configured block size hint; zero lets the engine choose.
    pub fn frame_length(&self) -> (r: u32)
        ensures
            r == self@.frame_length,
    {
        self.frame_length
    }

    /// The configured compression level.
    pub fn compression_level(&self) -> (r: u32)
        ensures
            r == self@.compression_level,
    {
        self.compression_level
    }

    /// The current lifecycle stage.
    pub fn state(&self) -> (r: AdapterState)
        ensures
            r == self@.state,
    {
        self.state
    }

    /// Number of bytes currently pending in the output accumulator.
    pub fn pending_len(&self) -> (r: usize)
        ensures
            r == self@.pending.len(),
    {
        self.buffer.len()
    }

    /// A copy of the bytes currently pending in the output accumulator.
    pub fn pending_bytes(&self) -> (r: Vec<u8>)
        ensures
            r@ == self@.pending,
    {
        self.buffer.snapshot()
    }
}

} // verus!
