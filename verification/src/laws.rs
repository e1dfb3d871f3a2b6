use vstd::prelude::*;

use crate::adapter::construct_view;
use crate::adapter::encode_begin_next;
use crate::adapter::encode_begin_out;
use crate::adapter::encode_finish_buffer;
use crate::adapter::encode_finish_out;
use crate::adapter::frame_count;
use crate::adapter::init_next;
use crate::adapter::init_out;
use crate::adapter::reset_next;
use crate::adapter::reset_out;
use crate::adapter::whole_frames;
use crate::adapter::AdapterState;
use crate::adapter::AdapterView;
use crate::errors::FlacError;

verus! {

/// Every valid configuration yields a constructed, well-formed adapter, and
/// once the engine accepts stream initialization the adapter is initialized
/// and ready to encode.
pub proof fn lemma_construct_then_init_ready(
    sample_rate: u32,
    bits_per_sample: u32,
    channels: u32,
    frame_length: u32,
    compression_level: u32,
    status: u32,
)
    requires
        sample_rate > 0,
        channels > 0,
        bits_per_sample == 16 || bits_per_sample == 24 || bits_per_sample == 32,
    ensures
        construct_view(sample_rate, bits_per_sample, channels, frame_length, compression_level).wf(),
        construct_view(
            sample_rate,
            bits_per_sample,
            channels,
            frame_length,
            compression_level,
        ).state == AdapterState::Constructed,
        init_out(
            construct_view(sample_rate, bits_per_sample, channels, frame_length, compression_level),
            true,
            status,
        ) == Ok::<(), FlacError>(()),
        init_next(
            construct_view(sample_rate, bits_per_sample, channels, frame_length, compression_level),
            true,
            status,
        ).state == AdapterState::Initialized,
        init_next(
            construct_view(sample_rate, bits_per_sample, channels, frame_length, compression_level),
            true,
            status,
        ).wf(),
{
}

/// A sample count that is a whole number of interleaved frames is accepted:
/// the begin step returns exactly the frame count and clears the pending
/// output, leaving the configuration and the stage untouched.
pub proof fn lemma_encode_begin_accepts_whole_frames(v: AdapterView, sample_count: usize)
    requires
        v.wf(),
        whole_frames(sample_count, v.channels),
    ensures
        encode_begin_out(v, sample_count) == Ok::<u32, FlacError>(
            frame_count(sample_count, v.channels) as u32,
        ),
        encode_begin_next(v, sample_count).pending == Seq::<u8>::empty(),
        encode_begin_next(v, sample_count).state == v.state,
        encode_begin_next(v, sample_count).channels == v.channels,
{
}

/// When the engine reports success and the pending bytes fit, the finish
/// step returns exactly the count of bytes it copied; that count never
/// exceeds the buffer's length, the copied bytes are the pending bytes, and
/// the buffer keeps its length.
pub proof fn lemma_encode_finish_reports_copied_bytes(
    v: AdapterView,
    engine_state: u32,
    buffer: Seq<u8>,
)
    requires
        v.pending.len() <= buffer.len(),
        buffer.len() <= usize::MAX,
    ensures
        encode_finish_out(v, true, engine_state, buffer.len()) == Ok::<usize, FlacError>(
            v.pending.len() as usize,
        ),
        v.pending.len() as usize <= buffer.len(),
        encode_finish_buffer(v, true, buffer).len() == buffer.len(),
        encode_finish_buffer(v, true, buffer).subrange(0, v.pending.len() as int) == v.pending,
{
    assert(encode_finish_buffer(v, true, buffer).subrange(0, v.pending.len() as int)
        =~= v.pending);
}

/// An output buffer smaller than the produced bytes is rejected with both
/// sizes reported, and its contents are untouched; no truncated output is
/// ever produced.
pub proof fn lemma_buffer_too_small_leaves_output_unchanged(
    v: AdapterView,
    engine_state: u32,
    buffer: Seq<u8>,
)
    requires
        buffer.len() < v.pending.len(),
        v.pending.len() <= usize::MAX,
    ensures
        encode_finish_out(v, true, engine_state, buffer.len()) == Err::<usize, FlacError>(
            FlacError::BufferTooSmall {
                needed: v.pending.len() as usize,
                capacity: buffer.len() as usize,
            },
        ),
        encode_finish_buffer(v, true, buffer) == buffer,
{
}

/// A sample count that is not a whole number of interleaved frames is
/// rejected with the offending count and the channel count, and the adapter
/// is left unchanged.
pub proof fn lemma_ragged_sample_count_rejected(v: AdapterView, sample_count: usize)
    requires
        !whole_frames(sample_count, v.channels),
    ensures
        encode_begin_out(v, sample_count) == Err::<u32, FlacError>(
            FlacError::InvalidInput { sample_count, channels: v.channels },
        ),
        encode_begin_next(v, sample_count) == v,
{
}

/// Configuration is idempotent across a reset: every configuration field
/// survives, and the begin step of an encode call decides and computes
/// exactly as it did before the reset.
pub proof fn lemma_reset_preserves_config(v: AdapterView, accepted: bool, engine_state: u32)
    ensures
        reset_next(v, accepted, engine_state).sample_rate == v.sample_rate,
        reset_next(v, accepted, engine_state).bits_per_sample == v.bits_per_sample,
        reset_next(v, accepted, engine_state).channels == v.channels,
        reset_next(v, accepted, engine_state).frame_length == v.frame_length,
        reset_next(v, accepted, engine_state).compression_level == v.compression_level,
        reset_next(v, accepted, engine_state).wf() == v.wf(),
        forall|sample_count: usize| #![trigger encode_begin_out(v, sample_count)]
            encode_begin_out(reset_next(v, accepted, engine_state), sample_count)
                == encode_begin_out(v, sample_count),
{
}

/// Repeated accepted resets are stable: a second reset leaves the adapter
/// exactly where the first left it, initialized and still accepting every
/// whole-frame sample count.
pub proof fn lemma_repeated_reset_stable(v: AdapterView, first_state: u32, second_state: u32)
    ensures
        reset_next(reset_next(v, true, first_state), true, second_state) == reset_next(
            v,
            true,
            first_state,
        ),
        reset_next(v, true, first_state).state == AdapterState::Initialized,
        reset_out(reset_next(v, true, first_state), true, second_state) == Ok::<(), FlacError>(()),
        forall|sample_count: usize| #![trigger encode_begin_out(v, sample_count)]
            whole_frames(sample_count, v.channels) ==> encode_begin_out(
                reset_next(v, true, first_state),
                sample_count,
            ) is Ok,
{
    assert(reset_next(reset_next(v, true, first_state), true, second_state) =~= reset_next(
        v,
        true,
        first_state,
    ));
}

} // verus!
