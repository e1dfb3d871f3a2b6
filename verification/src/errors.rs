use vstd::prelude::*;

verus! {

/// Errors surfaced by the encoder adapter.  Each carries the engine-reported
/// code or the sizes that explain it; rendering them as text is left to the
/// unverified shell.
#[derive(Clone, Copy, PartialEq, Eq, Structural, Debug)]
pub enum FlacError {
    /// The engine rejected stream initialization; carries its reported status.
    InitializationFailure { status: u32 },
    /// The requested input bit depth is permanently unsupported; callers must
    /// widen samples to the 32-bit interleaved representation first.
    NotImplemented,
    /// The sample count is not a whole number of interleaved frames.
    InvalidInput { sample_count: usize, channels: u32 },
    /// The engine failed while processing samples; carries its state code.
    ProcessingFailure { state: u32 },
    /// The caller's buffer cannot hold the produced bytes; nothing is written.
    BufferTooSmall { needed: usize, capacity: usize },
    /// Re-initialization after a reset failed; carries the engine state code.
    ResetFailure { state: u32 },
}

} // verus!
