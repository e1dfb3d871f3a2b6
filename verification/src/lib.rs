//! A verified core for a streaming FLAC encoder adapter.
//!
//! The adapter drives an opaque encoder engine through a fixed lifecycle:
//! construct, initialize, feed interleaved PCM samples, collect compressed
//! bytes, and reset.  The engine itself is a native library driven from an
//! unverified shell; this crate holds everything that can be verified: the
//! output accumulator that collects the engine's callback output, and the
//! state machine that validates inputs, applies the engine's verdicts and
//! copies the produced bytes to the caller.

mod accumulator;
mod adapter;
mod errors;
mod laws;

pub use accumulator::OutputAccumulator;
pub use adapter::AdapterState;
pub use adapter::AdapterView;
pub use adapter::FlacEncoder;
pub use errors::FlacError;
