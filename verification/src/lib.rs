//! A verified model of a small audio-mixing session: one-time backend
//! initialization, loading of sample and music resources, and channel-based
//! playback with volume control. The native mixer performs the actual audio
//! work; this crate pins down the lifecycle and ownership rules any binding
//! to such a mixer must respect.

use vstd::prelude::*;

pub mod backend;
pub mod laws;
pub mod mixer;

verus! {

/// Number of mixing channels allocated for sample playback.
pub const ALLOCATED_CHANNELS: i32 = 16;

/// Largest volume value the mixer accepts; requests above it are clamped.
pub const MAX_VOLUME: i32 = 128;

} // verus!
