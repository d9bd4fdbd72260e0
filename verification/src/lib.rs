//! A small numeric compute engine for lane-grouped operations over flat
//! single-precision buffers: an activation transform with strict input
//! validation, a bounded pseudo-random jitter pass, a spike-rate counter, a
//! mesh-efficiency score, and a growable memory pool used for byte-level
//! bookkeeping.
//!
//! Floating-point values cross the host boundary as their IEEE-754 bit
//! patterns (`u32`), so every discrete decision the engine makes — validation,
//! threshold counting, path dispatch, draw sequencing, pool accounting — is
//! stated and proved here over those patterns. The host evaluates the few
//! per-element transcendental formulas that the contracts name.

pub mod bits;
pub mod rng;
pub mod validate;
pub mod runtime;
