//! Verified engine for checking that bytecode observed on a blockchain was
//! produced by compiling a given source artifact.
//!
//! The matcher compares an on-chain byte sequence against a recompiled byte
//! sequence, tolerating only the declared, auditable differences: embedded
//! metadata-hash regions, immutable-reference slots, constructor-argument
//! encodings and blueprint preambles. Around the matcher stand a per-target
//! orchestrator and a batch coordinator that verifies many on-chain targets
//! against a single compiled artifact.

pub mod artifacts;
pub mod matcher;
pub mod verification;
pub mod batch;
