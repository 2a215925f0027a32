//! A safety layer that binds caller-owned numeric buffers to the opaque
//! tensor handles of a native inference engine, and assembles the parallel
//! name/handle arrays that a single native "run" entry point consumes.
//!
//! The native engine itself is reached only through the [`engine::NativeEngine`]
//! and [`engine::TensorEngine`] traits, whose implementations translate the
//! opaque `u64` reference tokens used here into whatever the backend needs.
//! Everything on this side of that boundary is verified: shape/length
//! agreement, element-type tag handling, name-table construction, the
//! snapshot invariant of handle batches, and the validation steps of the
//! invocation protocol.

pub mod element_type;
pub mod engine;
pub mod error;
pub mod run;
pub mod shape;
