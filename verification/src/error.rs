//! The typed failures of this layer.
//!
//! Every validation failure is detected and reported before a native call is
//! made; the two `*Failed` variants carry the native diagnostic through
//! verbatim.

use vstd::prelude::*;

verus! {

/// What can go wrong while binding buffers to tensors or invoking a run.
#[derive(Debug)]
pub enum RunError {
    /// The declared shape's element count disagrees with the buffer length.
    ShapeMismatch,
    /// A fixed byte width was required of an element type that has none.
    UnsupportedType,
    /// An integer tag outside the defined element-type enumeration.
    UnknownTypeTag { tag: i32 },
    /// The buffer to bind is empty, so it has no stable address to hand out.
    NullBuffer,
    /// A tensor name holds an embedded terminator byte.
    InvalidName,
    /// The native engine refused to create a tensor, or the created value
    /// failed the defensive tensor self-check.
    NativeCreateFailed { detail: String },
    /// The native run entry point reported an error, or handed back output
    /// buffers that do not fit their handles.
    InferenceFailed { detail: String },
    /// The number of output handles disagrees with the session's declared
    /// output count.
    OutputCountMismatch { declared: usize, supplied: usize },
    /// An index outside `[0, length)` of a handle batch.
    IndexOutOfRange { index: usize, len: usize },
}

} // verus!
