//! The boundary to the native inference engine.
//!
//! The engine is reached only through these traits, injected into every
//! operation that needs it, never through ambient global state. A native
//! tensor reference is carried here as an opaque `u64` token: a backend maps
//! tokens to whatever the engine hands out, and a fake backend for tests can
//! interpret them however it likes. Nothing is assumed of an implementation:
//! the verified callers state what holds of their own data whatever an
//! engine call returns.

use vstd::prelude::*;

verus! {

/// The engine operations that do not depend on an element type: the
/// defensive tensor self-check and the release of a native reference.
pub trait NativeEngine {
    /// Whether the native value behind the token self-reports as a tensor.
    fn is_tensor(&mut self, nref: u64) -> bool;

    /// Releases the native value behind the token.
    fn release_tensor(&mut self, nref: u64);
}

/// The engine operations over buffers of one element type: wrapping a
/// caller buffer as a native tensor without copying, and the single
/// blocking run entry point.
///
/// `run` receives the output buffers so that a substitutable backend can
/// fill them; a backend that writes results in place through addresses it
/// recorded at creation time may leave them untouched.
pub trait TensorEngine<T>: NativeEngine {
    /// Wraps `data`, laid out per `shape` and the element-type tag `tag`,
    /// as a native tensor; returns the reference token, or the native
    /// diagnostic on failure.
    fn create_tensor(&mut self, shape: &Vec<i64>, tag: i32, data: &Vec<T>) -> Result<u64, String>;

    /// One synchronous run: `options_ref` 0 means "use session defaults";
    /// the name arrays hold null-terminated strings; the reference arrays
    /// are parallel to them. Returns the native diagnostic on failure.
    fn run(
        &mut self,
        session_ref: u64,
        options_ref: u64,
        input_names: &Vec<Vec<u8>>,
        input_refs: &Vec<u64>,
        output_names: &Vec<Vec<u8>>,
        output_refs: &Vec<u64>,
        output_bufs: &mut Vec<Vec<T>>,
    ) -> Result<(), String>;
}

/// A fake backend that accepts everything and runs nothing: it hands out
/// fresh tokens, remembers which are live, and leaves output buffers as
/// they are. It exists so that the layer can be exercised without a native
/// engine behind it.
pub struct NullEngine {
    next: u64,
    live: Vec<u64>,
}

impl NullEngine {
    /// A fresh backend with no live references.
    pub fn new() -> (r: NullEngine)
        ensures
            r.live_refs() == Seq::<u64>::empty(),
    {
        NullEngine { next: 1, live: Vec::new() }
    }

    /// The tokens handed out and not yet released.
    pub closed spec fn live_refs(self) -> Seq<u64> {
        self.live@
    }

    /// How many references are currently live.
    pub fn live_count(&self) -> (n: usize)
        ensures
            n == self.live_refs().len(),
    {
        self.live.len()
    }
}

impl NativeEngine for NullEngine {
    fn is_tensor(&mut self, nref: u64) -> bool {
        let n = self.live.len();
        let mut i: usize = 0;
        while i < n
            invariant
                0 <= i <= n,
                n == self.live@.len(),
                self == old(self),
            decreases n - i,
        {
            if self.live[i] == nref {
                return true;
            }
            i += 1;
        }
        false
    }

    fn release_tensor(&mut self, nref: u64) {
        let n = self.live.len();
        let mut i: usize = 0;
        while i < n
            invariant
                0 <= i <= n,
                n == self.live@.len(),
                self == old(self),
            decreases n - i,
        {
            if self.live[i] == nref {
                self.live.swap_remove(i);
                return;
            }
            i += 1;
        }
    }
}

impl<T> TensorEngine<T> for NullEngine {
    fn create_tensor(&mut self, _shape: &Vec<i64>, _tag: i32, _data: &Vec<T>) -> Result<u64, String> {
        if self.next == u64::MAX {
            return Err(String::from_str("reference tokens exhausted"));
        }
        let nref = self.next;
        self.next = self.next + 1;
        self.live.push(nref);
        Ok(nref)
    }

    fn run(
        &mut self,
        _session_ref: u64,
        _options_ref: u64,
        _input_names: &Vec<Vec<u8>>,
        _input_refs: &Vec<u64>,
        _output_names: &Vec<Vec<u8>>,
        _output_refs: &Vec<u64>,
        _output_bufs: &mut Vec<Vec<T>>,
    ) -> Result<(), String> {
        Ok(())
    }
}

} // verus!
