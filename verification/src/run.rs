//! Owned tensor handles, name tables, handle batches, and the invocation
//! protocol.
//!
//! A handle binds one caller buffer to one native tensor reference and is
//! the sole owner of that reference: the reference is released exactly once,
//! and the buffer travels with the handle until the caller takes it back.
//! Batches and name tables assemble the parallel arrays the native run
//! entry point consumes; the protocol validates every count and name before
//! anything native is touched.

use vstd::prelude::*;

use crate::element_type::{get_type_size, ElementType};
use crate::engine::{NativeEngine, TensorEngine};
use crate::error::RunError;
use crate::shape::{checked_elem_count, elem_count, lemma_elem_count_nonneg, valid_shape};

verus! {

/// How a handle's backing buffer was bound: as a read-only element buffer,
/// a writable element buffer, or a raw byte buffer of either kind laid out
/// for a declared element type.
#[derive(Clone, Copy, Debug, PartialEq, Eq, Structural)]
pub enum BindMode {
    Immutable,
    Mutable,
    RawImmutable,
    RawMutable,
}

/// Raw modes measure the buffer in bytes against the declared element
/// width; element modes measure it in elements.
pub open spec fn is_raw(mode: BindMode) -> bool {
    mode == BindMode::RawImmutable || mode == BindMode::RawMutable
}

/// Modes that permit a writable view of the buffer.
pub open spec fn is_writable(mode: BindMode) -> bool {
    mode == BindMode::Mutable || mode == BindMode::RawMutable
}

/// The mathematical model of an owned tensor handle.
pub struct TensorModel<T> {
    /// The opaque native reference token this handle owns.
    pub nref: u64,
    /// The declared shape.
    pub shape: Seq<i64>,
    /// The declared element type.
    pub elem: ElementType,
    /// How the buffer was bound.
    pub mode: BindMode,
    /// The buffer length the shape and mode demand.
    pub required: int,
    /// Whether the native reference is still held (not yet released).
    pub live: bool,
    /// The backing buffer's contents.
    pub data: Seq<T>,
}

/// Well-formedness of a handle: the shape is valid and the buffer length
/// agrees with it exactly — in elements for element bindings, in bytes
/// (element count times width) for raw bindings.
pub open spec fn tensor_wf<T>(m: TensorModel<T>) -> bool {
    &&& valid_shape(m.shape)
    &&& if is_raw(m.mode) {
        m.elem.fixed_width() && m.required == elem_count(m.shape) * m.elem.width_spec()
    } else {
        m.required == elem_count(m.shape)
    }
    &&& m.data.len() == m.required
}

/// A failed binding: the typed failure together with the caller's buffer,
/// handed back so the data is not lost.
#[derive(Debug)]
pub struct BindError<T> {
    pub error: RunError,
    pub buffer: Vec<T>,
}

/// One native tensor value bound to the caller memory backing it.
///
/// The handle owns the native reference and the buffer; it never frees the
/// buffer on release, and a released reference is never released twice.
/// Releasing requires the engine, so it is explicit: call [`Self::release`]
/// or [`Self::into_container`] before the handle is dropped.
#[derive(Debug)]
pub struct RustOwnerValue<T> {
    nref: u64,
    shape: Vec<i64>,
    elem: ElementType,
    mode: BindMode,
    expected_len: usize,
    live: bool,
    data: Vec<T>,
}

impl<T> View for RustOwnerValue<T> {
    type V = TensorModel<T>;

    closed spec fn view(&self) -> TensorModel<T> {
        TensorModel {
            nref: self.nref,
            shape: self.shape@,
            elem: self.elem,
            mode: self.mode,
            required: self.expected_len as int,
            live: self.live,
            data: self.data@,
        }
    }
}

/// Whether every dimension of the shape is non-negative.
fn shape_ok(shape: &Vec<i64>) -> (r: bool)
    ensures
        r == valid_shape(shape@),
{
    let n = shape.len();
    let mut i: usize = 0;
    while i < n
        invariant
            0 <= i <= n,
            n == shape@.len(),
            forall|k: int| 0 <= k < i ==> shape@[k] >= 0,
        decreases n - i,
    {
        if shape[i] < 0 {
            return false;
        }
        i += 1;
    }
    true
}

/// An owned copy of a dimension vector.
fn clone_dims(shape: &Vec<i64>) -> (r: Vec<i64>)
    ensures
        r@ == shape@,
{
    let n = shape.len();
    let mut out: Vec<i64> = Vec::new();
    let mut i: usize = 0;
    while i < n
        invariant
            0 <= i <= n,
            n == shape@.len(),
            out@ == shape@.take(i as int),
        decreases n - i,
    {
        out.push(shape[i]);
        proof {
            assert(shape@.take(i + 1) =~= shape@.take(i as int).push(shape@[i as int]));
        }
        i += 1;
    }
    proof {
        assert(shape@.take(n as int) =~= shape@);
    }
    out
}

/// Validates an element binding: the shape must be valid and its element
/// count must equal the buffer length exactly; an empty buffer has no
/// stable address and is rejected after the length check.
pub fn validate_typed(shape: &Vec<i64>, data_len: usize) -> (r: Result<usize, RunError>)
    ensures
        (!valid_shape(shape@) || elem_count(shape@) != data_len) <==> r matches Err(
            RunError::ShapeMismatch,
        ),
        (valid_shape(shape@) && elem_count(shape@) == data_len && data_len == 0) <==> r matches Err(
            RunError::NullBuffer,
        ),
        r matches Ok(c) ==> valid_shape(shape@) && c == elem_count(shape@) && c == data_len
            && data_len > 0,
        r is Ok <==> (valid_shape(shape@) && elem_count(shape@) == data_len && data_len > 0),
{
    match checked_elem_count(shape) {
        None => Err(RunError::ShapeMismatch),
        Some(c) => {
            if c != data_len {
                Err(RunError::ShapeMismatch)
            } else if data_len == 0 {
                Err(RunError::NullBuffer)
            } else {
                Ok(c)
            }
        },
    }
}

/// Validates a raw-bytes binding: the element type must have a fixed width,
/// and element count times width must equal the byte length exactly.
pub fn validate_raw(shape: &Vec<i64>, elem: ElementType, byte_len: usize) -> (r: Result<
    usize,
    RunError,
>)
    ensures
        !elem.fixed_width() <==> r matches Err(RunError::UnsupportedType),
        elem.fixed_width() ==> ((!valid_shape(shape@) || elem_count(shape@) * elem.width_spec()
            != byte_len) <==> r matches Err(RunError::ShapeMismatch)),
        elem.fixed_width() ==> ((valid_shape(shape@) && elem_count(shape@) * elem.width_spec()
            == byte_len && byte_len == 0) <==> r matches Err(RunError::NullBuffer)),
        r matches Ok(c) ==> elem.fixed_width() && valid_shape(shape@) && c == elem_count(shape@)
            * elem.width_spec() && c == byte_len && byte_len > 0,
        r is Ok <==> (elem.fixed_width() && valid_shape(shape@) && elem_count(shape@)
            * elem.width_spec() == byte_len && byte_len > 0),
{
    let width = match get_type_size(elem) {
        Ok(w) => w,
        Err(_) => {
            return Err(RunError::UnsupportedType);
        },
    };
    if !shape_ok(shape) {
        return Err(RunError::ShapeMismatch);
    }
    proof {
        lemma_elem_count_nonneg(shape@);
    }
    if width == 0 {
        // Element count times width is 0, whatever the count is.
        assert(elem_count(shape@) * elem.width_spec() == 0) by (nonlinear_arith)
            requires
                elem.width_spec() == 0,
        ;
        if byte_len != 0 {
            return Err(RunError::ShapeMismatch);
        }
        return Err(RunError::NullBuffer);
    }
    let count = match checked_elem_count(shape) {
        Some(c) => c,
        None => {
            // The count alone is beyond `usize`, so count times width is too.
            assert(elem_count(shape@) * elem.width_spec() >= elem_count(shape@)) by (
            nonlinear_arith)
                requires
                    elem_count(shape@) >= 0,
                    elem.width_spec() >= 1,
            ;
            return Err(RunError::ShapeMismatch);
        },
    };
    match count.checked_mul(width) {
        None => Err(RunError::ShapeMismatch),
        Some(total) => {
            if total != byte_len {
                Err(RunError::ShapeMismatch)
            } else if byte_len == 0 {
                Err(RunError::NullBuffer)
            } else {
                Ok(total)
            }
        },
    }
}

impl<T> RustOwnerValue<T> {
    /// Shared constructor of the two element-binding paths.
    fn bind_typed<E: TensorEngine<T>>(
        engine: &mut E,
        shape: &Vec<i64>,
        data: Vec<T>,
        elem: ElementType,
        writable: bool,
    ) -> (r: Result<RustOwnerValue<T>, BindError<T>>)
        ensures
            r matches Err(b) ==> b.buffer@ == data@,
            (r matches Err(b) && (b.error matches RunError::ShapeMismatch
                || b.error matches RunError::NullBuffer)) ==> *final(engine) == *old(engine),
            (!valid_shape(shape@) || elem_count(shape@) != data@.len()) <==> (r matches Err(b)
                && b.error matches RunError::ShapeMismatch),
            (valid_shape(shape@) && elem_count(shape@) == data@.len() && data@.len() == 0) <==> (
            r matches Err(b) && b.error matches RunError::NullBuffer),
            (valid_shape(shape@) && elem_count(shape@) == data@.len() && data@.len() > 0) ==> (
            r is Ok || (r matches Err(b) && b.error matches RunError::NativeCreateFailed { detail: _ })),
            r matches Ok(h) ==> ({
                &&& tensor_wf(h@)
                &&& h@.live
                &&& h@.shape == shape@
                &&& h@.elem == elem
                &&& h@.mode == (if writable {
                    BindMode::Mutable
                } else {
                    BindMode::Immutable
                })
                &&& h@.data == data@
            }),
    {
        let count = match validate_typed(shape, data.len()) {
            Err(e) => {
                return Err(BindError { error: e, buffer: data });
            },
            Ok(c) => c,
        };
        let tag = elem.tag_of();
        match engine.create_tensor(shape, tag, &data) {
            Err(msg) => Err(
                BindError { error: RunError::NativeCreateFailed { detail: msg }, buffer: data },
            ),
            Ok(nref) => {
                if engine.is_tensor(nref) {
                    Ok(
                        RustOwnerValue {
                            nref,
                            shape: clone_dims(shape),
                            elem,
                            mode: if writable {
                                BindMode::Mutable
                            } else {
                                BindMode::Immutable
                            },
                            expected_len: count,
                            live: true,
                            data,
                        },
                    )
                } else {
                    // Defensive self-check failed: release the created
                    // reference before reporting, so nothing leaks.
                    engine.release_tensor(nref);
                    Err(
                        BindError {
                            error: RunError::NativeCreateFailed {
                                detail: String::from_str("created native value is not a tensor"),
                            },
                            buffer: data,
                        },
                    )
                }
            },
        }
    }

    /// Binds a read-only element buffer to a fresh native tensor.
    ///
    /// Succeeds exactly when the shape is valid, its element count equals
    /// the buffer length, the buffer is non-empty, and the engine accepts
    /// the tensor; every failure hands the buffer back. That `elem`
    /// describes the layout of `T` is a caller obligation: the tag and the
    /// buffer are handed to the engine as given.
    pub fn new<E: TensorEngine<T>>(
        engine: &mut E,
        shape: &Vec<i64>,
        data: Vec<T>,
        elem: ElementType,
    ) -> (r: Result<RustOwnerValue<T>, BindError<T>>)
        ensures
            r matches Err(b) ==> b.buffer@ == data@,
            (r matches Err(b) && (b.error matches RunError::ShapeMismatch
                || b.error matches RunError::NullBuffer)) ==> *final(engine) == *old(engine),
            (!valid_shape(shape@) || elem_count(shape@) != data@.len()) <==> (r matches Err(b)
                && b.error matches RunError::ShapeMismatch),
            (valid_shape(shape@) && elem_count(shape@) == data@.len() && data@.len() == 0) <==> (
            r matches Err(b) && b.error matches RunError::NullBuffer),
            (valid_shape(shape@) && elem_count(shape@) == data@.len() && data@.len() > 0) ==> (
            r is Ok || (r matches Err(b) && b.error matches RunError::NativeCreateFailed { detail: _ })),
            r matches Ok(h) ==> ({
                &&& tensor_wf(h@)
                &&& h@.live
                &&& h@.shape == shape@
                &&& h@.elem == elem
                &&& h@.mode == BindMode::Immutable
                &&& h@.data == data@
            }),
    {
        Self::bind_typed(engine, shape, data, elem, false)
    }

    /// Binds a uniquely-owned writable element buffer; the handle then also
    /// permits a writable view back to the caller.
    pub fn new_mut<E: TensorEngine<T>>(
        engine: &mut E,
        shape: &Vec<i64>,
        data: Vec<T>,
        elem: ElementType,
    ) -> (r: Result<RustOwnerValue<T>, BindError<T>>)
        ensures
            r matches Err(b) ==> b.buffer@ == data@,
            (r matches Err(b) && (b.error matches RunError::ShapeMismatch
                || b.error matches RunError::NullBuffer)) ==> *final(engine) == *old(engine),
            (!valid_shape(shape@) || elem_count(shape@) != data@.len()) <==> (r matches Err(b)
                && b.error matches RunError::ShapeMismatch),
            (valid_shape(shape@) && elem_count(shape@) == data@.len() && data@.len() == 0) <==> (
            r matches Err(b) && b.error matches RunError::NullBuffer),
            (valid_shape(shape@) && elem_count(shape@) == data@.len() && data@.len() > 0) ==> (
            r is Ok || (r matches Err(b) && b.error matches RunError::NativeCreateFailed { detail: _ })),
            r matches Ok(h) ==> ({
                &&& tensor_wf(h@)
                &&& h@.live
                &&& h@.shape == shape@
                &&& h@.elem == elem
                &&& h@.mode == BindMode::Mutable
                &&& h@.data == data@
            }),
    {
        Self::bind_typed(engine, shape, data, elem, true)
    }

    /// A read-only view of the backing buffer: exactly the bound elements,
    /// in their original order.
    pub fn as_slice(&self) -> (r: &[T])
        ensures
            r@ == self@.data,
    {
        self.data.as_slice()
    }

    /// The declared shape.
    pub fn shape(&self) -> (r: &Vec<i64>)
        ensures
            r@ == self@.shape,
    {
        &self.shape
    }

    /// The declared element type.
    pub fn element_type(&self) -> (r: ElementType)
        ensures
            r == self@.elem,
    {
        self.elem
    }

    /// How the buffer was bound.
    pub fn bind_mode(&self) -> (r: BindMode)
        ensures
            r == self@.mode,
    {
        self.mode
    }

    /// Whether the native reference is still held.
    pub fn is_live(&self) -> (r: bool)
        ensures
            r == self@.live,
    {
        self.live
    }

    /// The native reference token, for protocol use while the handle is
    /// live.
    pub fn ptr(&self) -> (r: u64)
        requires
            self@.live,
        ensures
            r == self@.nref,
    {
        self.nref
    }

    /// The native reference token of a handle about to be written through.
    pub fn ptr_mut(&mut self) -> (r: u64)
        requires
            old(self)@.live,
        ensures
            r == old(self)@.nref,
            *final(self) == *old(self),
    {
        self.nref
    }

    /// A writable view of the backing buffer, for handles bound writable.
    pub fn as_mut_slice(&mut self) -> (r: &mut [T])
        requires
            is_writable(old(self)@.mode),
        ensures
            r@ == old(self)@.data,
            final(self)@ == (TensorModel { data: final(r)@, ..old(self)@ }),
    {
        self.data.as_mut_slice()
    }

    /// Releases the native reference. Safe to call again: the reference is
    /// released at most once, and a second call leaves the engine untouched.
    pub fn release<E: NativeEngine>(&mut self, engine: &mut E)
        ensures
            final(self)@ == (TensorModel { live: false, ..old(self)@ }),
            !old(self)@.live ==> *final(engine) == *old(engine),
    {
        if self.live {
            engine.release_tensor(self.nref);
            self.live = false;
        }
    }

    /// Releases the native reference (at most once) and hands the backing
    /// buffer back to the caller. Consumes the handle: it cannot be used
    /// again.
    pub fn into_container<E: NativeEngine>(self, engine: &mut E) -> (r: Vec<T>)
        ensures
            r@ == self@.data,
            !self@.live ==> *final(engine) == *old(engine),
    {
        if self.live {
            engine.release_tensor(self.nref);
        }
        self.data
    }
}

impl RustOwnerValue<u8> {
    /// Binds a raw byte buffer already laid out for `elem`: the escape
    /// hatch for shared or foreign memory. The string kind has no fixed
    /// width and is always rejected; otherwise the byte length must equal
    /// element count times width exactly.
    pub fn with_any_type<E: TensorEngine<u8>>(
        engine: &mut E,
        shape: &Vec<i64>,
        data: Vec<u8>,
        elem: ElementType,
    ) -> (r: Result<RustOwnerValue<u8>, BindError<u8>>)
        ensures
            r matches Err(b) ==> b.buffer@ == data@,
            (r matches Err(b) && (b.error matches RunError::UnsupportedType
                || b.error matches RunError::ShapeMismatch
                || b.error matches RunError::NullBuffer)) ==> *final(engine) == *old(engine),
            !elem.fixed_width() <==> (r matches Err(b) && b.error matches RunError::UnsupportedType),
            elem.fixed_width() ==> ((!valid_shape(shape@) || elem_count(shape@)
                * elem.width_spec() != data@.len()) <==> (r matches Err(b)
                && b.error matches RunError::ShapeMismatch)),
            elem.fixed_width() ==> ((valid_shape(shape@) && elem_count(shape@)
                * elem.width_spec() == data@.len() && data@.len() == 0) <==> (r matches Err(b)
                && b.error matches RunError::NullBuffer)),
            (elem.fixed_width() && valid_shape(shape@) && elem_count(shape@) * elem.width_spec()
                == data@.len() && data@.len() > 0) ==> (r is Ok || (r matches Err(b)
                && b.error matches RunError::NativeCreateFailed { detail: _ })),
            r matches Ok(h) ==> ({
                &&& tensor_wf(h@)
                &&& h@.live
                &&& h@.shape == shape@
                &&& h@.elem == elem
                &&& h@.mode == BindMode::RawImmutable
                &&& h@.data == data@
            }),
    {
        Self::bind_raw(engine, shape, data, elem, false)
    }

    /// Binds a raw byte buffer writable, for outputs laid out in shared or
    /// foreign memory; otherwise as [`Self::with_any_type`].
    pub fn with_any_type_mut<E: TensorEngine<u8>>(
        engine: &mut E,
        shape: &Vec<i64>,
        data: Vec<u8>,
        elem: ElementType,
    ) -> (r: Result<RustOwnerValue<u8>, BindError<u8>>)
        ensures
            r matches Err(b) ==> b.buffer@ == data@,
            (r matches Err(b) && (b.error matches RunError::UnsupportedType
                || b.error matches RunError::ShapeMismatch
                || b.error matches RunError::NullBuffer)) ==> *final(engine) == *old(engine),
            !elem.fixed_width() <==> (r matches Err(b) && b.error matches RunError::UnsupportedType),
            elem.fixed_width() ==> ((!valid_shape(shape@) || elem_count(shape@)
                * elem.width_spec() != data@.len()) <==> (r matches Err(b)
                && b.error matches RunError::ShapeMismatch)),
            elem.fixed_width() ==> ((valid_shape(shape@) && elem_count(shape@)
                * elem.width_spec() == data@.len() && data@.len() == 0) <==> (r matches Err(b)
                && b.error matches RunError::NullBuffer)),
            (elem.fixed_width() && valid_shape(shape@) && elem_count(shape@) * elem.width_spec()
                == data@.len() && data@.len() > 0) ==> (r is Ok || (r matches Err(b)
                && b.error matches RunError::NativeCreateFailed { detail: _ })),
            r matches Ok(h) ==> ({
                &&& tensor_wf(h@)
                &&& h@.live
                &&& h@.shape == shape@
                &&& h@.elem == elem
                &&& h@.mode == BindMode::RawMutable
                &&& h@.data == data@
            }),
    {
        Self::bind_raw(engine, shape, data, elem, true)
    }

    /// Shared constructor of the two raw-binding paths.
    fn bind_raw<E: TensorEngine<u8>>(
        engine: &mut E,
        shape: &Vec<i64>,
        data: Vec<u8>,
        elem: ElementType,
        writable: bool,
    ) -> (r: Result<RustOwnerValue<u8>, BindError<u8>>)
        ensures
            r matches Err(b) ==> b.buffer@ == data@,
            (r matches Err(b) && (b.error matches RunError::UnsupportedType
                || b.error matches RunError::ShapeMismatch
                || b.error matches RunError::NullBuffer)) ==> *final(engine) == *old(engine),
            !elem.fixed_width() <==> (r matches Err(b) && b.error matches RunError::UnsupportedType),
            elem.fixed_width() ==> ((!valid_shape(shape@) || elem_count(shape@)
                * elem.width_spec() != data@.len()) <==> (r matches Err(b)
                && b.error matches RunError::ShapeMismatch)),
            elem.fixed_width() ==> ((valid_shape(shape@) && elem_count(shape@)
                * elem.width_spec() == data@.len() && data@.len() == 0) <==> (r matches Err(b)
                && b.error matches RunError::NullBuffer)),
            (elem.fixed_width() && valid_shape(shape@) && elem_count(shape@) * elem.width_spec()
                == data@.len() && data@.len() > 0) ==> (r is Ok || (r matches Err(b)
                && b.error matches RunError::NativeCreateFailed { detail: _ })),
            r matches Ok(h) ==> ({
                &&& tensor_wf(h@)
                &&& h@.live
                &&& h@.shape == shape@
                &&& h@.elem == elem
                &&& h@.mode == (if writable {
                    BindMode::RawMutable
                } else {
                    BindMode::RawImmutable
                })
                &&& h@.data == data@
            }),
    {
        let total = match validate_raw(shape, elem, data.len()) {
            Err(e) => {
                return Err(BindError { error: e, buffer: data });
            },
            Ok(c) => c,
        };
        let tag = elem.tag_of();
        match engine.create_tensor(shape, tag, &data) {
            Err(msg) => Err(
                BindError { error: RunError::NativeCreateFailed { detail: msg }, buffer: data },
            ),
            Ok(nref) => {
                if engine.is_tensor(nref) {
                    Ok(
                        RustOwnerValue {
                            nref,
                            shape: clone_dims(shape),
                            elem,
                            mode: if writable {
                                BindMode::RawMutable
                            } else {
                                BindMode::RawImmutable
                            },
                            expected_len: total,
                            live: true,
                            data,
                        },
                    )
                } else {
                    engine.release_tensor(nref);
                    Err(
                        BindError {
                            error: RunError::NativeCreateFailed {
                                detail: String::from_str("created native value is not a tensor"),
                            },
                            buffer: data,
                        },
                    )
                }
            },
        }
    }
}

/// An ordered table of owned, null-terminated tensor names.
///
/// Each caller string is copied into a form the C boundary can consume: its
/// bytes followed by exactly one terminator byte, with embedded terminators
/// rejected. The view is the sequence of stored (terminated) strings.
pub struct Names {
    bytes: Vec<Vec<u8>>,
}

impl View for Names {
    type V = Seq<Seq<u8>>;

    closed spec fn view(&self) -> Seq<Seq<u8>> {
        self.bytes.deep_view()
    }
}

impl Names {
    /// Every stored name ends in exactly one terminator byte and holds none
    /// before it.
    pub open spec fn wf(self) -> bool {
        forall|i: int|
            0 <= i < self@.len() ==> {
                &&& self@[i].len() >= 1
                &&& self@[i].last() == 0
                &&& forall|j: int| 0 <= j < self@[i].len() - 1 ==> self@[i][j] != 0
            }
    }

    /// Builds a table from raw (unterminated) names, copying each into an
    /// owned null-terminated string. Fails with `InvalidName` exactly when
    /// a name holds an embedded terminator byte.
    pub fn new(names: &Vec<Vec<u8>>) -> (r: Result<Names, RunError>)
        ensures
            r matches Ok(t) ==> ({
                &&& t@.len() == names@.len()
                &&& forall|i: int|
                    0 <= i < names@.len() ==> t@[i] == names@[i]@ + seq![0u8]
                &&& t.wf()
            }),
            r is Ok <==> (forall|i: int|
                0 <= i < names@.len() ==> !names@[i]@.contains(0u8)),
            r matches Err(e) ==> e matches RunError::InvalidName,
    {
        let n = names.len();
        let mut bytes: Vec<Vec<u8>> = Vec::new();
        let mut i: usize = 0;
        while i < n
            invariant
                0 <= i <= n,
                n == names@.len(),
                bytes@.len() == i,
                forall|k: int| 0 <= k < i ==> bytes@[k]@ == names@[k]@ + seq![0u8],
                forall|k: int| 0 <= k < i ==> !names@[k]@.contains(0u8),
            decreases n - i,
        {
            let name = &names[i];
            let m = name.len();
            let mut owned: Vec<u8> = Vec::new();
            let mut j: usize = 0;
            while j < m
                invariant
                    0 <= j <= m,
                    i < n,
                    n == names@.len(),
                    name@ == names@[i as int]@,
                    m == name@.len(),
                    owned@ == name@.take(j as int),
                    forall|l: int| 0 <= l < j ==> name@[l] != 0,
                decreases m - j,
            {
                let b = name[j];
                if b == 0 {
                    proof {
                        assert(names@[i as int]@[j as int] == 0);
                    }
                    return Err(RunError::InvalidName);
                }
                owned.push(b);
                proof {
                    assert(name@.take(j + 1) =~= name@.take(j as int).push(name@[j as int]));
                }
                j += 1;
            }
            proof {
                assert(name@.take(m as int) =~= name@);
            }
            owned.push(0);
            bytes.push(owned);
            i += 1;
        }
        proof {
            assert(forall|k: int| #![auto]
                0 <= k < n ==> bytes.deep_view()[k] == bytes@[k]@);
        }
        Ok(Names { bytes })
    }

    /// How many names the table holds.
    pub fn len(&self) -> (r: usize)
        ensures
            r == self@.len(),
    {
        self.bytes.len()
    }

    /// The stored null-terminated strings, parallel to the names handed in;
    /// a backend derives its pointer array from these.
    pub fn as_bytes(&self) -> (r: &Vec<Vec<u8>>)
        ensures
            r.deep_view() == self@,
    {
        &self.bytes
    }

    /// The stored null-terminated string at `index`.
    pub fn get(&self, index: usize) -> (r: &Vec<u8>)
        requires
            index < self@.len(),
        ensures
            r@ == self@[index as int],
    {
        &self.bytes[index]
    }
}

/// A failed replacement in a handle batch: the typed failure together with
/// the handle that was to be inserted, handed back to the caller.
#[derive(Debug)]
pub struct ReplaceError<T> {
    pub error: RunError,
    pub handle: RustOwnerValue<T>,
}

/// An ordered batch of owned tensor handles together with the parallel
/// array of their native reference tokens.
///
/// The token array is a snapshot: it is derived when the batch is built and
/// re-derived at an index whenever the handle there is replaced, so under
/// [`Self::wf`] entry `i` always equals handle `i`'s current reference.
pub struct Values<T> {
    ptrs: Vec<u64>,
    values: Vec<RustOwnerValue<T>>,
}

impl<T> Values<T> {
    /// The handles, in order.
    pub closed spec fn handles(self) -> Seq<RustOwnerValue<T>> {
        self.values@
    }

    /// The snapshot of native reference tokens.
    pub closed spec fn refs_spec(self) -> Seq<u64> {
        self.ptrs@
    }

    /// The snapshot is parallel to the handles and up to date.
    pub open spec fn wf(self) -> bool {
        &&& self.refs_spec().len() == self.handles().len()
        &&& forall|i: int|
            0 <= i < self.handles().len() ==> self.refs_spec()[i] == self.handles()[i]@.nref
    }

    /// Takes ownership of the handles and derives the token array.
    pub fn new(values: Vec<RustOwnerValue<T>>) -> (r: Values<T>)
        requires
            forall|i: int| 0 <= i < values@.len() ==> values@[i]@.live,
        ensures
            r.handles() == values@,
            r.wf(),
    {
        let n = values.len();
        let mut ptrs: Vec<u64> = Vec::new();
        let mut i: usize = 0;
        while i < n
            invariant
                0 <= i <= n,
                n == values@.len(),
                forall|k: int| 0 <= k < n ==> values@[k]@.live,
                ptrs@.len() == i,
                forall|k: int| 0 <= k < i ==> ptrs@[k] == values@[k]@.nref,
            decreases n - i,
        {
            ptrs.push(values[i].ptr());
            i += 1;
        }
        Values { ptrs, values }
    }

    /// How many handles the batch holds.
    pub fn len(&self) -> (r: usize)
        ensures
            r == self.handles().len(),
    {
        self.values.len()
    }

    /// The handle at `index`, or `IndexOutOfRange` outside `[0, length)`.
    pub fn get(&self, index: usize) -> (r: Result<&RustOwnerValue<T>, RunError>)
        ensures
            index < self.handles().len() ==> (r matches Ok(h) && *h == self.handles()[index as int]),
            index >= self.handles().len() ==> (r matches Err(
                RunError::IndexOutOfRange { index: i2, len: l2 },
            ) && i2 == index && l2 == self.handles().len()),
    {
        if index < self.values.len() {
            Ok(&self.values[index])
        } else {
            Err(RunError::IndexOutOfRange { index, len: self.values.len() })
        }
    }

    /// Replaces the handle at `index`, re-deriving the token snapshot there,
    /// and returns the handle that was replaced. Outside `[0, length)` the
    /// batch is untouched and the offered handle comes back in the error.
    pub fn replace(&mut self, index: usize, handle: RustOwnerValue<T>) -> (r: Result<
        RustOwnerValue<T>,
        ReplaceError<T>,
    >)
        requires
            old(self).wf(),
            handle@.live,
        ensures
            index < old(self).handles().len() ==> ({
                &&& r matches Ok(h) && h == old(self).handles()[index as int]
                &&& final(self).handles() == old(self).handles().update(index as int, handle)
                &&& final(self).refs_spec() == old(self).refs_spec().update(
                    index as int,
                    handle@.nref,
                )
                &&& final(self).wf()
            }),
            index >= old(self).handles().len() ==> ({
                &&& r matches Err(e)
                &&& e.handle == handle
                &&& (e.error matches RunError::IndexOutOfRange { index: i2, len: l2 } && i2
                    == index && l2 == old(self).handles().len())
                &&& *final(self) == *old(self)
            }),
    {
        if index < self.values.len() {
            self.ptrs.set(index, handle.ptr());
            let mut h = handle;
            core::mem::swap(&mut h, &mut self.values[index]);
            Ok(h)
        } else {
            Err(
                ReplaceError {
                    error: RunError::IndexOutOfRange { index, len: self.values.len() },
                    handle,
                },
            )
        }
    }

    /// The token snapshot, parallel to the handles; the native run call's
    /// array-of-handles parameter is derived from it.
    pub fn native_refs(&self) -> (r: &Vec<u64>)
        ensures
            r@ == self.refs_spec(),
    {
        &self.ptrs
    }

    /// A read-only view of the handles.
    pub fn as_slice(&self) -> (r: &[RustOwnerValue<T>])
        ensures
            r@ == self.handles(),
    {
        self.values.as_slice()
    }

    /// Dissolves the batch back into its handles.
    pub fn into_inner(self) -> (r: Vec<RustOwnerValue<T>>)
        ensures
            r@ == self.handles(),
    {
        self.values
    }
}

/// An opaque reference to a native run-options object. It is resolved by
/// the protocol: absent options mean the null sentinel 0, "use session
/// defaults".
pub struct RunOptions {
    options_ref: u64,
}

impl RunOptions {
    /// The native reference token of the options object.
    pub closed spec fn ref_spec(self) -> u64 {
        self.options_ref
    }

    /// Wraps a native options reference token.
    pub fn new(options_ref: u64) -> (r: RunOptions)
        ensures
            r.ref_spec() == options_ref,
    {
        RunOptions { options_ref }
    }

    /// The native reference token.
    pub fn options_ref(&self) -> (r: u64)
        ensures
            r == self.ref_spec(),
    {
        self.options_ref
    }
}

/// The run-options reference to hand to the engine: the options object's
/// token, or 0 when none was supplied.
fn resolve_options(run_options: Option<&RunOptions>) -> (r: u64)
    ensures
        match run_options {
            Some(o) => r == o.ref_spec(),
            None => r == 0,
        },
{
    match run_options {
        Some(o) => o.options_ref(),
        None => 0,
    }
}

/// Two handle models that agree on everything but the buffer contents: the
/// native reference, shape, element type, mode, required length and
/// liveness are the same.
pub open spec fn same_binding<T>(a: TensorModel<T>, b: TensorModel<T>) -> bool {
    &&& a.nref == b.nref
    &&& a.shape == b.shape
    &&& a.elem == b.elem
    &&& a.mode == b.mode
    &&& a.required == b.required
    &&& a.live == b.live
}

/// The native reference tokens of a sequence of live handles, in order.
fn collect_refs<T>(handles: &Vec<RustOwnerValue<T>>) -> (r: Vec<u64>)
    requires
        forall|i: int| 0 <= i < handles@.len() ==> handles@[i]@.live,
    ensures
        r@.len() == handles@.len(),
        forall|i: int| 0 <= i < handles@.len() ==> r@[i] == handles@[i]@.nref,
{
    let n = handles.len();
    let mut refs: Vec<u64> = Vec::new();
    let mut i: usize = 0;
    while i < n
        invariant
            0 <= i <= n,
            n == handles@.len(),
            forall|k: int| 0 <= k < n ==> handles@[k]@.live,
            refs@.len() == i,
            forall|k: int| 0 <= k < i ==> refs@[k] == handles@[k]@.nref,
        decreases n - i,
    {
        refs.push(handles[i].ptr());
        i += 1;
    }
    refs
}

/// Moves the backing buffers out of the handles, leaving each handle empty
/// but otherwise untouched; the buffers come back through [`put_bufs`].
fn take_bufs<T>(handles: &mut Vec<RustOwnerValue<T>>) -> (r: Vec<Vec<T>>)
    ensures
        final(handles)@.len() == old(handles)@.len(),
        r@.len() == old(handles)@.len(),
        forall|i: int| 0 <= i < old(handles)@.len() ==> r@[i]@ == old(handles)@[i]@.data,
        forall|i: int|
            0 <= i < old(handles)@.len() ==> same_binding(
                final(handles)@[i]@,
                old(handles)@[i]@,
            ) && final(handles)@[i]@.data.len() == 0,
{
    let n = handles.len();
    let mut bufs: Vec<Vec<T>> = Vec::new();
    let mut i: usize = 0;
    while i < n
        invariant
            0 <= i <= n,
            n == old(handles)@.len(),
            handles@.len() == n,
            bufs@.len() == i,
            forall|k: int| i <= k < n ==> handles@[k] == old(handles)@[k],
            forall|k: int| 0 <= k < i ==> bufs@[k]@ == old(handles)@[k]@.data,
            forall|k: int|
                0 <= k < i ==> same_binding(handles@[k]@, old(handles)@[k]@)
                    && handles@[k]@.data.len() == 0,
        decreases n - i,
    {
        let mut tmp: Vec<T> = Vec::new();
        let h = &mut handles[i];
        core::mem::swap(&mut tmp, &mut h.data);
        bufs.push(tmp);
        i += 1;
    }
    bufs
}

/// Installs buffers back into the handles, position by position. Returns
/// whether every handle got a buffer of exactly its required length; even
/// when not, whatever came back is installed so the caller keeps the data.
fn put_bufs<T>(handles: &mut Vec<RustOwnerValue<T>>, bufs: Vec<Vec<T>>) -> (ok: bool)
    ensures
        final(handles)@.len() == old(handles)@.len(),
        forall|i: int|
            0 <= i < old(handles)@.len() ==> same_binding(final(handles)@[i]@, old(handles)@[i]@),
        forall|i: int|
            0 <= i < old(handles)@.len() && i < bufs@.len() ==> final(handles)@[i]@.data
                == bufs@[i]@,
        forall|i: int|
            bufs@.len() <= i < old(handles)@.len() ==> final(handles)@[i]@.data == old(
                handles,
            )@[i]@.data,
        ok <==> (bufs@.len() == old(handles)@.len() && forall|i: int|
            0 <= i < bufs@.len() ==> bufs@[i]@.len() == old(handles)@[i]@.required),
{
    let n = handles.len();
    let m = bufs.len();
    let ghost bufs0 = bufs@;
    let mut bufs = bufs;
    let mut ok: bool = m == n;
    let mut i: usize = 0;
    while i < n
        invariant
            0 <= i <= n,
            n == old(handles)@.len(),
            handles@.len() == n,
            m == bufs0.len(),
            bufs@.len() == m,
            forall|k: int| i <= k < m ==> bufs@[k] == bufs0[k],
            forall|k: int| i <= k < n ==> handles@[k] == old(handles)@[k],
            forall|k: int|
                0 <= k < i ==> same_binding(handles@[k]@, old(handles)@[k]@),
            forall|k: int|
                0 <= k < i && k < m ==> handles@[k]@.data == bufs0[k]@,
            forall|k: int| m <= k < i ==> handles@[k]@.data == old(handles)@[k]@.data,
            ok <==> (m == n && forall|k: int|
                0 <= k < i && k < m ==> bufs0[k]@.len() == old(handles)@[k]@.required),
        decreases n - i,
    {
        if i < m {
            let mut tmp: Vec<T> = Vec::new();
            core::mem::swap(&mut tmp, &mut bufs[i]);
            proof {
                assert(tmp@ == bufs0[i as int]@);
            }
            let req = handles[i].expected_len;
            if tmp.len() != req {
                ok = false;
                proof {
                    assert(bufs0[i as int]@.len() != old(handles)@[i as int]@.required);
                }
            } else {
                proof {
                    assert(bufs0[i as int]@.len() == old(handles)@[i as int]@.required);
                }
            }
            let h = &mut handles[i];
            core::mem::swap(&mut h.data, &mut tmp);
        }
        i += 1;
    }
    ok
}

/// Performs one native run over already-derived arrays: moves the output
/// buffers to the engine, invokes it, and installs back what it left,
/// checking every returned buffer against its handle's required length.
fn exec_run<E: TensorEngine<O>, O>(
    engine: &mut E,
    session_ref: u64,
    options_ref: u64,
    input_names: &Vec<Vec<u8>>,
    input_refs: &Vec<u64>,
    output_names: &Vec<Vec<u8>>,
    outputs: &mut Vec<RustOwnerValue<O>>,
) -> (r: Result<(), RunError>)
    requires
        forall|i: int|
            0 <= i < old(outputs)@.len() ==> old(outputs)@[i]@.live && tensor_wf(
                old(outputs)@[i]@,
            ),
    ensures
        final(outputs)@.len() == old(outputs)@.len(),
        forall|i: int|
            0 <= i < old(outputs)@.len() ==> same_binding(final(outputs)@[i]@, old(outputs)@[i]@),
        r is Ok ==> forall|i: int|
            0 <= i < old(outputs)@.len() ==> tensor_wf(final(outputs)@[i]@),
        r matches Err(e) ==> e matches RunError::InferenceFailed { detail: _ },
{
    let output_refs = collect_refs(outputs);
    let mut bufs = take_bufs(outputs);
    let run_result = engine.run(
        session_ref,
        options_ref,
        input_names,
        input_refs,
        output_names,
        &output_refs,
        &mut bufs,
    );
    let ghost mid = outputs@;
    let ghost handed = bufs@;
    let ok = put_bufs(outputs, bufs);
    proof {
        if ok {
            assert forall|i: int| 0 <= i < old(outputs)@.len() implies tensor_wf(
                outputs@[i]@,
            ) by {
                assert(same_binding(mid[i]@, old(outputs)@[i]@));
                assert(handed.len() == mid.len());
                assert(handed[i]@.len() == mid[i]@.required);
                assert(outputs@[i]@.data == handed[i]@);
                assert(same_binding(outputs@[i]@, old(outputs)@[i]@));
                assert(outputs@[i]@.data.len() == old(outputs)@[i]@.required);
            }
        }
    }
    match run_result {
        Err(msg) => Err(RunError::InferenceFailed { detail: msg }),
        Ok(_) => {
            if ok {
                Ok(())
            } else {
                Err(
                    RunError::InferenceFailed {
                        detail: String::from_str("native run returned malformed output buffers"),
                    },
                )
            }
        },
    }
}

/// The collaborator interface of a loaded inference session: its native
/// reference and its declared output-name list, against which the output
/// handle count is validated.
pub struct Session {
    session_ref: u64,
    outputs: Vec<Vec<u8>>,
}

impl Session {
    /// The native reference token of the session.
    pub closed spec fn ref_spec(self) -> u64 {
        self.session_ref
    }

    /// The declared output names, in declaration order.
    pub closed spec fn declared_outputs(self) -> Seq<Seq<u8>> {
        self.outputs.deep_view()
    }

    /// Wraps a native session reference and its declared output names.
    pub fn new(session_ref: u64, outputs: Vec<Vec<u8>>) -> (r: Session)
        ensures
            r.ref_spec() == session_ref,
            r.declared_outputs() == outputs.deep_view(),
    {
        Session { session_ref, outputs }
    }

    /// The native reference token.
    pub fn session_ref(&self) -> (r: u64)
        ensures
            r == self.ref_spec(),
    {
        self.session_ref
    }

    /// How many outputs the session declares.
    pub fn output_count(&self) -> (r: usize)
        ensures
            r == self.declared_outputs().len(),
    {
        self.outputs.len()
    }

    /// The declared output names.
    pub fn output_names(&self) -> (r: &Vec<Vec<u8>>)
        ensures
            r.deep_view() == self.declared_outputs(),
    {
        &self.outputs
    }

    /// One synchronous run with explicit name tables and handle slices for
    /// both directions. The count agreements and handle liveness are
    /// preconditions; after a successful run the output handles carry
    /// whatever the engine wrote, with their bindings untouched.
    pub fn run_with_io_ref<E: TensorEngine<O>, I, O>(
        &self,
        engine: &mut E,
        input_names: &Names,
        inputs: &Vec<RustOwnerValue<I>>,
        output_names: &Names,
        outputs: &mut Vec<RustOwnerValue<O>>,
        run_options: Option<&RunOptions>,
    ) -> (r: Result<(), RunError>)
        requires
            input_names@.len() == inputs@.len(),
            output_names@.len() == old(outputs)@.len(),
            forall|i: int| 0 <= i < inputs@.len() ==> inputs@[i]@.live,
            forall|i: int|
                0 <= i < old(outputs)@.len() ==> old(outputs)@[i]@.live && tensor_wf(
                    old(outputs)@[i]@,
                ),
        ensures
            final(outputs)@.len() == old(outputs)@.len(),
            forall|i: int|
                0 <= i < old(outputs)@.len() ==> same_binding(
                    final(outputs)@[i]@,
                    old(outputs)@[i]@,
                ),
            r is Ok ==> forall|i: int|
                0 <= i < old(outputs)@.len() ==> tensor_wf(final(outputs)@[i]@),
            r matches Err(e) ==> e matches RunError::InferenceFailed { detail: _ },
    {
        let input_refs = collect_refs(inputs);
        let options_ref = resolve_options(run_options);
        exec_run(
            engine,
            self.session_ref,
            options_ref,
            input_names.as_bytes(),
            &input_refs,
            output_names.as_bytes(),
            outputs,
        )
    }

    /// One synchronous run over handle batches: as
    /// [`Self::run_with_io_ref`], reusing the batches' token snapshots, and
    /// preserving the output batch's snapshot invariant.
    pub fn run_with_values<E: TensorEngine<O>, I, O>(
        &self,
        engine: &mut E,
        input_names: &Names,
        inputs: &Values<I>,
        output_names: &Names,
        outputs: &mut Values<O>,
        run_options: Option<&RunOptions>,
    ) -> (r: Result<(), RunError>)
        requires
            inputs.wf(),
            old(outputs).wf(),
            input_names@.len() == inputs.handles().len(),
            output_names@.len() == old(outputs).handles().len(),
            forall|i: int| 0 <= i < inputs.handles().len() ==> inputs.handles()[i]@.live,
            forall|i: int|
                0 <= i < old(outputs).handles().len() ==> old(outputs).handles()[i]@.live
                    && tensor_wf(old(outputs).handles()[i]@),
        ensures
            final(outputs).wf(),
            final(outputs).refs_spec() == old(outputs).refs_spec(),
            final(outputs).handles().len() == old(outputs).handles().len(),
            forall|i: int|
                0 <= i < old(outputs).handles().len() ==> same_binding(
                    final(outputs).handles()[i]@,
                    old(outputs).handles()[i]@,
                ),
            r is Ok ==> forall|i: int|
                0 <= i < old(outputs).handles().len() ==> tensor_wf(final(outputs).handles()[i]@),
            r matches Err(e) ==> e matches RunError::InferenceFailed { detail: _ },
    {
        let options_ref = resolve_options(run_options);
        exec_run(
            engine,
            self.session_ref,
            options_ref,
            input_names.as_bytes(),
            inputs.native_refs(),
            output_names.as_bytes(),
            &mut outputs.values,
        )
    }

    /// One synchronous run that derives the output names from the session's
    /// declared output list: validates the output handle count against the
    /// declared count, builds both name tables, and only then runs.
    /// `OutputCountMismatch` and `InvalidName` are reported before any
    /// native call, with the output handles untouched.
    pub fn run_io<E: TensorEngine<O>, I, O>(
        &self,
        engine: &mut E,
        input_names: &Vec<Vec<u8>>,
        inputs: &Vec<RustOwnerValue<I>>,
        outputs: &mut Vec<RustOwnerValue<O>>,
        run_options: Option<&RunOptions>,
    ) -> (r: Result<(), RunError>)
        requires
            input_names@.len() == inputs@.len(),
            forall|i: int| 0 <= i < inputs@.len() ==> inputs@[i]@.live,
            forall|i: int|
                0 <= i < old(outputs)@.len() ==> old(outputs)@[i]@.live && tensor_wf(
                    old(outputs)@[i]@,
                ),
        ensures
            (old(outputs)@.len() != self.declared_outputs().len()) <==> (r matches Err(
                RunError::OutputCountMismatch { declared, supplied },
            ) && declared == self.declared_outputs().len() && supplied == old(outputs)@.len()),
            old(outputs)@.len() == self.declared_outputs().len() ==> (((exists|i: int|
                0 <= i < input_names@.len() && input_names@[i]@.contains(0u8)) || (exists|i: int|
                0 <= i < self.declared_outputs().len() && self.declared_outputs()[i].contains(
                    0u8,
                ))) <==> r matches Err(RunError::InvalidName)),
            r matches Err(RunError::OutputCountMismatch { declared, supplied }) ==> (declared
                == self.declared_outputs().len() && supplied == old(outputs)@.len()),
            (r matches Err(RunError::OutputCountMismatch { .. }) || r matches Err(
            RunError::InvalidName)) ==> (final(outputs)@ == old(outputs)@ && *final(engine)
                == *old(engine)),
            final(outputs)@.len() == old(outputs)@.len(),
            forall|i: int|
                0 <= i < old(outputs)@.len() ==> same_binding(
                    final(outputs)@[i]@,
                    old(outputs)@[i]@,
                ),
            r is Ok ==> forall|i: int|
                0 <= i < old(outputs)@.len() ==> tensor_wf(final(outputs)@[i]@),
            r matches Err(e) ==> (e matches RunError::OutputCountMismatch { .. }
                || e matches RunError::InvalidName || e matches RunError::InferenceFailed {
                detail: _,
            }),
    {
        proof {
            assert(forall|i: int| #![auto]
                0 <= i < self.outputs@.len() ==> self.declared_outputs()[i]
                    == self.outputs@[i]@);
        }
        let declared = self.outputs.len();
        let supplied = outputs.len();
        if supplied != declared {
            return Err(RunError::OutputCountMismatch { declared, supplied });
        }
        let in_table = match Names::new(input_names) {
            Ok(t) => t,
            Err(e) => {
                return Err(e);
            },
        };
        let out_table = match Names::new(&self.outputs) {
            Ok(t) => t,
            Err(e) => {
                proof {
                    assert(exists|i: int|
                        0 <= i < self.outputs@.len() && self.outputs@[i]@.contains(0u8));
                    let c = choose|i: int|
                        0 <= i < self.outputs@.len() && self.outputs@[i]@.contains(0u8);
                    assert(self.declared_outputs()[c].contains(0u8));
                }
                return Err(e);
            },
        };
        let input_refs = collect_refs(inputs);
        let options_ref = resolve_options(run_options);
        exec_run(
            engine,
            self.session_ref,
            options_ref,
            in_table.as_bytes(),
            &input_refs,
            out_table.as_bytes(),
            outputs,
        )
    }
}

} // verus!
