//! Complex vectors: owning handles of complex scalar payloads with a fixed
//! length.
//!
//! `VectorComplexF64` and `VectorComplexF32` follow the same handle
//! conventions as the real vectors: a constructor that validates its
//! dimension, bounds-respecting element access, deep copies, and
//! length-checked bulk operations that report a status code instead of
//! touching mismatched operands.  Elementwise arithmetic is obtained by
//! passing the scalar operation in as a closure.

use vstd::prelude::*;

use crate::complex::{ComplexF32, ComplexF64};
use crate::status::{conformance_status, Value};
use crate::storage::Buffer;
use crate::vector::{UNIT_F32, UNIT_F64};

verus! {


/// An owning handle on a fixed-length run of double-precision complex scalar
/// payloads.
pub struct VectorComplexF64 {
    buf: Buffer<ComplexF64>,
}

impl View for VectorComplexF64 {
    type V = Seq<ComplexF64>;

    closed spec fn view(&self) -> Seq<ComplexF64> {
        self.buf@
    }
}

impl VectorComplexF64 {
    /// A vector taking ownership of an already-built storage run.
    pub(crate) fn from_buffer(buf: Buffer<ComplexF64>) -> (r: VectorComplexF64)
        ensures
            r@ == buf@,
    {
        VectorComplexF64 { buf }
    }

    /// Borrow of the underlying storage, the analogue of the native handle
    /// that the wrapped routines operate on.
    pub fn get_ffi(&self) -> (r: &Buffer<ComplexF64>)
        ensures
            r@ == self@,
    {
        &self.buf
    }

    /// A vector of `size` zero elements, or nothing when the dimension is
    /// not a positive integer.
    pub fn new(size: usize) -> (r: Option<VectorComplexF64>)
        ensures
            r is Some <==> size > 0,
            r is Some ==> r.unwrap()@ == Seq::new(size as nat, |i: int| (ComplexF64 { re: 0u64, im: 0u64 })),
    {
        if size == 0 {
            None
        } else {
            Some(VectorComplexF64 { buf: Buffer::filled(size, (ComplexF64 { re: 0u64, im: 0u64 })) })
        }
    }

    /// A vector holding the elements of `slice`, or nothing when the slice
    /// is empty.
    pub fn from_slice(slice: &[ComplexF64]) -> (r: Option<VectorComplexF64>)
        ensures
            r is Some <==> slice@.len() > 0,
            r is Some ==> r.unwrap()@ == slice@,
    {
        let n = slice.len();
        if n == 0 {
            return None;
        }
        let mut buf = Buffer::filled(n, (ComplexF64 { re: 0u64, im: 0u64 }));
        let mut k: usize = 0;
        while k < n
            invariant
                n == buf@.len(),
                n == slice@.len(),
                k <= n,
                forall|i: int| 0 <= i < k ==> buf@[i] == slice@[i],
            decreases n - k,
        {
            buf.set(k, slice[k]);
            k = k + 1;
        }
        proof {
            assert(buf@ =~= slice@);
        }
        Some(VectorComplexF64 { buf })
    }

    /// The fixed length.
    pub fn len(&self) -> (r: usize)
        ensures
            r == self@.len(),
    {
        self.buf.len()
    }

    /// The element at `i`; outside the valid range the zero pattern is
    /// returned, as the engine's reporting error handler would arrange.
    pub fn get(&self, i: usize) -> (r: ComplexF64)
        ensures
            i < self@.len() ==> r == self@[i as int],
            i >= self@.len() ==> r == (ComplexF64 { re: 0u64, im: 0u64 }),
    {
        if i < self.buf.len() {
            self.buf.get(i)
        } else {
            (ComplexF64 { re: 0u64, im: 0u64 })
        }
    }

    /// Stores `x` at `i`; outside the valid range the write is ignored, as
    /// the engine's reporting error handler would arrange.
    pub fn set(&mut self, i: usize, x: &ComplexF64)
        ensures
            i < old(self)@.len() ==> final(self)@ == old(self)@.update(i as int, *x),
            i >= old(self)@.len() ==> final(self)@ == old(self)@,
    {
        if i < self.buf.len() {
            self.buf.set(i, *x);
        }
    }

    /// Sets every element to `x`.
    pub fn set_all(&mut self, x: &ComplexF64)
        ensures
            final(self)@.len() == old(self)@.len(),
            forall|i: int| 0 <= i < final(self)@.len() ==> final(self)@[i] == *x,
    {
        self.buf.fill(*x);
    }

    /// Sets every element to zero.
    pub fn set_zero(&mut self)
        ensures
            final(self)@.len() == old(self)@.len(),
            forall|i: int| 0 <= i < final(self)@.len() ==> final(self)@[i] == (ComplexF64 { re: 0u64, im: 0u64 }),
    {
        self.buf.fill((ComplexF64 { re: 0u64, im: 0u64 }));
    }

    /// Makes a basis vector: every element becomes zero except the `i`-th,
    /// which becomes one.  An index outside the valid range is rejected
    /// before anything is zeroed, as the engine's reporting error handler
    /// would arrange, and the vector is left unchanged.
    pub fn set_basis(&mut self, i: usize)
        ensures
            final(self)@.len() == old(self)@.len(),
            i < old(self)@.len() ==> forall|j: int|
                0 <= j < final(self)@.len() ==> final(self)@[j] == (if j == i as int {
                    (ComplexF64 { re: UNIT_F64, im: 0u64 })
                } else {
                    (ComplexF64 { re: 0u64, im: 0u64 })
                }),
            i >= old(self)@.len() ==> final(self)@ == old(self)@,
    {
        if i < self.buf.len() {
            self.buf.fill((ComplexF64 { re: 0u64, im: 0u64 }));
            self.buf.set(i, (ComplexF64 { re: UNIT_F64, im: 0u64 }));
        }
    }

    /// Overwrites this vector with the elements of `other`; the two vectors
    /// must have the same length, else the operands are left unchanged and
    /// the length-mismatch status is reported.
    pub fn copy_from(&mut self, other: &VectorComplexF64) -> (r: Value)
        ensures
            r == conformance_status(old(self)@.len(), other@.len()),
            r == Value::Success ==> final(self)@ == other@,
            r != Value::Success ==> final(self)@ == old(self)@,
    {
        if self.buf.len() == other.buf.len() {
            self.buf.copy_from(&other.buf);
            Value::Success
        } else {
            Value::BadLen
        }
    }

    /// Copies the elements of this vector into `other`; the two vectors
    /// must have the same length, else the operands are left unchanged and
    /// the length-mismatch status is reported.
    pub fn copy_to(&self, other: &mut VectorComplexF64) -> (r: Value)
        ensures
            r == conformance_status(self@.len(), old(other)@.len()),
            r == Value::Success ==> final(other)@ == self@,
            r != Value::Success ==> final(other)@ == old(other)@,
    {
        if self.buf.len() == other.buf.len() {
            other.buf.copy_from(&self.buf);
            Value::Success
        } else {
            Value::BadLen
        }
    }

    /// Exchanges the elements of the two vectors; they must have the same
    /// length, else both are left unchanged and the length-mismatch status
    /// is reported.
    pub fn swap(&mut self, other: &mut VectorComplexF64) -> (r: Value)
        ensures
            r == conformance_status(old(self)@.len(), old(other)@.len()),
            r == Value::Success ==> final(self)@ == old(other)@ && final(other)@ == old(self)@,
            r != Value::Success ==> final(self)@ == old(self)@ && final(other)@ == old(other)@,
    {
        if self.buf.len() == other.buf.len() {
            self.buf.swap_content(&mut other.buf);
            Value::Success
        } else {
            Value::BadLen
        }
    }

    /// Exchanges the elements at `i` and `j` in place; an index outside the
    /// valid range leaves the vector unchanged and reports the
    /// invalid-argument status.
    pub fn swap_elements(&mut self, i: usize, j: usize) -> (r: Value)
        ensures
            r == (if i < old(self)@.len() && j < old(self)@.len() {
                Value::Success
            } else {
                Value::Inval
            }),
            r == Value::Success ==> final(self)@ == old(self)@.update(
                i as int,
                old(self)@[j as int],
            ).update(j as int, old(self)@[i as int]),
            r != Value::Success ==> final(self)@ == old(self)@,
    {
        if i < self.buf.len() && j < self.buf.len() {
            self.buf.swap_elements(i, j);
            Value::Success
        } else {
            Value::Inval
        }
    }

    /// Reverses the order of the elements in place.
    pub fn reverse(&mut self) -> (r: Value)
        ensures
            r == Value::Success,
            final(self)@.len() == old(self)@.len(),
            forall|i: int|
                0 <= i < final(self)@.len() ==> final(self)@[i] == old(self)@[final(self)@.len()
                    - 1 - i],
    {
        self.buf.reverse();
        Value::Success
    }

    /// Combines this vector elementwise with `other` through the scalar
    /// operation `f`, storing at each position a value that `f` may return
    /// for the pair of old elements there.  The two vectors must have the
    /// same length, else the operands are left unchanged and the
    /// length-mismatch status is reported.
    pub fn combine_with<F: Fn(ComplexF64, ComplexF64) -> ComplexF64>(&mut self, other: &VectorComplexF64, f: F) -> (r: Value)
        requires
            forall|x: ComplexF64, y: ComplexF64| call_requires(f, (x, y)),
        ensures
            r == conformance_status(old(self)@.len(), other@.len()),
            final(self)@.len() == old(self)@.len(),
            r == Value::Success ==> forall|i: int|
                0 <= i < final(self)@.len() ==> call_ensures(
                    f,
                    (old(self)@[i], other@[i]),
                    #[trigger] final(self)@[i],
                ),
            r != Value::Success ==> final(self)@ == old(self)@,
    {
        if self.buf.len() == other.buf.len() {
            self.buf.zip_apply(&other.buf, f);
            Value::Success
        } else {
            Value::BadLen
        }
    }

    /// Rewrites each element through the scalar operation `f`, storing at
    /// each position a value that `f` may return for the old element there.
    pub fn map_with<F: Fn(ComplexF64) -> ComplexF64>(&mut self, f: F) -> (r: Value)
        requires
            forall|x: ComplexF64| call_requires(f, (x,)),
        ensures
            r == Value::Success,
            final(self)@.len() == old(self)@.len(),
            forall|i: int|
                0 <= i < final(self)@.len() ==> call_ensures(
                    f,
                    (old(self)@[i],),
                    #[trigger] final(self)@[i],
                ),
    {
        self.buf.map_apply(f);
        Value::Success
    }

    /// A deep copy: a freshly allocated vector holding the same elements.
    /// Only a handle whose length is zero — which no constructor produces —
    /// has nothing to copy.
    pub fn clone(&self) -> (r: Option<VectorComplexF64>)
        ensures
            r is Some <==> self@.len() > 0,
            r is Some ==> r.unwrap()@ == self@,
    {
        match VectorComplexF64::new(self.buf.len()) {
            Some(mut v) => {
                v.buf.copy_from(&self.buf);
                Some(v)
            },
            None => None,
        }
    }
}

/// An owning handle on a fixed-length run of single-precision complex
/// scalar payloads.
pub struct VectorComplexF32 {
    buf: Buffer<ComplexF32>,
}

impl View for VectorComplexF32 {
    type V = Seq<ComplexF32>;

    closed spec fn view(&self) -> Seq<ComplexF32> {
        self.buf@
    }
}

impl VectorComplexF32 {
    /// A vector taking ownership of an already-built storage run.
    pub(crate) fn from_buffer(buf: Buffer<ComplexF32>) -> (r: VectorComplexF32)
        ensures
            r@ == buf@,
    {
        VectorComplexF32 { buf }
    }

    /// Borrow of the underlying storage, the analogue of the native handle
    /// that the wrapped routines operate on.
    pub fn get_ffi(&self) -> (r: &Buffer<ComplexF32>)
        ensures
            r@ == self@,
    {
        &self.buf
    }

    /// A vector of `size` zero elements, or nothing when the dimension is
    /// not a positive integer.
    pub fn new(size: usize) -> (r: Option<VectorComplexF32>)
        ensures
            r is Some <==> size > 0,
            r is Some ==> r.unwrap()@ == Seq::new(size as nat, |i: int| (ComplexF32 { re: 0u32, im: 0u32 })),
    {
        if size == 0 {
            None
        } else {
            Some(VectorComplexF32 { buf: Buffer::filled(size, (ComplexF32 { re: 0u32, im: 0u32 })) })
        }
    }

    /// A vector holding the elements of `slice`, or nothing when the slice
    /// is empty.
    pub fn from_slice(slice: &[ComplexF32]) -> (r: Option<VectorComplexF32>)
        ensures
            r is Some <==> slice@.len() > 0,
            r is Some ==> r.unwrap()@ == slice@,
    {
        let n = slice.len();
        if n == 0 {
            return None;
        }
        let mut buf = Buffer::filled(n, (ComplexF32 { re: 0u32, im: 0u32 }));
        let mut k: usize = 0;
        while k < n
            invariant
                n == buf@.len(),
                n == slice@.len(),
                k <= n,
                forall|i: int| 0 <= i < k ==> buf@[i] == slice@[i],
            decreases n - k,
        {
            buf.set(k, slice[k]);
            k = k + 1;
        }
        proof {
            assert(buf@ =~= slice@);
        }
        Some(VectorComplexF32 { buf })
    }

    /// The fixed length.
    pub fn len(&self) -> (r: usize)
        ensures
            r == self@.len(),
    {
        self.buf.len()
    }

    /// The element at `i`; outside the valid range the zero pattern is
    /// returned, as the engine's reporting error handler would arrange.
    pub fn get(&self, i: usize) -> (r: ComplexF32)
        ensures
            i < self@.len() ==> r == self@[i as int],
            i >= self@.len() ==> r == (ComplexF32 { re: 0u32, im: 0u32 }),
    {
        if i < self.buf.len() {
            self.buf.get(i)
        } else {
            (ComplexF32 { re: 0u32, im: 0u32 })
        }
    }

    /// Stores `x` at `i`; outside the valid range the write is ignored, as
    /// the engine's reporting error handler would arrange.
    pub fn set(&mut self, i: usize, x: &ComplexF32)
        ensures
            i < old(self)@.len() ==> final(self)@ == old(self)@.update(i as int, *x),
            i >= old(self)@.len() ==> final(self)@ == old(self)@,
    {
        if i < self.buf.len() {
            self.buf.set(i, *x);
        }
    }

    /// Sets every element to `x`.
    pub fn set_all(&mut self, x: &ComplexF32)
        ensures
            final(self)@.len() == old(self)@.len(),
            forall|i: int| 0 <= i < final(self)@.len() ==> final(self)@[i] == *x,
    {
        self.buf.fill(*x);
    }

    /// Sets every element to zero.
    pub fn set_zero(&mut self)
        ensures
            final(self)@.len() == old(self)@.len(),
            forall|i: int| 0 <= i < final(self)@.len() ==> final(self)@[i] == (ComplexF32 { re: 0u32, im: 0u32 }),
    {
        self.buf.fill((ComplexF32 { re: 0u32, im: 0u32 }));
    }

    /// Makes a basis vector: every element becomes zero except the `i`-th,
    /// which becomes one.  An index outside the valid range is rejected
    /// before anything is zeroed, as the engine's reporting error handler
    /// would arrange, and the vector is left unchanged.
    pub fn set_basis(&mut self, i: usize)
        ensures
            final(self)@.len() == old(self)@.len(),
            i < old(self)@.len() ==> forall|j: int|
                0 <= j < final(self)@.len() ==> final(self)@[j] == (if j == i as int {
                    (ComplexF32 { re: UNIT_F32, im: 0u32 })
                } else {
                    (ComplexF32 { re: 0u32, im: 0u32 })
                }),
            i >= old(self)@.len() ==> final(self)@ == old(self)@,
    {
        if i < self.buf.len() {
            self.buf.fill((ComplexF32 { re: 0u32, im: 0u32 }));
            self.buf.set(i, (ComplexF32 { re: UNIT_F32, im: 0u32 }));
        }
    }

    /// Overwrites this vector with the elements of `other`; the two vectors
    /// must have the same length, else the operands are left unchanged and
    /// the length-mismatch status is reported.
    pub fn copy_from(&mut self, other: &VectorComplexF32) -> (r: Value)
        ensures
            r == conformance_status(old(self)@.len(), other@.len()),
            r == Value::Success ==> final(self)@ == other@,
            r != Value::Success ==> final(self)@ == old(self)@,
    {
        if self.buf.len() == other.buf.len() {
            self.buf.copy_from(&other.buf);
            Value::Success
        } else {
            Value::BadLen
        }
    }

    /// Copies the elements of this vector into `other`; the two vectors
    /// must have the same length, else the operands are left unchanged and
    /// the length-mismatch status is reported.
    pub fn copy_to(&self, other: &mut VectorComplexF32) -> (r: Value)
        ensures
            r == conformance_status(self@.len(), old(other)@.len()),
            r == Value::Success ==> final(other)@ == self@,
            r != Value::Success ==> final(other)@ == old(other)@,
    {
        if self.buf.len() == other.buf.len() {
            other.buf.copy_from(&self.buf);
            Value::Success
        } else {
            Value::BadLen
        }
    }

    /// Exchanges the elements of the two vectors; they must have the same
    /// length, else both are left unchanged and the length-mismatch status
    /// is reported.
    pub fn swap(&mut self, other: &mut VectorComplexF32) -> (r: Value)
        ensures
            r == conformance_status(old(self)@.len(), old(other)@.len()),
            r == Value::Success ==> final(self)@ == old(other)@ && final(other)@ == old(self)@,
            r != Value::Success ==> final(self)@ == old(self)@ && final(other)@ == old(other)@,
    {
        if self.buf.len() == other.buf.len() {
            self.buf.swap_content(&mut other.buf);
            Value::Success
        } else {
            Value::BadLen
        }
    }

    /// Exchanges the elements at `i` and `j` in place; an index outside the
    /// valid range leaves the vector unchanged and reports the
    /// invalid-argument status.
    pub fn swap_elements(&mut self, i: usize, j: usize) -> (r: Value)
        ensures
            r == (if i < old(self)@.len() && j < old(self)@.len() {
                Value::Success
            } else {
                Value::Inval
            }),
            r == Value::Success ==> final(self)@ == old(self)@.update(
                i as int,
                old(self)@[j as int],
            ).update(j as int, old(self)@[i as int]),
            r != Value::Success ==> final(self)@ == old(self)@,
    {
        if i < self.buf.len() && j < self.buf.len() {
            self.buf.swap_elements(i, j);
            Value::Success
        } else {
            Value::Inval
        }
    }

    /// Reverses the order of the elements in place.
    pub fn reverse(&mut self) -> (r: Value)
        ensures
            r == Value::Success,
            final(self)@.len() == old(self)@.len(),
            forall|i: int|
                0 <= i < final(self)@.len() ==> final(self)@[i] == old(self)@[final(self)@.len()
                    - 1 - i],
    {
        self.buf.reverse();
        Value::Success
    }

    /// Combines this vector elementwise with `other` through the scalar
    /// operation `f`, storing at each position a value that `f` may return
    /// for the pair of old elements there.  The two vectors must have the
    /// same length, else the operands are left unchanged and the
    /// length-mismatch status is reported.
    pub fn combine_with<F: Fn(ComplexF32, ComplexF32) -> ComplexF32>(&mut self, other: &VectorComplexF32, f: F) -> (r: Value)
        requires
            forall|x: ComplexF32, y: ComplexF32| call_requires(f, (x, y)),
        ensures
            r == conformance_status(old(self)@.len(), other@.len()),
            final(self)@.len() == old(self)@.len(),
            r == Value::Success ==> forall|i: int|
                0 <= i < final(self)@.len() ==> call_ensures(
                    f,
                    (old(self)@[i], other@[i]),
                    #[trigger] final(self)@[i],
                ),
            r != Value::Success ==> final(self)@ == old(self)@,
    {
        if self.buf.len() == other.buf.len() {
            self.buf.zip_apply(&other.buf, f);
            Value::Success
        } else {
            Value::BadLen
        }
    }

    /// Rewrites each element through the scalar operation `f`, storing at
    /// each position a value that `f` may return for the old element there.
    pub fn map_with<F: Fn(ComplexF32) -> ComplexF32>(&mut self, f: F) -> (r: Value)
        requires
            forall|x: ComplexF32| call_requires(f, (x,)),
        ensures
            r == Value::Success,
            final(self)@.len() == old(self)@.len(),
            forall|i: int|
                0 <= i < final(self)@.len() ==> call_ensures(
                    f,
                    (old(self)@[i],),
                    #[trigger] final(self)@[i],
                ),
    {
        self.buf.map_apply(f);
        Value::Success
    }

    /// A deep copy: a freshly allocated vector holding the same elements.
    /// Only a handle whose length is zero — which no constructor produces —
    /// has nothing to copy.
    pub fn clone(&self) -> (r: Option<VectorComplexF32>)
        ensures
            r is Some <==> self@.len() > 0,
            r is Some ==> r.unwrap()@ == self@,
    {
        match VectorComplexF32::new(self.buf.len()) {
            Some(mut v) => {
                v.buf.copy_from(&self.buf);
                Some(v)
            },
            None => None,
        }
    }
}

} // verus!
