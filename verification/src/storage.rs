//! Fixed-length owning storage for opaque scalar payloads.
//!
//! `Buffer` is the one mechanism behind every dense container of the
//! library: a heap allocation of scalar payloads whose length is fixed when
//! the buffer is made.  The element type is opaque to every operation here;
//! the buffer only ever moves elements around, so each operation carries an
//! exact contract over the sequence of stored elements.  The elementwise
//! arithmetic of the containers is obtained by passing the scalar operation
//! in as a closure, whose input-output relation the contracts quote.

use vstd::prelude::*;

verus! {

/// An owning, fixed-length run of scalar payloads.
pub struct Buffer<E> {
    data: Vec<E>,
}

impl<E> View for Buffer<E> {
    type V = Seq<E>;

    closed spec fn view(&self) -> Seq<E> {
        self.data@
    }
}

/// Storing an element and reading the same position yields exactly the
/// element stored, and no other position changes: the accessor contracts
/// of every container compose to this round trip.
pub proof fn lemma_set_get_round_trip<E>(s: Seq<E>, i: int, x: E)
    requires
        0 <= i < s.len(),
    ensures
        s.update(i, x)[i] == x,
        forall|j: int| 0 <= j < s.len() && j != i ==> s.update(i, x)[j] == s[j],
{
}

impl<E> Buffer<E> {
    /// The length of a buffer never exceeds the machine's address space.
    pub proof fn lemma_len_bound(&self)
        ensures
            self@.len() <= usize::MAX,
    {
        assert(vstd::std_specs::vec::spec_vec_len(&self.data) == self.data@.len());
    }
}

impl<E: Copy> Buffer<E> {
    /// A buffer of `n` copies of `x`.
    pub fn filled(n: usize, x: E) -> (r: Buffer<E>)
        ensures
            r@.len() == n,
            forall|i: int| 0 <= i < n ==> r@[i] == x,
    {
        let mut data: Vec<E> = Vec::new();
        while data.len() < n
            invariant
                data@.len() <= n,
                forall|i: int| 0 <= i < data@.len() ==> data@[i] == x,
            decreases n - data@.len(),
        {
            data.push(x);
        }
        Buffer { data }
    }

    /// The fixed number of elements.
    pub fn len(&self) -> (r: usize)
        ensures
            r == self@.len(),
    {
        self.data.len()
    }

    /// The element at `i`.
    pub fn get(&self, i: usize) -> (r: E)
        requires
            i < self@.len(),
        ensures
            r == self@[i as int],
    {
        self.data[i]
    }

    /// Stores `x` at `i`; every other element keeps its value.
    pub fn set(&mut self, i: usize, x: E)
        requires
            i < old(self)@.len(),
        ensures
            final(self)@ == old(self)@.update(i as int, x),
        no_unwind
    {
        self.data[i] = x;
    }

    /// Sets every element to `x`.
    pub fn fill(&mut self, x: E)
        ensures
            final(self)@.len() == old(self)@.len(),
            forall|i: int| 0 <= i < final(self)@.len() ==> final(self)@[i] == x,
        no_unwind
    {
        let n = self.data.len();
        let mut k: usize = 0;
        while k < n
            invariant
                n == self@.len(),
                k <= n,
                forall|i: int| 0 <= i < k ==> self@[i] == x,
            decreases n - k,
        {
            self.data[k] = x;
            k = k + 1;
        }
    }

    /// Overwrites this buffer with the elements of `other`, which must have
    /// the same length.
    pub fn copy_from(&mut self, other: &Buffer<E>)
        requires
            old(self)@.len() == other@.len(),
        ensures
            final(self)@ == other@,
        no_unwind
    {
        let n = self.data.len();
        let mut k: usize = 0;
        while k < n
            invariant
                n == self@.len(),
                self@.len() == other@.len(),
                k <= n,
                forall|i: int| 0 <= i < k ==> self@[i] == other@[i],
            decreases n - k,
        {
            self.data[k] = other.data[k];
            k = k + 1;
        }
        proof {
            assert(self@ =~= other@);
        }
    }

    /// Exchanges the whole contents of the two buffers.
    pub fn swap_content(&mut self, other: &mut Buffer<E>)
        ensures
            final(self)@ == old(other)@,
            final(other)@ == old(self)@,
        no_unwind
    {
        core::mem::swap(&mut self.data, &mut other.data);
    }

    /// Exchanges the elements at `i` and `j`.
    pub fn swap_elements(&mut self, i: usize, j: usize)
        requires
            i < old(self)@.len(),
            j < old(self)@.len(),
        ensures
            final(self)@ == old(self)@.update(i as int, old(self)@[j as int]).update(
                j as int,
                old(self)@[i as int],
            ),
    {
        let xi = self.data[i];
        let xj = self.data[j];
        self.data[i] = xj;
        self.data[j] = xi;
    }

    /// Reverses the order of the elements in place.
    pub fn reverse(&mut self)
        ensures
            final(self)@.len() == old(self)@.len(),
            forall|i: int|
                0 <= i < final(self)@.len() ==> final(self)@[i] == old(self)@[final(self)@.len()
                    - 1 - i],
    {
        let n = self.data.len();
        let mut k: usize = 0;
        while k < n / 2
            invariant
                n == self@.len(),
                k <= n / 2,
                forall|i: int| 0 <= i < k ==> self@[i] == old(self)@[n - 1 - i],
                forall|i: int| n - k <= i < n ==> self@[i] == old(self)@[n - 1 - i],
                forall|i: int| k <= i < n - k ==> self@[i] == old(self)@[i],
            decreases n / 2 - k,
        {
            let xa = self.data[k];
            let xb = self.data[n - 1 - k];
            self.data[k] = xb;
            self.data[n - 1 - k] = xa;
            k = k + 1;
        }
    }

    /// Combines this buffer elementwise with `other`, which must have the
    /// same length, storing at each position a value that the scalar
    /// operation `f` may return for the pair of old elements at that
    /// position.
    pub fn zip_apply<F: Fn(E, E) -> E>(&mut self, other: &Buffer<E>, f: F)
        requires
            old(self)@.len() == other@.len(),
            forall|x: E, y: E| call_requires(f, (x, y)),
        ensures
            final(self)@.len() == old(self)@.len(),
            forall|i: int|
                0 <= i < final(self)@.len() ==> call_ensures(
                    f,
                    (old(self)@[i], other@[i]),
                    #[trigger] final(self)@[i],
                ),
    {
        let n = self.data.len();
        let mut k: usize = 0;
        while k < n
            invariant
                n == self@.len(),
                self@.len() == old(self)@.len(),
                other@.len() == old(self)@.len(),
                forall|x: E, y: E| call_requires(f, (x, y)),
                k <= n,
                forall|i: int|
                    0 <= i < k ==> call_ensures(
                        f,
                        (old(self)@[i], other@[i]),
                        #[trigger] self@[i],
                    ),
                forall|i: int| k <= i < n ==> self@[i] == old(self)@[i],
            decreases n - k,
        {
            let combined = f(self.data[k], other.data[k]);
            self.data[k] = combined;
            k = k + 1;
        }
    }

    /// Rewrites each element with a value that the scalar operation `f` may
    /// return for the old element at that position.
    pub fn map_apply<F: Fn(E) -> E>(&mut self, f: F)
        requires
            forall|x: E| call_requires(f, (x,)),
        ensures
            final(self)@.len() == old(self)@.len(),
            forall|i: int|
                0 <= i < final(self)@.len() ==> call_ensures(
                    f,
                    (old(self)@[i],),
                    #[trigger] final(self)@[i],
                ),
    {
        let n = self.data.len();
        let mut k: usize = 0;
        while k < n
            invariant
                n == self@.len(),
                self@.len() == old(self)@.len(),
                forall|x: E| call_requires(f, (x,)),
                k <= n,
                forall|i: int|
                    0 <= i < k ==> call_ensures(f, (old(self)@[i],), #[trigger] self@[i]),
                forall|i: int| k <= i < n ==> self@[i] == old(self)@[i],
            decreases n - k,
        {
            let mapped = f(self.data[k]);
            self.data[k] = mapped;
            k = k + 1;
        }
    }
}

} // verus!
