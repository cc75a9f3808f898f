//! The pool of per-draw uniforms.
//!
//! Every draw record of a frame gets one slot of a shared buffer. A slot is
//! `alignment` bytes wide, so that each slot can be bound at an offset the
//! device accepts; its first `UNIFORM_SIZE` bytes hold a 4×4 matrix of
//! binary32 values, column by column, and the rest is padding. The pool keeps
//! the host-side copy of the buffer and the number of slots allocated.

use vstd::prelude::*;

verus! {

/// Bytes of one transform matrix: sixteen binary32 values.
pub const UNIFORM_SIZE: usize = 64;

/// A uniform pool as a value.
pub struct UniformPoolView {
    /// Width of a slot in bytes.
    pub alignment: nat,
    /// Number of slots allocated.
    pub capacity: nat,
    /// The host-side copy of the buffer.
    pub bytes: Seq<u8>,
}

/// Number of slots allocated when `total` slots are needed and the pool is too
/// small: twice the need, and never none.
pub open spec fn grown_capacity(total: nat) -> nat {
    if total == 0 {
        2
    } else {
        2 * total
    }
}

impl UniformPoolView {
    /// A slot holds a matrix, and the bytes are those of `capacity` slots.
    pub open spec fn wf(self) -> bool {
        &&& self.alignment >= UNIFORM_SIZE
        &&& self.bytes.len() == self.capacity * self.alignment
    }

    /// Offset of slot `slot` in the buffer.
    pub open spec fn slot_offset(self, slot: nat) -> nat {
        slot * self.alignment
    }

    /// The matrix bytes of slot `slot`.
    pub open spec fn slot_bytes(self, slot: nat) -> Seq<u8> {
        self.bytes.subrange(
            self.slot_offset(slot) as int,
            self.slot_offset(slot) + UNIFORM_SIZE as int,
        )
    }

    /// The padding of slot `slot`: what follows its matrix.
    pub open spec fn slot_padding(self, slot: nat) -> Seq<u8> {
        self.bytes.subrange(
            self.slot_offset(slot) + UNIFORM_SIZE as int,
            self.slot_offset(slot + 1) as int,
        )
    }

    /// The pool with `matrix` in slot `slot`, all else as it was.
    pub open spec fn with_slot(self, slot: nat, matrix: Seq<u8>) -> UniformPoolView {
        let at = self.slot_offset(slot) as int;
        UniformPoolView {
            bytes: self.bytes.subrange(0, at) + matrix + self.bytes.subrange(
                at + UNIFORM_SIZE as int,
                self.bytes.len() as int,
            ),
            ..self
        }
    }

    /// A pool of `capacity` zeroed slots.
    pub open spec fn zeroed(alignment: nat, capacity: nat) -> UniformPoolView {
        UniformPoolView {
            alignment,
            capacity,
            bytes: Seq::new(capacity * alignment, |i: int| 0u8),
        }
    }

    /// After `reserve(total)`: the pool itself when it is large enough, else a
    /// zeroed pool of `grown_capacity(total)` slots.
    pub open spec fn reserve(self, total: nat) -> UniformPoolView {
        if total <= self.capacity {
            self
        } else {
            UniformPoolView::zeroed(self.alignment, grown_capacity(total))
        }
    }
}

/// Slots tile the buffer: slot `slot` of a pool with more than `slot` slots
/// lies within the bytes, and ends where the next one starts.
pub proof fn lemma_slot_within(pool: UniformPoolView, slot: nat)
    requires
        pool.wf(),
        slot < pool.capacity,
    ensures
        pool.slot_offset(slot) + UNIFORM_SIZE <= pool.slot_offset(slot + 1),
        pool.slot_offset(slot + 1) == pool.slot_offset(slot) + pool.alignment,
        pool.slot_offset(slot + 1) <= pool.bytes.len(),
{
    let a = pool.alignment as int;
    let s = slot as int;
    let c = pool.capacity as int;
    assert((s + 1) * a == s * a + a) by (nonlinear_arith);
    assert((s + 1) * a <= c * a) by (nonlinear_arith)
        requires
            s + 1 <= c,
            a >= 0,
    ;
}

/// Distinct slots do not overlap.
pub proof fn lemma_slots_apart(pool: UniformPoolView, low: nat, high: nat)
    requires
        low < high,
    ensures
        pool.slot_offset(low + 1) <= pool.slot_offset(high),
{
    let a = pool.alignment as int;
    let l = low as int;
    let h = high as int;
    assert((l + 1) * a <= h * a) by (nonlinear_arith)
        requires
            l + 1 <= h,
            a >= 0,
    ;
}

/// Writing a slot changes the matrix of that slot and nothing else: the
/// matrix read back from the slot is the one written, every other slot's
/// matrix is as before, and so is every slot's padding.
pub proof fn lemma_with_slot(pool: UniformPoolView, slot: nat, matrix: Seq<u8>)
    requires
        pool.wf(),
        slot < pool.capacity,
        matrix.len() == UNIFORM_SIZE,
    ensures
        pool.with_slot(slot, matrix).wf(),
        pool.with_slot(slot, matrix).capacity == pool.capacity,
        pool.with_slot(slot, matrix).alignment == pool.alignment,
        pool.with_slot(slot, matrix).slot_bytes(slot) == matrix,
        forall|other: nat|
            other < pool.capacity && other != slot ==> #[trigger] pool.with_slot(
                slot,
                matrix,
            ).slot_bytes(other) == pool.slot_bytes(other),
        forall|any: nat|
            any < pool.capacity ==> #[trigger] pool.with_slot(slot, matrix).slot_padding(any)
                == pool.slot_padding(any),
{
    let after = pool.with_slot(slot, matrix);
    lemma_slot_within(pool, slot);
    assert(after.bytes.len() == pool.bytes.len());
    assert(after.slot_bytes(slot) =~= matrix);
    assert forall|other: nat| other < pool.capacity && other != slot implies #[trigger] after.slot_bytes(
        other,
    ) == pool.slot_bytes(other) by {
        lemma_slot_within(pool, other);
        if other < slot {
            lemma_slots_apart(pool, other, slot);
        } else {
            lemma_slots_apart(pool, slot, other);
        }
        assert(after.slot_bytes(other) =~= pool.slot_bytes(other));
    }
    assert forall|any: nat| any < pool.capacity implies #[trigger] after.slot_padding(any)
        == pool.slot_padding(any) by {
        lemma_slot_within(pool, any);
        if any < slot {
            lemma_slots_apart(pool, any, slot);
        } else if any > slot {
            lemma_slots_apart(pool, slot, any);
        }
        assert(after.slot_padding(any) =~= pool.slot_padding(any));
    }
}

/// The uniform buffer's host side: slot width, slot count and staging bytes.
pub struct UniformPool {
    alignment: u32,
    slot_count: u64,
    data: Vec<u8>,
}

impl View for UniformPool {
    type V = UniformPoolView;

    closed spec fn view(&self) -> UniformPoolView {
        UniformPoolView {
            alignment: self.alignment as nat,
            capacity: self.slot_count as nat,
            bytes: self.data@,
        }
    }
}

impl UniformPool {
    /// The pool is well formed.
    pub open spec fn wf(&self) -> bool {
        self@.wf()
    }

    /// Offsets of allocated slots fit the staging bytes.
    proof fn lemma_offset_fits(&self, slot: u64)
        requires
            self.wf(),
            slot <= self.slot_count,
        ensures
            slot * self.alignment <= self.data.len(),
            slot <= self.data.len(),
            slot < self.slot_count ==> slot * self.alignment + self.alignment <= self.data.len(),
    {
        let a = self.alignment as int;
        let s = slot as int;
        let c = self.slot_count as int;
        assert(self.data.len() == c * a);
        assert(s * a <= c * a) by (nonlinear_arith)
            requires
                0 <= s <= c,
                a >= 0,
        ;
        assert(s <= s * a) by (nonlinear_arith)
            requires
                0 <= s,
                a >= 1,
        ;
        if s < c {
            assert(s * a + a <= c * a) by (nonlinear_arith)
                requires
                    0 <= s,
                    s + 1 <= c,
                    a >= 0,
            ;
        }
    }

    /// An empty pool whose slots will be `alignment` bytes wide.
    pub fn new(alignment: u32) -> (pool: UniformPool)
        requires
            alignment >= UNIFORM_SIZE,
        ensures
            pool@ == UniformPoolView::zeroed(alignment as nat, 0),
            pool.wf(),
    {
        let pool = UniformPool { alignment, slot_count: 0, data: Vec::new() };
        assert(pool@.bytes =~= Seq::new(0, |i: int| 0u8));
        assert(0 * (alignment as nat) == 0);
        pool
    }

    /// Width of a slot in bytes.
    pub fn alignment(&self) -> (alignment: u32)
        ensures
            alignment == self@.alignment,
    {
        self.alignment
    }

    /// Number of slots allocated.
    pub fn capacity(&self) -> (capacity: u64)
        ensures
            capacity == self@.capacity,
    {
        self.slot_count
    }

    /// The staging bytes, as they are uploaded.
    pub fn bytes(&self) -> (bytes: &Vec<u8>)
        ensures
            bytes@ == self@.bytes,
    {
        &self.data
    }

    /// Offset of slot `slot` in the buffer.
    pub fn slot_offset(&self, slot: u64) -> (offset: u64)
        requires
            self.wf(),
            slot <= self@.capacity,
        ensures
            offset == self@.slot_offset(slot as nat),
    {
        proof {
            self.lemma_offset_fits(slot);
        }
        slot * (self.alignment as u64)
    }

    /// Whether `reserve(total)` can be called: the pool has `total` slots, or
    /// the bytes of the pool it would grow to can be addressed.
    pub fn can_reserve(&self, total: u64) -> (ok: bool)
        requires
            self.wf(),
        ensures
            ok == (total > self@.capacity ==> grown_capacity(total as nat) * self@.alignment
                <= usize::MAX),
    {
        if total <= self.slot_count {
            return true;
        }
        let count = match total.checked_mul(2) {
            Some(count) => count,
            None => {
                proof {
                    let a = self.alignment as int;
                    let w = grown_capacity(total as nat) as int;
                    assert(w <= w * a) by (nonlinear_arith)
                        requires
                            a >= 1,
                            w >= 0,
                    ;
                }
                return false;
            },
        };
        match count.checked_mul(self.alignment as u64) {
            Some(size) => size <= usize::MAX as u64,
            None => false,
        }
    }

    /// Makes room for `total` slots. Returns whether the pool had to grow; a
    /// pool that is large enough is left as it is, bytes included.
    pub fn reserve(&mut self, total: u64) -> (grew: bool)
        requires
            old(self).wf(),
            total > old(self)@.capacity ==> grown_capacity(total as nat) * old(self)@.alignment
                <= usize::MAX,
        ensures
            grew == (total > old(self)@.capacity),
            final(self)@ == old(self)@.reserve(total as nat),
            final(self).wf(),
            total <= final(self)@.capacity,
    {
        if total <= self.slot_count {
            return false;
        }
        let ghost wanted = grown_capacity(total as nat);
        proof {
            let a = self.alignment as int;
            assert(wanted <= wanted * a) by (nonlinear_arith)
                requires
                    a >= 1,
                    wanted >= 0,
            ;
        }
        let count: u64 = 2 * total;
        let size: usize = (count as usize) * (self.alignment as usize);
        let mut data: Vec<u8> = Vec::new();
        data.resize(size, 0u8);
        self.data = data;
        self.slot_count = count;
        proof {
            assert(self@.bytes =~= Seq::new(wanted * (self.alignment as nat), |i: int| 0u8));
        }
        true
    }

    /// Puts `matrix` into slot `slot`.
    pub fn write_slot(&mut self, slot: u64, matrix: &[u8; 64])
        requires
            old(self).wf(),
            slot < old(self)@.capacity,
        ensures
            final(self)@ == old(self)@.with_slot(slot as nat, matrix@),
            final(self).wf(),
    {
        proof {
            self.lemma_offset_fits(slot);
        }
        let at: usize = (slot as usize) * (self.alignment as usize);
        let mut k: usize = 0;
        while k < UNIFORM_SIZE
            invariant
                k <= UNIFORM_SIZE,
                at + UNIFORM_SIZE <= self.data.len(),
                self.data.len() == old(self).data.len(),
                self.alignment == old(self).alignment,
                self.slot_count == old(self).slot_count,
                forall|i: int| 0 <= i < at ==> self.data[i] == old(self).data[i],
                forall|i: int| 0 <= i < k ==> self.data[at + i] == matrix[i],
                forall|i: int| at + k <= i < self.data.len() ==> self.data[i] == old(self).data[i],
            decreases UNIFORM_SIZE - k,
        {
            self.data[at + k] = matrix[k];
            k += 1;
        }
        proof {
            assert(self@.bytes =~= old(self)@.with_slot(slot as nat, matrix@).bytes);
        }
    }

    /// Puts the matrices into the first slots, matrix `i` into slot `i`.
    ///
    /// Afterwards slot `i` reads back as matrix `i`, for every `i` below the
    /// number of matrices; the slots behind them and all padding are as before.
    pub fn write_slots(&mut self, matrices: &Vec<[u8; 64]>)
        requires
            old(self).wf(),
            matrices.len() <= old(self)@.capacity,
        ensures
            final(self).wf(),
            final(self)@.capacity == old(self)@.capacity,
            final(self)@.alignment == old(self)@.alignment,
            forall|i: nat|
                i < matrices.len() ==> #[trigger] final(self)@.slot_bytes(i) == matrices[i as int]@,
            forall|i: nat|
                matrices.len() <= i < old(self)@.capacity ==> #[trigger] final(self)@.slot_bytes(i)
                    == old(self)@.slot_bytes(i),
            forall|i: nat|
                i < old(self)@.capacity ==> #[trigger] final(self)@.slot_padding(i) == old(
                    self,
                )@.slot_padding(i),
    {
        let mut n: usize = 0;
        while n < matrices.len()
            invariant
                n <= matrices.len(),
                matrices.len() <= old(self)@.capacity,
                self.wf(),
                self@.capacity == old(self)@.capacity,
                self@.alignment == old(self)@.alignment,
                forall|i: nat| i < n ==> #[trigger] self@.slot_bytes(i) == matrices[i as int]@,
                forall|i: nat|
                    n <= i < old(self)@.capacity ==> #[trigger] self@.slot_bytes(i) == old(
                        self,
                    )@.slot_bytes(i),
                forall|i: nat|
                    i < old(self)@.capacity ==> #[trigger] self@.slot_padding(i) == old(
                        self,
                    )@.slot_padding(i),
            decreases matrices.len() - n,
        {
            proof {
                lemma_with_slot(self@, n as nat, matrices[n as int]@);
            }
            self.write_slot(n as u64, &matrices[n]);
            n += 1;
        }
    }

    /// The matrix in slot `slot`.
    pub fn read_slot(&self, slot: u64) -> (matrix: [u8; 64])
        requires
            self.wf(),
            slot < self@.capacity,
        ensures
            matrix@ == self@.slot_bytes(slot as nat),
    {
        proof {
            self.lemma_offset_fits(slot);
        }
        let at: usize = (slot as usize) * (self.alignment as usize);
        let mut matrix: [u8; 64] = [0u8; 64];
        let mut k: usize = 0;
        while k < UNIFORM_SIZE
            invariant
                k <= UNIFORM_SIZE,
                at + UNIFORM_SIZE <= self.data.len(),
                forall|i: int| 0 <= i < k ==> matrix[i] == self.data[at + i],
            decreases UNIFORM_SIZE - k,
        {
            matrix[k] = self.data[at + k];
            k += 1;
        }
        proof {
            assert(matrix@ =~= self@.slot_bytes(slot as nat));
        }
        matrix
    }
}

} // verus!
