//! Shared write state: the per-process counters behind the file write path.
//!
//! One `SharedWriteState` value exists per process. It tracks how many bytes
//! have been appended to the active log file, how many lines have been
//! appended since the last rotation, and the suffix index of the next rotated
//! backup file. The host serializes access to it (for example behind a
//! mutex); the contracts here describe each counter transition exactly.

use vstd::prelude::*;

verus! {

/// The per-process counters shared by every writer.
pub struct SharedWriteState {
    /// Bytes appended so far to the active file; the offset of the next append.
    pub write_offset: u64,
    /// Lines appended since the last successful rotation.
    pub line_count: u64,
    /// Suffix index the next rotated backup file will receive.
    pub rotation_index: usize,
}

impl SharedWriteState {
    /// A fresh state: nothing written, no lines, first backup suffix is 0.
    pub fn new() -> (r: SharedWriteState)
        ensures
            r.write_offset == 0,
            r.line_count == 0,
            r.rotation_index == 0,
    {
        SharedWriteState { write_offset: 0, line_count: 0, rotation_index: 0 }
    }

    /// The offset at which the next append must write.
    pub fn current_offset(&self) -> (r: u64)
        ensures
            r == self.write_offset,
    {
        self.write_offset
    }

    /// Record a completed append: advance the offset by the number of bytes
    /// the underlying write reported as actually written (which may be fewer
    /// than were requested).
    pub fn advance_offset(&mut self, written: u64)
        requires
            old(self).write_offset + written <= u64::MAX,
        ensures
            final(self).write_offset == old(self).write_offset + written,
            final(self).line_count == old(self).line_count,
            final(self).rotation_index == old(self).rotation_index,
    {
        self.write_offset = self.write_offset + written;
    }

    /// Count one more appended line and return the new count. The caller must
    /// compare this returned value (not a later re-read) against the rotation
    /// threshold.
    pub fn increment_line(&mut self) -> (r: u64)
        requires
            old(self).line_count < u64::MAX,
        ensures
            r == old(self).line_count + 1,
            final(self).line_count == old(self).line_count + 1,
            final(self).write_offset == old(self).write_offset,
            final(self).rotation_index == old(self).rotation_index,
    {
        self.line_count = self.line_count + 1;
        self.line_count
    }

    /// Consume the backup suffix index a rotation just used: return the
    /// current one and move past it. The index advances once per successful
    /// rotation, so this must be called exactly when a rotation rename
    /// succeeded, alongside [`SharedWriteState::reset_after_rotation`]; a
    /// failed rename leaves the index alone and the same name is used for
    /// the next attempt.
    pub fn next_rotation_index(&mut self) -> (r: usize)
        requires
            old(self).rotation_index < usize::MAX,
        ensures
            r == old(self).rotation_index,
            final(self).rotation_index == old(self).rotation_index + 1,
            final(self).write_offset == old(self).write_offset,
            final(self).line_count == old(self).line_count,
    {
        let r = self.rotation_index;
        self.rotation_index = self.rotation_index + 1;
        r
    }

    /// Reset the counters for a fresh active file. Must be called exactly
    /// when a rotation rename has succeeded (alongside
    /// [`SharedWriteState::next_rotation_index`]): the next append then
    /// starts the new file at offset 0.
    pub fn reset_after_rotation(&mut self)
        ensures
            final(self).write_offset == 0,
            final(self).line_count == 0,
            final(self).rotation_index == old(self).rotation_index,
    {
        self.write_offset = 0;
        self.line_count = 0;
    }
}

/// Total of the byte counts a sequence of appends reported as written.
pub open spec fn sum_written(writes: Seq<u64>) -> int
    decreases writes.len(),
{
    if writes.len() == 0 {
        0
    } else {
        writes[0] + sum_written(writes.skip(1))
    }
}

/// The write offset after a sequence of successful appends with no rotation,
/// starting from a fresh file: each append advances the offset by the byte
/// count it reported, as the contract of
/// [`SharedWriteState::advance_offset`] states.
pub open spec fn offset_after(writes: Seq<u64>) -> int
    decreases writes.len(),
{
    if writes.len() == 0 {
        0
    } else {
        offset_after(writes.drop_last()) + writes.last()
    }
}

proof fn lemma_sum_written_snoc(writes: Seq<u64>, w: u64)
    ensures
        sum_written(writes.push(w)) == sum_written(writes) + w,
    decreases writes.len(),
{
    if writes.len() == 0 {
        assert(writes.push(w)[0] == w);
        assert(writes.push(w).skip(1) =~= Seq::<u64>::empty());
        assert(sum_written(Seq::<u64>::empty()) == 0);
        assert(sum_written(writes) == 0);
        assert(sum_written(writes.push(w)) == w + sum_written(writes.push(w).skip(1)));
    } else {
        assert(writes.push(w)[0] == writes[0]);
        assert(writes.push(w).skip(1) =~= writes.skip(1).push(w));
        lemma_sum_written_snoc(writes.skip(1), w);
        assert(sum_written(writes.push(w)) == writes[0] + sum_written(writes.skip(1).push(w)));
        assert(sum_written(writes) == writes[0] + sum_written(writes.skip(1)));
    }
}

/// Offset monotonicity: for any sequence of successful appends with no
/// rotation, the write offset after them equals the sum of the reported
/// written byte counts.
pub proof fn lemma_offset_is_sum_of_writes(writes: Seq<u64>)
    ensures
        offset_after(writes) == sum_written(writes),
    decreases writes.len(),
{
    if writes.len() > 0 {
        lemma_offset_is_sum_of_writes(writes.drop_last());
        lemma_sum_written_snoc(writes.drop_last(), writes.last());
        assert(writes.drop_last().push(writes.last()) =~= writes);
    }
}

/// The offset at which append `k` of a sequence writes its bytes.
pub open spec fn append_range_start(writes: Seq<u64>, k: int) -> int {
    offset_after(writes.take(k))
}

proof fn lemma_append_range_step(writes: Seq<u64>, k: int)
    requires
        0 <= k < writes.len(),
    ensures
        append_range_start(writes, k + 1) == append_range_start(writes, k) + writes[k],
{
    assert(writes.take(k + 1).drop_last() =~= writes.take(k));
    assert(writes.take(k + 1).last() == writes[k]);
}

proof fn lemma_append_range_start_monotone(writes: Seq<u64>, a: int, b: int)
    requires
        0 <= a <= b <= writes.len(),
    ensures
        append_range_start(writes, a) <= append_range_start(writes, b),
    decreases b - a,
{
    if a < b {
        lemma_append_range_start_monotone(writes, a, b - 1);
        lemma_append_range_step(writes, b - 1);
    }
}

/// No two appends overlap: append `k` writes into the byte range starting at
/// [`append_range_start`] and extending for the count it reported, and for
/// `i < j` the range of append `i` ends at or before the range of append `j`
/// begins. With [`lemma_offset_is_sum_of_writes`], the ranges exactly tile
/// the file: the total bytes written equal the sum of the individual counts.
pub proof fn lemma_append_ranges_disjoint(writes: Seq<u64>, i: int, j: int)
    requires
        0 <= i < j < writes.len(),
    ensures
        append_range_start(writes, i) + writes[i] <= append_range_start(writes, j),
{
    lemma_append_range_step(writes, i);
    lemma_append_range_start_monotone(writes, i + 1, j);
}

} // verus!
