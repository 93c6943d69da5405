//! The bookkeeping of one object's transfer: the chunks copied so far, the
//! progress report owed for each, and the last report once it ends.
use vstd::prelude::*;
use crate::protocol::{ProgressResponse, TransferResponse};

verus! {

/// The size of each chunk that a transfer reads and writes.
pub const CHUNK_SIZE: usize = 8388608;

/// The total of a sequence of chunk sizes.
pub open spec fn total(chunks: Seq<nat>) -> nat
    decreases chunks.len(),
{
    if chunks.len() == 0 {
        0
    } else {
        total(chunks.drop_last()) + chunks.last()
    }
}

/// The progress reports owed for a sequence of chunks, as pairs of bytes so
/// far and bytes since the report before.
pub open spec fn progress_trace(chunks: Seq<nat>) -> Seq<(nat, nat)> {
    Seq::new(chunks.len(), |i: int| (total(chunks.take(i + 1)), chunks[i]))
}

proof fn lemma_total_take_step(chunks: Seq<nat>, k: int)
    requires
        0 <= k < chunks.len(),
    ensures
        total(chunks.take(k + 1)) == total(chunks.take(k)) + chunks[k],
{
    assert(chunks.take(k + 1).drop_last() =~= chunks.take(k));
}

proof fn lemma_total_take_grows(chunks: Seq<nat>, i: int, j: int)
    requires
        0 <= i < j <= chunks.len(),
        forall|k: int| 0 <= k < chunks.len() ==> chunks[k] > 0,
    ensures
        total(chunks.take(i)) < total(chunks.take(j)),
    decreases j - i,
{
    lemma_total_take_step(chunks, j - 1);
    if i < j - 1 {
        lemma_total_take_grows(chunks, i, j - 1);
    }
}

/// Progress accounting. For a copy in chunks of positive size, the bytes
/// since the report before add up over all reports to the bytes copied;
/// bytes so far is the running sum of the chunks and grows with each report;
/// the last report's bytes so far is the whole count; and a further chunk
/// leaves the earlier reports as they were and adds one.
pub proof fn lemma_progress_accounting(chunks: Seq<nat>, next: nat)
    requires
        forall|i: int| 0 <= i < chunks.len() ==> chunks[i] > 0,
    ensures
        total(progress_trace(chunks).map_values(|e: (nat, nat)| e.1)) == total(chunks),
        forall|i: int| 0 <= i < chunks.len()
            ==> #[trigger] progress_trace(chunks)[i].0 == total(chunks.take(i + 1)),
        forall|i: int, j: int| 0 <= i < j < chunks.len()
            ==> #[trigger] progress_trace(chunks)[i].0 < #[trigger] progress_trace(chunks)[j].0,
        chunks.len() > 0 ==> progress_trace(chunks).last().0 == total(chunks),
        progress_trace(chunks.push(next)) == progress_trace(chunks).push((total(chunks) + next, next)),
{
    assert(progress_trace(chunks).map_values(|e: (nat, nat)| e.1) =~= chunks);
    assert forall|i: int, j: int| 0 <= i < j < chunks.len()
        implies #[trigger] progress_trace(chunks)[i].0 < #[trigger] progress_trace(chunks)[j].0 by {
        lemma_total_take_grows(chunks, i + 1, j + 1);
    }
    assert(chunks.take(chunks.len() as int) =~= chunks);
    let longer = chunks.push(next);
    assert forall|i: int| 0 <= i < chunks.len() implies #[trigger] longer.take(i + 1) == chunks.take(i + 1) by {
        assert(longer.take(i + 1) =~= chunks.take(i + 1));
    }
    assert(longer.take(longer.len() as int) =~= longer);
    assert(longer.drop_last() =~= chunks);
    assert(progress_trace(longer) =~= progress_trace(chunks).push((total(chunks) + next, next)));
}

/// One object's transfer in progress.
pub struct Transfer {
    pub oid: String,
    pub bytes_so_far: usize,
    /// The sizes of the chunks copied so far, in order.
    pub chunks: Ghost<Seq<nat>>,
}

impl Transfer {
    pub open spec fn wf(&self) -> bool {
        &&& self.bytes_so_far == total(self.chunks@)
        &&& forall|i: int| 0 <= i < self.chunks@.len() ==> self.chunks@[i] > 0
    }

    /// A transfer of `oid` that has copied nothing yet.
    pub fn new(oid: String) -> (r: Self)
        ensures
            r.wf(),
            r.oid == oid,
            r.bytes_so_far == 0,
            r.chunks@ == Seq::<nat>::empty(),
    {
        Transfer { oid, bytes_so_far: 0, chunks: Ghost(Seq::empty()) }
    }

    /// Records a read of `n` bytes. A read of none ends the copy and owes no
    /// report; any other adds a chunk and owes the report for it.
    pub fn record_read(&mut self, n: usize) -> (r: Option<ProgressResponse>)
        requires
            old(self).wf(),
            old(self).bytes_so_far + n <= usize::MAX,
        ensures
            final(self).wf(),
            final(self).oid == old(self).oid,
            n == 0 ==> r is None && final(self).bytes_so_far == old(self).bytes_so_far
                && final(self).chunks@ == old(self).chunks@,
            n > 0 ==> {
                &&& final(self).chunks@ == old(self).chunks@.push(n as nat)
                &&& final(self).bytes_so_far == old(self).bytes_so_far + n
                &&& r is Some
                &&& r->0.event@ == "progress"@
                &&& r->0.oid == old(self).oid
                &&& (r->0.bytes_so_far as nat, r->0.bytes_since_last as nat)
                    == progress_trace(final(self).chunks@).last()
            },
    {
        if n == 0 {
            return None;
        }
        let ghost before = self.chunks@;
        self.bytes_so_far = self.bytes_so_far + n;
        self.chunks = Ghost(self.chunks@.push(n as nat));
        proof {
            let after = self.chunks@;
            assert(after.drop_last() =~= before);
            assert(after.take(after.len() as int) =~= after);
        }
        Some(ProgressResponse::new(self.oid.clone(), self.bytes_so_far, n))
    }

    /// The last report of this transfer, from its outcome: the local path
    /// written, if any, or the text of the error.
    pub fn finish(self, result: Result<Option<String>, String>) -> (r: TransferResponse)
        ensures
            r.reports(self.oid, result),
    {
        TransferResponse::new(self.oid, result)
    }
}

} // verus!
