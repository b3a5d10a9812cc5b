use vstd::prelude::*;
use crate::transfer::{progress_trace, CHUNK_SIZE};

verus! {

/// The number of chunks a file of `n` bytes takes: `ceil(n / CHUNK_SIZE)`.
pub open spec fn chunk_count(n: nat) -> nat {
    ((n + CHUNK_SIZE - 1) / (CHUNK_SIZE as int)) as nat
}

/// Every report but the last came after a whole chunk: the `i`-th count is
/// `(i + 1) * CHUNK_SIZE`.
pub open spec fn whole_chunks_before_last(counts: Seq<u64>) -> bool {
    forall|i: int| 0 <= i < counts.len() - 1 ==> #[trigger] counts[i] == (i + 1) * CHUNK_SIZE
}

/// When a transfer of `n > 0` bytes reported `counts` to `report` (as
/// `pump` promises) and every read but the last filled a whole chunk, it
/// reported exactly `ceil(n / CHUNK_SIZE)` times, with growing counts, the
/// last of which is `n`.
pub proof fn lemma_whole_chunk_reports<F: Fn(u64, u64)>(
    report: F,
    counts: Seq<u64>,
    total: u64,
    n: u64,
)
    requires
        progress_trace(report, counts, total, n),
        n > 0,
        whole_chunks_before_last(counts),
    ensures
        counts.len() == chunk_count(n as nat),
        counts.last() == n,
        forall|i: int, j: int| 0 <= i < j < counts.len() ==> counts[i] < counts[j],
{
    let k = counts.len() as int;
    assert(k > 0);
    if k == 1 {
        assert(0 < n <= CHUNK_SIZE);
        assert(chunk_count(n as nat) == 1);
    } else {
        assert(counts[k - 2] == (k - 1) * CHUNK_SIZE);
        assert(counts[k - 1] <= counts[k - 2] + CHUNK_SIZE);
        assert(counts[k - 2] < counts[k - 1]);
        assert((k - 1) * 32768 < n <= (k - 1) * 32768 + 32768);
        assert((n + 32767) / 32768 == k) by (nonlinear_arith)
            requires
                (k - 1) * 32768 < n <= (k - 1) * 32768 + 32768,
        ;
    }
    assert forall|i: int, j: int| 0 <= i < j < counts.len() implies counts[i] < counts[j] by {
        lemma_trace_grows(report, counts, total, n, i, j);
    }
}

proof fn lemma_trace_grows<F: Fn(u64, u64)>(
    report: F,
    counts: Seq<u64>,
    total: u64,
    n: u64,
    i: int,
    j: int,
)
    requires
        progress_trace(report, counts, total, n),
        0 <= i < j < counts.len(),
    ensures
        counts[i] < counts[j],
    decreases j - i,
{
    assert(counts[j - 1] < counts[j]);
    if i < j - 1 {
        lemma_trace_grows(report, counts, total, n, i, j - 1);
    }
}

} // verus!

verus! {

/// What a download's worker hands to the caller: the bytes copied so far
/// with the file's size, or the failure that ended it.
pub enum ProgressEvent {
    Progress { done: u64, total: u64 },
    Failure(String),
}

/// What the caller does with the next item of the channel.
pub enum RelayStep {
    /// Forward a progress update to the user interface.
    Emit { done: u64, total: u64 },
    /// End the download with this message.
    Fail(String),
    /// The worker is done and closed the channel: the download succeeded.
    Finish,
}

/// The caller's decision for the next item of the channel, `None` once the
/// channel is closed: progress is forwarded, the first failure ends the
/// download with its message, and closing ends it with success.
pub fn relay_step(next: Option<ProgressEvent>) -> (r: RelayStep)
    ensures
        next is None <==> r is Finish,
        next matches Some(ProgressEvent::Progress { done, total }) ==> r == (RelayStep::Emit {
            done,
            total,
        }),
        next matches Some(ProgressEvent::Failure(m)) ==> r == RelayStep::Fail(m),
{
    match next {
        None => RelayStep::Finish,
        Some(ProgressEvent::Progress { done, total }) => RelayStep::Emit { done, total },
        Some(ProgressEvent::Failure(m)) => RelayStep::Fail(m),
    }
}

} // verus!
