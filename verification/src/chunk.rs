//! Byte-range planning for multi-stream transfers.
//!
//! A resource of `content_length` bytes is split among `worker_count` workers
//! into contiguous ranges. Every range but the last has
//! `content_length / worker_count` bytes; the last one also takes the
//! remainder of that division.

use vstd::prelude::*;

verus! {

/// One planned byte range of a transfer. Both ends are inclusive.
#[derive(Debug, Clone, Copy, PartialEq, Eq, Structural)]
pub struct DownloadChunk {
    pub start_byte: u64,
    pub end_byte: u64,
    pub chunk_id: usize,
}

impl DownloadChunk {
    /// Number of bytes in the range.
    pub open spec fn spec_len(self) -> int {
        self.end_byte - self.start_byte + 1
    }

    /// Whether byte offset `offset` lies in the range.
    pub open spec fn covers(self, offset: int) -> bool {
        self.start_byte <= offset <= self.end_byte
    }
}

/// The range that the plan gives to worker `i`.
pub open spec fn planned_chunk(content_length: u64, worker_count: usize, i: int) -> DownloadChunk {
    let base = content_length as int / worker_count as int;
    DownloadChunk {
        start_byte: (i * base) as u64,
        end_byte: if i == worker_count - 1 {
            (content_length - 1) as u64
        } else {
            ((i + 1) * base - 1) as u64
        },
        chunk_id: i as usize,
    }
}

/// The whole plan for `content_length` bytes and `worker_count` workers.
pub open spec fn planned_chunks(content_length: u64, worker_count: usize) -> Seq<DownloadChunk> {
    Seq::new(worker_count as nat, |i: int| planned_chunk(content_length, worker_count, i))
}

/// The ranges tile `[0, content_length - 1]`: the first starts at 0, each
/// next one starts right after the one before, the last ends at
/// `content_length - 1`, none is empty, and ids count up from 0.
pub open spec fn tiles(chunks: Seq<DownloadChunk>, content_length: int) -> bool {
    &&& chunks.len() >= 1
    &&& chunks[0].start_byte == 0
    &&& chunks[chunks.len() - 1].end_byte == content_length - 1
    &&& forall|i: int|
        0 <= i < chunks.len() ==> (#[trigger] chunks[i]).start_byte <= chunks[i].end_byte
            && chunks[i].chunk_id == i
    &&& forall|i: int|
        0 <= i < chunks.len() - 1 ==> (#[trigger] chunks[i + 1]).start_byte == chunks[i].end_byte
            + 1
}

/// Sum of the lengths of the ranges.
pub open spec fn total_len(chunks: Seq<DownloadChunk>) -> int
    decreases chunks.len(),
{
    if chunks.len() == 0 {
        0
    } else {
        total_len(chunks.drop_last()) + chunks.last().spec_len()
    }
}

/// Whether a plan exists for these values: at least one worker, and at least
/// one byte for each.
pub open spec fn plannable(content_length: u64, worker_count: usize) -> bool {
    1 <= worker_count <= content_length
}

proof fn lemma_base_bounds(content_length: u64, worker_count: usize, i: int)
    requires
        plannable(content_length, worker_count),
        0 <= i < worker_count,
    ensures
        content_length as int / worker_count as int >= 1,
        0 <= i * (content_length as int / worker_count as int),
        (i + 1) * (content_length as int / worker_count as int) <= content_length,
        i * (content_length as int / worker_count as int) + (content_length as int
            / worker_count as int) == (i + 1) * (content_length as int / worker_count as int),
{
    let c = content_length as int;
    let w = worker_count as int;
    let base = c / w;
    assert(base >= 1 && w * base <= c) by (nonlinear_arith)
        requires
            1 <= w <= c,
            base == c / w,
    ;
    assert(0 <= i * base && (i + 1) * base <= w * base && i * base + base == (i + 1) * base)
        by (nonlinear_arith)
        requires
            0 <= i < w,
            base >= 1,
    ;
}

/// Splits `content_length` bytes into `worker_count` ranges.
pub fn plan_chunks(content_length: u64, worker_count: usize) -> (chunks: Vec<DownloadChunk>)
    requires
        plannable(content_length, worker_count),
    ensures
        chunks@ == planned_chunks(content_length, worker_count),
        chunks.len() == worker_count,
        tiles(chunks@, content_length as int),
{
    let chunk_size = content_length / (worker_count as u64);
    let mut chunks: Vec<DownloadChunk> = Vec::new();
    let mut i: usize = 0;
    while i < worker_count
        invariant
            plannable(content_length, worker_count),
            chunk_size == content_length as int / worker_count as int,
            i <= worker_count,
            chunks.len() == i,
            forall|j: int|
                0 <= j < i ==> chunks@[j] == planned_chunk(content_length, worker_count, j),
        decreases worker_count - i,
    {
        proof {
            lemma_base_bounds(content_length, worker_count, i as int);
        }
        let start_byte = (i as u64) * chunk_size;
        let end_byte = if i == worker_count - 1 {
            content_length - 1
        } else {
            (start_byte + chunk_size) - 1
        };
        chunks.push(DownloadChunk { start_byte, end_byte, chunk_id: i });
        i += 1;
    }
    proof {
        assert(chunks@ =~= planned_chunks(content_length, worker_count));
        lemma_plan_tiles(content_length, worker_count);
    }
    chunks
}

/// Splits `content_length` bytes into `worker_count` ranges where a plan
/// exists, and says so where none does.
pub fn try_plan_chunks(content_length: u64, worker_count: usize) -> (r: Option<Vec<DownloadChunk>>)
    ensures
        r is Some <==> plannable(content_length, worker_count),
        r matches Some(chunks) ==> chunks@ == planned_chunks(content_length, worker_count)
            && tiles(chunks@, content_length as int),
{
    if worker_count >= 1 && (worker_count as u64) <= content_length {
        Some(plan_chunks(content_length, worker_count))
    } else {
        None
    }
}

/// The plan has one range per worker and tiles the resource.
pub proof fn lemma_plan_tiles(content_length: u64, worker_count: usize)
    requires
        plannable(content_length, worker_count),
    ensures
        planned_chunks(content_length, worker_count).len() == worker_count,
        tiles(planned_chunks(content_length, worker_count), content_length as int),
{
    let chunks = planned_chunks(content_length, worker_count);
    let base = content_length as int / worker_count as int;
    assert forall|i: int| 0 <= i < chunks.len() implies (#[trigger] chunks[i]).start_byte
        == i * base && chunks[i].end_byte == (if i == worker_count - 1 {
        content_length - 1
    } else {
        (i + 1) * base - 1
    }) && chunks[i].start_byte <= chunks[i].end_byte && chunks[i].chunk_id == i by {
        lemma_base_bounds(content_length, worker_count, i);
    }
    assert(chunks[0].start_byte == 0) by {
        assert(0 * base == 0);
    }
    assert forall|i: int| 0 <= i < chunks.len() - 1 implies (#[trigger] chunks[i + 1]).start_byte
        == chunks[i].end_byte + 1 by {
        let _ = chunks[i];
    }
}

/// In a tiling, ranges are in ascending order: a later range starts after
/// an earlier one ends.
pub proof fn lemma_tiles_ordered(chunks: Seq<DownloadChunk>, content_length: int, i: int, j: int)
    requires
        tiles(chunks, content_length),
        0 <= i < j < chunks.len(),
    ensures
        chunks[i].end_byte < chunks[j].start_byte,
    decreases j - i,
{
    if j == i + 1 {
        let _ = chunks[i + 1];
    } else {
        lemma_tiles_ordered(chunks, content_length, i, j - 1);
        let _ = chunks[j - 1];
        let _ = chunks[(j - 1) + 1];
    }
}

/// No gaps and no overlaps: every byte offset of the resource lies in
/// exactly one range of a tiling, and no range reaches outside the resource.
pub proof fn lemma_tiles_cover_exactly_once(
    chunks: Seq<DownloadChunk>,
    content_length: int,
    offset: int,
)
    requires
        tiles(chunks, content_length),
    ensures
        0 <= offset < content_length ==> exists|i: int|
            0 <= i < chunks.len() && (#[trigger] chunks[i]).covers(offset),
        forall|i: int, j: int|
            0 <= i < chunks.len() && 0 <= j < chunks.len() && (#[trigger] chunks[i]).covers(offset)
                && (#[trigger] chunks[j]).covers(offset) ==> i == j,
        forall|i: int|
            0 <= i < chunks.len() && (#[trigger] chunks[i]).covers(offset) ==> 0 <= offset
                < content_length,
{
    if 0 <= offset < content_length {
        lemma_find_cover(chunks, content_length, offset, chunks.len() - 1);
    }
    assert forall|i: int, j: int|
        0 <= i < chunks.len() && 0 <= j < chunks.len() && (#[trigger] chunks[i]).covers(offset) && (
        #[trigger] chunks[j]).covers(offset) implies i == j by {
        if i < j {
            lemma_tiles_ordered(chunks, content_length, i, j);
        } else if j < i {
            lemma_tiles_ordered(chunks, content_length, j, i);
        }
    }
    assert forall|i: int| 0 <= i < chunks.len() && (#[trigger] chunks[i]).covers(offset) implies 0
        <= offset < content_length by {
        if i < chunks.len() - 1 {
            lemma_tiles_ordered(chunks, content_length, i, chunks.len() - 1);
        }
    }
}

proof fn lemma_find_cover(chunks: Seq<DownloadChunk>, content_length: int, offset: int, k: int)
    requires
        tiles(chunks, content_length),
        0 <= k < chunks.len(),
        0 <= offset <= chunks[k].end_byte,
    ensures
        exists|i: int| 0 <= i <= k && (#[trigger] chunks[i]).covers(offset),
    decreases k,
{
    if chunks[k].start_byte <= offset {
        assert(chunks[k].covers(offset));
    } else {
        assert(k > 0);
        let _ = chunks[(k - 1) + 1];
        lemma_find_cover(chunks, content_length, offset, k - 1);
    }
}

/// The lengths of the ranges of a tiling add up to the length of the
/// resource.
pub proof fn lemma_tiles_total_len(chunks: Seq<DownloadChunk>, content_length: int)
    requires
        tiles(chunks, content_length),
    ensures
        total_len(chunks) == content_length,
{
    lemma_prefix_len(chunks, content_length, chunks.len() as int);
    assert(chunks.take(chunks.len() as int) =~= chunks);
}

proof fn lemma_prefix_len(chunks: Seq<DownloadChunk>, content_length: int, n: int)
    requires
        tiles(chunks, content_length),
        1 <= n <= chunks.len(),
    ensures
        total_len(chunks.take(n)) == chunks[n - 1].end_byte + 1,
    decreases n,
{
    let p = chunks.take(n);
    assert(p.last() == chunks[n - 1]);
    assert(p.drop_last() =~= chunks.take(n - 1));
    if n == 1 {
        assert(total_len(chunks.take(0)) == 0);
    } else {
        lemma_prefix_len(chunks, content_length, n - 1);
        let _ = chunks[(n - 2) + 1];
    }
}

} // verus!
