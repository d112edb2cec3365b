//! The chunk combiner: the temporary files of a multi-stream transfer and
//! how their contents make up the final file.

use crate::chunk::{lemma_plan_tiles, plannable, planned_chunks, tiles, DownloadChunk};
use crate::error::{ErrorCode, ErrorKind, RuGetError};
use crate::text::{concat2, concat3, decimal, push_decimal};
use vstd::prelude::*;

verus! {

/// The path from which the temporary files of a transfer are named: the
/// output path and `.tmp`.
pub fn temp_file_path(output_path: &str) -> (r: String)
    ensures
        r@ == output_path@ + ".tmp"@,
{
    concat2(output_path, ".tmp")
}

/// The path of the temporary file of one chunk.
pub open spec fn spec_chunk_temp_path(temp_file_path: Seq<char>, chunk_id: nat) -> Seq<char> {
    temp_file_path + ".chunk."@ + decimal(chunk_id)
}

/// The path of the temporary file of one chunk: the temporary path,
/// `.chunk.` and the chunk's id.
pub fn chunk_temp_path(temp_file_path: &str, chunk_id: usize) -> (r: String)
    ensures
        r@ == spec_chunk_temp_path(temp_file_path@, chunk_id as nat),
{
    let mut s = concat2(temp_file_path, ".chunk.");
    push_decimal(&mut s, chunk_id as u64);
    s
}

/// The temporary files of a transfer in the order in which they are
/// combined: by ascending chunk id.
pub fn chunk_paths(temp_file_path: &str, chunk_count: usize) -> (r: Vec<String>)
    ensures
        r.len() == chunk_count,
        forall|i: int|
            0 <= i < chunk_count ==> (#[trigger] r@[i])@ == spec_chunk_temp_path(
                temp_file_path@,
                i as nat,
            ),
{
    let mut paths: Vec<String> = Vec::new();
    let mut i: usize = 0;
    while i < chunk_count
        invariant
            i <= chunk_count,
            paths.len() == i,
            forall|j: int|
                0 <= j < i ==> (#[trigger] paths@[j])@ == spec_chunk_temp_path(
                    temp_file_path@,
                    j as nat,
                ),
        decreases chunk_count - i,
    {
        paths.push(chunk_temp_path(temp_file_path, i));
        i += 1;
    }
    paths
}

/// The message of the error for a chunk file that is not there.
pub open spec fn spec_missing_chunk_message(chunk_path: Seq<char>) -> Seq<char> {
    "File system error: "@ + ("Chunk file "@ + chunk_path + " not found"@)
}

/// The error for a chunk file that is not there when chunks are combined.
pub fn missing_chunk_error(chunk_path: &str) -> (r: RuGetError)
    ensures
        r.is_plain(
            ErrorCode::E503,
            ErrorKind::FileSystem,
            spec_missing_chunk_message(chunk_path@),
        ),
{
    RuGetError::file_system(concat3("Chunk file ", chunk_path, " not found"))
}

/// `i` is the first chunk whose file does not exist.
pub open spec fn first_absent(exists: Seq<bool>, i: int) -> bool {
    &&& 0 <= i < exists.len()
    &&& !exists[i]
    &&& forall|j: int| 0 <= j < i ==> #[trigger] exists[j]
}

/// Plans a combine from which chunk files exist, before the output file
/// is touched: `exists[i]` says whether the file of chunk `i` is there. With
/// all of them there, the plan is their paths in the order in which they are
/// appended, by ascending chunk id. With one missing, the combine fails at
/// once, with the error that names the path of the first missing file;
/// nothing has been written or removed then.
pub fn plan_combine(temp_file_path: &str, exists: &[bool]) -> (r: Result<Vec<String>, RuGetError>)
    ensures
        r is Ok <==> forall|i: int| 0 <= i < exists.len() ==> #[trigger] exists@[i],
        r matches Ok(paths) ==> paths.len() == exists.len() && forall|i: int|
            0 <= i < exists.len() ==> (#[trigger] paths@[i])@ == spec_chunk_temp_path(
                temp_file_path@,
                i as nat,
            ),
        r matches Err(e) ==> exists|i: int|
            {
                &&& #[trigger] first_absent(exists@, i)
                &&& e.is_plain(
                    ErrorCode::E503,
                    ErrorKind::FileSystem,
                    spec_missing_chunk_message(spec_chunk_temp_path(temp_file_path@, i as nat)),
                )
            },
{
    let mut i: usize = 0;
    while i < exists.len()
        invariant
            i <= exists.len(),
            forall|j: int| 0 <= j < i ==> #[trigger] exists@[j],
        decreases exists.len() - i,
    {
        if !exists[i] {
            let path = chunk_temp_path(temp_file_path, i);
            let e = missing_chunk_error(path.as_str());
            assert(first_absent(exists@, i as int));
            return Err(e);
        }
        i += 1;
    }
    Ok(chunk_paths(temp_file_path, exists.len()))
}

/// The contents of the parts, one after the other.
pub open spec fn concat_all(parts: Seq<Seq<u8>>) -> Seq<u8>
    decreases parts.len(),
{
    if parts.len() == 0 {
        Seq::empty()
    } else {
        concat_all(parts.drop_last()) + parts.last()
    }
}

/// The contents of the chunk files as plain sequences; a missing file has
/// none.
pub open spec fn contents_of(parts: Seq<Option<Vec<u8>>>) -> Seq<Option<Seq<u8>>> {
    parts.map_values(
        |p: Option<Vec<u8>>|
            match p {
                Some(v) => Some(v@),
                None => None,
            },
    )
}

/// The contents of files of which none is missing.
pub open spec fn present(parts: Seq<Option<Seq<u8>>>) -> Seq<Seq<u8>> {
    parts.map_values(|p: Option<Seq<u8>>| p->0)
}

/// `i` is the first chunk whose file is missing.
pub open spec fn first_missing(parts: Seq<Option<Seq<u8>>>, i: int) -> bool {
    &&& 0 <= i < parts.len()
    &&& parts[i] is None
    &&& forall|j: int| 0 <= j < i ==> (#[trigger] parts[j]) is Some
}

/// Combines the contents of the chunk files, given in the order of their
/// ids: the contents one after the other. Fails at the first chunk whose
/// file is missing, with the error that names its path.
pub fn combine_chunks(temp_file_path: &str, parts: &Vec<Option<Vec<u8>>>) -> (r: Result<
    Vec<u8>,
    RuGetError,
>)
    ensures
        match r {
            Ok(out) => {
                &&& forall|i: int| 0 <= i < parts.len() ==> (#[trigger] parts@[i]) is Some
                &&& out@ == concat_all(present(contents_of(parts@)))
            },
            Err(e) => exists|i: int|
                {
                    &&& #[trigger] first_missing(contents_of(parts@), i)
                    &&& e.is_plain(
                        ErrorCode::E503,
                        ErrorKind::FileSystem,
                        spec_missing_chunk_message(
                            spec_chunk_temp_path(temp_file_path@, i as nat),
                        ),
                    )
                },
        },
{
    let ghost all = contents_of(parts@);
    let mut out: Vec<u8> = Vec::new();
    let mut i: usize = 0;
    proof {
        assert(present(all).take(0) =~= Seq::<Seq<u8>>::empty());
    }
    while i < parts.len()
        invariant
            i <= parts.len(),
            all == contents_of(parts@),
            forall|j: int| 0 <= j < i ==> (#[trigger] parts@[j]) is Some,
            out@ == concat_all(present(all).take(i as int)),
        decreases parts.len() - i,
    {
        match &parts[i] {
            Some(data) => {
                proof {
                    let next = present(all).take(i + 1);
                    assert(next.drop_last() =~= present(all).take(i as int));
                    assert(next.last() == data@);
                }
                out.extend_from_slice(data.as_slice());
            },
            None => {
                let path = chunk_temp_path(temp_file_path, i);
                let e = missing_chunk_error(path.as_str());
                proof {
                    assert forall|j: int| 0 <= j < i implies (#[trigger] all[j]) is Some by {
                        assert(parts@[j] is Some);
                    }
                    assert(first_missing(all, i as int));
                }
                return Err(e);
            },
        }
        i += 1;
    }
    proof {
        assert(present(all).take(i as int) =~= present(all));
    }
    Ok(out)
}

/// The bytes of the resource that a chunk stands for.
pub open spec fn chunk_bytes(resource: Seq<u8>, chunk: DownloadChunk) -> Seq<u8> {
    resource.subrange(chunk.start_byte as int, chunk.end_byte + 1)
}

/// Combine correctness: where the ranges tile the resource and every part
/// holds the bytes of its range, the parts in the order of their ids make up
/// the resource, byte for byte.
pub proof fn lemma_combined_parts_are_resource(
    resource: Seq<u8>,
    chunks: Seq<DownloadChunk>,
    parts: Seq<Seq<u8>>,
)
    requires
        tiles(chunks, resource.len() as int),
        parts.len() == chunks.len(),
        forall|i: int|
            0 <= i < chunks.len() ==> #[trigger] parts[i] == chunk_bytes(resource, chunks[i]),
    ensures
        concat_all(parts) == resource,
        concat_all(parts).len() == resource.len(),
{
    lemma_combined_prefix(resource, chunks, parts, chunks.len() as int);
    assert(parts.take(chunks.len() as int) =~= parts);
    assert(resource.take(resource.len() as int) =~= resource);
}

/// A planned transfer reassembles its resource: where every worker of a
/// plan has fetched the bytes of its range, the parts combined in the order
/// of their ids are the resource.
pub proof fn lemma_planned_transfer_reassembles(
    resource: Seq<u8>,
    worker_count: usize,
    parts: Seq<Seq<u8>>,
)
    requires
        resource.len() <= u64::MAX,
        plannable(resource.len() as u64, worker_count),
        parts.len() == worker_count,
        forall|i: int|
            0 <= i < worker_count ==> #[trigger] parts[i] == chunk_bytes(
                resource,
                planned_chunks(resource.len() as u64, worker_count)[i],
            ),
    ensures
        concat_all(parts) == resource,
{
    lemma_plan_tiles(resource.len() as u64, worker_count);
    lemma_combined_parts_are_resource(
        resource,
        planned_chunks(resource.len() as u64, worker_count),
        parts,
    );
}

proof fn lemma_combined_prefix(
    resource: Seq<u8>,
    chunks: Seq<DownloadChunk>,
    parts: Seq<Seq<u8>>,
    n: int,
)
    requires
        tiles(chunks, resource.len() as int),
        parts.len() == chunks.len(),
        forall|i: int|
            0 <= i < chunks.len() ==> #[trigger] parts[i] == chunk_bytes(resource, chunks[i]),
        1 <= n <= chunks.len(),
    ensures
        chunks[n - 1].end_byte < resource.len(),
        concat_all(parts.take(n)) == resource.take(chunks[n - 1].end_byte + 1),
    decreases n,
{
    let p = parts.take(n);
    assert(p.last() == parts[n - 1]);
    assert(p.drop_last() =~= parts.take(n - 1));
    if n < chunks.len() {
        crate::chunk::lemma_tiles_ordered(chunks, resource.len() as int, n - 1, chunks.len() - 1);
    }
    let _ = chunks[n - 1];
    if n == 1 {
        assert(parts.take(0) =~= Seq::<Seq<u8>>::empty());
        assert(concat_all(parts.take(0)) =~= Seq::<u8>::empty());
        assert(concat_all(p) =~= resource.take(chunks[0].end_byte + 1));
    } else {
        lemma_combined_prefix(resource, chunks, parts, n - 1);
        let _ = chunks[(n - 2) + 1];
        assert(concat_all(p) =~= resource.take(chunks[n - 1].end_byte + 1));
    }
}

/// `i` is the first chunk whose fetch failed.
pub open spec fn first_failed(results: Seq<Result<(), RuGetError>>, i: int) -> bool {
    &&& 0 <= i < results.len()
    &&& results[i] is Err
    &&& forall|j: int| 0 <= j < i ==> (#[trigger] results[j]) is Ok
}

/// The message of the error of a transfer of which a chunk failed.
pub open spec fn spec_chunk_failure_message(index: nat, error: RuGetError) -> Seq<char> {
    "Network error: "@ + ("Chunk "@ + decimal(index) + " failed to download: "@
        + error.spec_text())
}

/// The error of a multi-stream transfer, if it has one: the transfer has
/// failed as soon as one of its chunks has, and the error names the first
/// such chunk and its error. Chunks are not combined then.
pub fn first_chunk_failure(results: &[Result<(), RuGetError>]) -> (r: Option<RuGetError>)
    ensures
        r is None <==> forall|i: int| 0 <= i < results.len() ==> (#[trigger] results@[i]) is Ok,
        r matches Some(e) ==> exists|i: int|
            {
                &&& #[trigger] first_failed(results@, i)
                &&& e.is_plain(
                    ErrorCode::E400,
                    ErrorKind::Network,
                    spec_chunk_failure_message(i as nat, results@[i]->Err_0),
                )
            },
{
    let mut i: usize = 0;
    while i < results.len()
        invariant
            i <= results.len(),
            forall|j: int| 0 <= j < i ==> (#[trigger] results@[j]) is Ok,
        decreases results.len() - i,
    {
        match &results[i] {
            Ok(_) => {},
            Err(e) => {
                let mut m = String::from_str("Chunk ");
                push_decimal(&mut m, i as u64);
                m.append(" failed to download: ");
                let text = e.to_string();
                m.append(text.as_str());
                let failure = RuGetError::network(m);
                proof {
                    assert(first_failed(results@, i as int));
                    assert(failure.message@ =~= spec_chunk_failure_message(
                        i as nat,
                        results@[i as int]->Err_0,
                    ));
                }
                return Some(failure);
            },
        }
        i += 1;
    }
    None
}

} // verus!
