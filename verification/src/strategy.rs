//! Per-URL decisions: single-stream or multi-stream, and whether a
//! single-stream transfer resumes a partial file.

use crate::chunk::{plannable, planned_chunks, tiles, try_plan_chunks, DownloadChunk};
use crate::fetch::ByteRange;
use crate::text::{chars_eq, chars_of, decimal};
use vstd::prelude::*;

verus! {

/// Resources shorter than this are fetched in one stream: 1 MiB.
pub const MULTI_STREAM_THRESHOLD: u64 = 1_048_576;

/// What a header-only probe of a URL found.
#[derive(Debug, Clone, Copy, PartialEq, Eq, Structural)]
pub struct ProbeResult {
    /// Length of the resource, where the server gave one.
    pub content_length: Option<u64>,
    /// Whether the server answers requests for byte ranges.
    pub accepts_ranges: bool,
}

/// How a URL is transferred.
#[derive(Debug, Clone, Copy, PartialEq, Eq, Structural)]
pub enum Strategy {
    /// One request for the whole resource, or for the rest of it on resume.
    SingleStream,
    /// One request per planned byte range.
    MultiStream,
}

/// Multi-stream only if the probe succeeded, gave a length of at least
/// [`MULTI_STREAM_THRESHOLD`] and range support, and more than one worker
/// was asked for.
pub open spec fn spec_choose_strategy(probe: Option<ProbeResult>, jobs: usize) -> Strategy {
    match probe {
        Some(p) => match p.content_length {
            Some(len) => if p.accepts_ranges && jobs > 1 && len >= MULTI_STREAM_THRESHOLD {
                Strategy::MultiStream
            } else {
                Strategy::SingleStream
            },
            None => Strategy::SingleStream,
        },
        None => Strategy::SingleStream,
    }
}

/// Picks the strategy for one URL. `probe` is `None` where the probe failed.
pub fn choose_strategy(probe: Option<ProbeResult>, jobs: usize) -> (r: Strategy)
    ensures
        r == spec_choose_strategy(probe, jobs),
{
    match probe {
        Some(p) => match p.content_length {
            Some(len) => if p.accepts_ranges && jobs > 1 && len >= MULTI_STREAM_THRESHOLD {
                Strategy::MultiStream
            } else {
                Strategy::SingleStream
            },
            None => Strategy::SingleStream,
        },
        None => Strategy::SingleStream,
    }
}

/// The byte ranges of a multi-stream transfer, where the strategy is
/// multi-stream and every worker can be given at least one byte; `None`
/// otherwise.
pub fn plan_multi_stream(probe: Option<ProbeResult>, jobs: usize) -> (r: Option<
    Vec<DownloadChunk>,
>)
    ensures
        r is Some <==> spec_choose_strategy(probe, jobs) == Strategy::MultiStream && plannable(
            probe->0.content_length->0,
            jobs,
        ),
        r matches Some(chunks) ==> chunks@ == planned_chunks(probe->0.content_length->0, jobs)
            && chunks.len() == jobs && tiles(chunks@, probe->0.content_length->0 as int),
{
    match choose_strategy(probe, jobs) {
        Strategy::SingleStream => None,
        Strategy::MultiStream => {
            let len = probe.unwrap().content_length.unwrap();
            try_plan_chunks(len, jobs)
        },
    }
}

/// Whether the value of an `Accept-Ranges` header grants byte ranges: it
/// does if it is exactly `bytes`.
pub fn accepts_byte_ranges(header: Option<&str>) -> (r: bool)
    ensures
        r == (header matches Some(v) && v@ == "bytes"@),
{
    match header {
        Some(v) => {
            let a = chars_of(v);
            let b = chars_of("bytes");
            chars_eq(a.as_slice(), b.as_slice())
        },
        None => false,
    }
}

/// The remote length out of the two ways of reading it: the length the
/// client reports and the `Content-Length` header parsed by hand. The header
/// is preferred where the client reports 0; otherwise the client's value,
/// then the header's.
pub open spec fn spec_remote_length(reported: Option<u64>, header: Option<u64>) -> Option<u64> {
    if reported == Some(0u64) && header is Some {
        header
    } else if reported is Some {
        reported
    } else {
        header
    }
}

pub fn remote_length(reported: Option<u64>, header: Option<u64>) -> (r: Option<u64>)
    ensures
        r == spec_remote_length(reported, header),
{
    match reported {
        Some(n) => if n == 0 && header.is_some() {
            header
        } else {
            reported
        },
        None => header,
    }
}

/// What a single-stream transfer does about a file that may be there already.
#[derive(Debug, Clone, Copy, PartialEq, Eq, Structural)]
pub enum ResumePlan {
    /// Fetch the whole resource into a new or truncated file.
    Fresh,
    /// The file holds the whole resource already: nothing is requested.
    AlreadyComplete,
    /// Fetch from `offset` on and append to the file.
    Resume { offset: u64 },
}

/// Resume is considered only if it was asked for and the file exists. Then
/// a file at least as long as the remote resource is complete, and a shorter
/// one is continued from its length. Without a remote length nothing is
/// guessed: the resource is fetched afresh.
pub open spec fn spec_plan_resume(
    resume: bool,
    existing_size: Option<u64>,
    remote_length: Option<u64>,
) -> ResumePlan {
    if resume && existing_size is Some && remote_length is Some {
        if existing_size->0 >= remote_length->0 {
            ResumePlan::AlreadyComplete
        } else {
            ResumePlan::Resume { offset: existing_size->0 }
        }
    } else {
        ResumePlan::Fresh
    }
}

/// Decides how a single-stream transfer starts. `existing_size` is the size
/// of the output file, `None` where there is no such file.
pub fn plan_resume(resume: bool, existing_size: Option<u64>, remote_length: Option<u64>) -> (r:
    ResumePlan)
    ensures
        r == spec_plan_resume(resume, existing_size, remote_length),
{
    if !resume {
        return ResumePlan::Fresh;
    }
    match (existing_size, remote_length) {
        (Some(have), Some(total)) => if have >= total {
            ResumePlan::AlreadyComplete
        } else {
            ResumePlan::Resume { offset: have }
        },
        _ => ResumePlan::Fresh,
    }
}

impl ResumePlan {
    /// The bytes to request; `None` where nothing is requested.
    pub open spec fn spec_byte_range(self) -> Option<ByteRange> {
        match self {
            ResumePlan::Fresh => Some(ByteRange::Whole),
            ResumePlan::AlreadyComplete => None,
            ResumePlan::Resume { offset } => Some(ByteRange::From(offset)),
        }
    }

    /// Whether the output file is opened for appending rather than created
    /// or truncated.
    pub open spec fn spec_append_mode(self) -> bool {
        self is Resume
    }

    pub fn byte_range(&self) -> (r: Option<ByteRange>)
        ensures
            r == self.spec_byte_range(),
    {
        match self {
            ResumePlan::Fresh => Some(ByteRange::Whole),
            ResumePlan::AlreadyComplete => None,
            ResumePlan::Resume { offset } => Some(ByteRange::From(*offset)),
        }
    }

    pub fn append_mode(&self) -> (r: bool)
        ensures
            r == self.spec_append_mode(),
    {
        match self {
            ResumePlan::Resume { .. } => true,
            _ => false,
        }
    }
}

/// What the output file holds after a single-stream transfer that went
/// through: what was there and the body, for a resumed transfer; the body
/// alone otherwise.
pub open spec fn file_after_transfer(plan: ResumePlan, local: Seq<u8>, body: Seq<u8>) -> Seq<u8> {
    match plan {
        ResumePlan::Fresh => body,
        ResumePlan::AlreadyComplete => local,
        ResumePlan::Resume { .. } => local + body,
    }
}

/// Idempotence: a download that is run again with resume, on a file that
/// holds the whole resource, requests no bytes and leaves the file as it is.
pub proof fn lemma_completed_download_is_left_alone(local: Seq<u8>, remote_length: u64)
    requires
        local.len() <= u64::MAX,
        local.len() >= remote_length,
    ensures
        spec_plan_resume(true, Some(local.len() as u64), Some(remote_length))
            == ResumePlan::AlreadyComplete,
        ResumePlan::AlreadyComplete.spec_byte_range() is None,
        forall|body: Seq<u8>|
            file_after_transfer(ResumePlan::AlreadyComplete, local, body) == local,
{
}

/// Resume correctness: with the first `N` bytes of a longer resource on
/// disk, a resumed download asks for `bytes=N-` and appends; where the server
/// answers with the bytes from `N` on, the file then holds the resource.
pub proof fn lemma_resume_restores_resource(resource: Seq<u8>, local: Seq<u8>)
    requires
        resource.len() <= u64::MAX,
        local.len() < resource.len(),
        local == resource.take(local.len() as int),
    ensures
        spec_plan_resume(true, Some(local.len() as u64), Some(resource.len() as u64))
            == (ResumePlan::Resume { offset: local.len() as u64 }),
        (ResumePlan::Resume { offset: local.len() as u64 }).spec_byte_range() == Some(
            ByteRange::From(local.len() as u64),
        ),
        ByteRange::From(local.len() as u64).spec_header_value() == Some(
            "bytes="@ + decimal(local.len()) + "-"@,
        ),
        (ResumePlan::Resume { offset: local.len() as u64 }).spec_append_mode(),
        file_after_transfer(
            ResumePlan::Resume { offset: local.len() as u64 },
            local,
            resource.skip(local.len() as int),
        ) == resource,
{
    assert(resource.take(local.len() as int) + resource.skip(local.len() as int) =~= resource);
}

/// What is done about one URL.
#[derive(Debug)]
pub enum TransferPlan {
    /// One request per chunk, then the chunks are combined.
    MultiStream { chunks: Vec<DownloadChunk> },
    /// One request, or none where the file is complete already.
    SingleStream { resume: ResumePlan },
    /// The strategy is multi-stream, but more workers were asked for than
    /// the resource has bytes: no plan gives each of them a range.
    Unplannable,
}

/// The length that a probe gave, if it succeeded and gave one.
pub open spec fn probed_length(probe: Option<ProbeResult>) -> Option<u64> {
    match probe {
        Some(p) => p.content_length,
        None => None,
    }
}

/// The plan for one URL is what the decision procedure gives: by the
/// strategy, the chunks of a multi-stream transfer or the start of a
/// single-stream one. Resuming is a matter of single-stream transfers only.
pub open spec fn is_transfer_plan(
    plan: TransferPlan,
    probe: Option<ProbeResult>,
    jobs: usize,
    resume: bool,
    existing_size: Option<u64>,
) -> bool {
    match spec_choose_strategy(probe, jobs) {
        Strategy::MultiStream => if plannable(probed_length(probe)->0, jobs) {
            plan matches TransferPlan::MultiStream { chunks } && chunks@ == planned_chunks(
                probed_length(probe)->0,
                jobs,
            )
        } else {
            plan is Unplannable
        },
        Strategy::SingleStream => plan matches TransferPlan::SingleStream { resume: start }
            && start == spec_plan_resume(resume, existing_size, probed_length(probe)),
    }
}

/// Decides what is done about one URL, from the probe, the number of
/// workers asked for, whether resuming was asked for, and the size of the
/// output file if there is one.
pub fn plan_transfer(
    probe: Option<ProbeResult>,
    jobs: usize,
    resume: bool,
    existing_size: Option<u64>,
) -> (r: TransferPlan)
    ensures
        is_transfer_plan(r, probe, jobs, resume, existing_size),
        r matches TransferPlan::MultiStream { chunks } ==> chunks.len() == jobs && tiles(
            chunks@,
            probed_length(probe)->0 as int,
        ),
{
    match choose_strategy(probe, jobs) {
        Strategy::MultiStream => match plan_multi_stream(probe, jobs) {
            Some(chunks) => TransferPlan::MultiStream { chunks },
            None => TransferPlan::Unplannable,
        },
        Strategy::SingleStream => {
            let length = match probe {
                Some(p) => p.content_length,
                None => None,
            };
            TransferPlan::SingleStream { resume: plan_resume(resume, existing_size, length) }
        },
    }
}

} // verus!
