//! The batch orchestrator: an initial pass over the URLs, a second pass over
//! those that failed, and the report.
//!
//! The caller performs the transfers. It hands in each outcome and is told
//! which URLs to try again, what to write to the failure log and whether the
//! batch as a whole has failed.

use crate::error::{ErrorCode, ErrorKind, RuGetError};
use crate::text::concat3;
use vstd::prelude::*;

verus! {

/// A transfer that failed: the URL, where it was to be written, and the text
/// of the error.
#[derive(Debug)]
pub struct FailureRecord {
    pub url: String,
    pub output_path: String,
    pub error: String,
}

impl FailureRecord {
    /// The line of the failure log for this record, without the line break:
    /// the URL, a tab and the error.
    pub open spec fn spec_log_line(self) -> Seq<char> {
        self.url@ + "\t"@ + self.error@
    }

    pub fn log_line(&self) -> (r: String)
        ensures
            r@ == self.spec_log_line(),
    {
        concat3(self.url.as_str(), "\t", self.error.as_str())
    }
}

/// A named output path serves one URL only.
pub open spec fn output_conflict(url_count: usize, has_output: bool) -> bool {
    url_count > 1 && has_output
}

/// Rejects a named output path together with more than one URL. This comes
/// before any transfer.
pub fn check_output_conflict(url_count: usize, has_output: bool) -> (r: Result<(), RuGetError>)
    ensures
        r is Err <==> output_conflict(url_count, has_output),
        r matches Err(e) ==> e.is_plain(
            ErrorCode::E501,
            ErrorKind::Parse,
            "Parse error: "@ + "Cannot use --output with multiple URLs"@,
        ),
{
    if url_count > 1 && has_output {
        Err(RuGetError::parse(String::from_str("Cannot use --output with multiple URLs")))
    } else {
        Ok(())
    }
}

/// The initial pass: every URL of the batch is transferred once.
#[derive(Debug)]
pub struct InitialPass {
    /// Transfers that went through.
    pub succeeded: usize,
    /// Transfers that failed, in the order in which they were recorded.
    pub failures: Vec<FailureRecord>,
}

/// The second pass: the URLs that failed in the initial pass are
/// transferred once more, with fresh retry counters.
#[derive(Debug)]
pub struct RetryPass {
    /// Number of URLs in the batch.
    pub total: usize,
    /// The failures of the initial pass.
    pub pending: Vec<FailureRecord>,
    /// How many of them have been tried again.
    pub retried: usize,
    /// Those that failed again, each with the error of its second failure.
    pub final_failures: Vec<FailureRecord>,
}

/// How a batch ended.
#[derive(Debug)]
pub struct BatchReport {
    /// URLs that were transferred in the end.
    pub succeeded: usize,
    /// Number of URLs in the batch.
    pub total: usize,
    /// The lines to append to the failure log, one per permanent failure.
    /// Empty where nothing failed for good: the log is then left alone.
    pub log_lines: Vec<String>,
    /// An error where every URL of the batch failed; `Ok` otherwise, also
    /// where some failed.
    pub result: Result<(), RuGetError>,
}

impl InitialPass {
    /// Number of outcomes recorded.
    pub open spec fn spec_total(self) -> int {
        self.succeeded + self.failures.len()
    }

    /// Begins a batch of `url_count` URLs, unless the configuration is in
    /// conflict with itself.
    pub fn new(url_count: usize, has_output: bool) -> (r: Result<InitialPass, RuGetError>)
        ensures
            r is Err <==> output_conflict(url_count, has_output),
            r matches Err(e) ==> e.is_plain(
                ErrorCode::E501,
                ErrorKind::Parse,
                "Parse error: "@ + "Cannot use --output with multiple URLs"@,
            ),
            r matches Ok(pass) ==> pass.succeeded == 0 && pass.failures@.len() == 0,
    {
        match check_output_conflict(url_count, has_output) {
            Err(e) => Err(e),
            Ok(()) => Ok(InitialPass { succeeded: 0, failures: Vec::new() }),
        }
    }

    /// Whether one more outcome can be counted.
    pub fn has_room(&self) -> (r: bool)
        ensures
            r == (self.spec_total() < usize::MAX),
    {
        self.failures.len() < usize::MAX - self.succeeded
    }

    /// Records the outcome of one transfer. A failure is kept with the text
    /// of its error.
    pub fn record(&mut self, url: String, output_path: String, outcome: Result<(), RuGetError>)
        requires
            old(self).spec_total() < usize::MAX,
        ensures
            final(self).spec_total() == old(self).spec_total() + 1,
            outcome is Ok ==> final(self).succeeded == old(self).succeeded + 1,
            outcome is Ok ==> final(self).failures@ == old(self).failures@,
            outcome matches Err(e) ==> {
                &&& final(self).succeeded == old(self).succeeded
                &&& final(self).failures@.len() == old(self).failures@.len() + 1
                &&& final(self).failures@.drop_last() == old(self).failures@
                &&& final(self).failures@.last().url == url
                &&& final(self).failures@.last().output_path == output_path
                &&& final(self).failures@.last().error@ == e.spec_text()
            },
    {
        match outcome {
            Ok(()) => {
                self.succeeded = self.succeeded + 1;
            },
            Err(e) => {
                let error = e.to_string();
                self.failures.push(FailureRecord { url, output_path, error });
                assert(self.failures@.drop_last() =~= old(self).failures@);
            },
        }
    }

    /// How many transfers went through, and out of how many.
    pub fn summary(&self) -> (r: (usize, usize))
        requires
            self.spec_total() <= usize::MAX,
        ensures
            r.0 == self.succeeded,
            r.1 == self.spec_total(),
    {
        (self.succeeded, self.succeeded + self.failures.len())
    }

    /// Ends the initial pass. The second pass is owed exactly the transfers
    /// that failed, in the order in which they failed.
    pub fn into_retry(self) -> (r: RetryPass)
        requires
            self.spec_total() <= usize::MAX,
        ensures
            r.wf(),
            r.total == self.spec_total(),
            r.pending == self.failures,
            r.retried == 0,
            r.final_failures@.len() == 0,
    {
        let total = self.succeeded + self.failures.len();
        RetryPass { total, pending: self.failures, retried: 0, final_failures: Vec::new() }
    }
}

impl RetryPass {
    /// The counts fit each other: no more failures than URLs, no more
    /// retries than failures, no more second failures than retries.
    pub open spec fn wf(self) -> bool {
        &&& self.pending@.len() <= self.total
        &&& self.retried <= self.pending@.len()
        &&& self.final_failures@.len() <= self.retried
    }

    /// Whether the counts fit each other.
    pub fn is_wf(&self) -> (r: bool)
        ensures
            r == self.wf(),
    {
        self.pending.len() <= self.total && self.retried <= self.pending.len()
            && self.final_failures.len() <= self.retried
    }

    /// Every failure of the initial pass has been tried again.
    pub open spec fn is_complete(self) -> bool {
        self.retried == self.pending@.len()
    }

    /// Transfers that have failed for good so far: those that failed
    /// again, then those not yet tried again.
    pub open spec fn spec_permanent(self) -> Seq<FailureRecord> {
        self.final_failures@ + self.pending@.skip(self.retried as int)
    }

    /// Number of transfers that have failed for good so far.
    pub open spec fn spec_failed(self) -> int {
        self.spec_permanent().len() as int
    }

    /// The transfer to try next, if any is left.
    pub fn current(&self) -> (r: Option<&FailureRecord>)
        requires
            self.wf(),
        ensures
            r is None <==> self.is_complete(),
            r matches Some(rec) ==> *rec == self.pending@[self.retried as int],
    {
        if self.retried < self.pending.len() {
            Some(&self.pending[self.retried])
        } else {
            None
        }
    }

    /// Records the outcome of the retry of the current transfer. One that
    /// failed again is kept with the error of this failure. Nothing changes
    /// where no transfer is left to retry.
    pub fn record(&mut self, outcome: Result<(), RuGetError>)
        requires
            old(self).wf(),
        ensures
            final(self).wf(),
            final(self).total == old(self).total,
            final(self).pending == old(self).pending,
            old(self).is_complete() ==> *final(self) == *old(self),
            !old(self).is_complete() ==> final(self).retried == old(self).retried + 1,
            !old(self).is_complete() && outcome is Ok ==> final(self).final_failures@
                == old(self).final_failures@,
            !old(self).is_complete() && outcome is Err ==> {
                let rec = old(self).pending@[old(self).retried as int];
                &&& final(self).final_failures@.len() == old(self).final_failures@.len() + 1
                &&& final(self).final_failures@.drop_last() == old(self).final_failures@
                &&& final(self).final_failures@.last().url == rec.url
                &&& final(self).final_failures@.last().output_path == rec.output_path
                &&& final(self).final_failures@.last().error@ == outcome->Err_0.spec_text()
            },
    {
        if self.retried >= self.pending.len() {
            return ;
        }
        match outcome {
            Ok(()) => {},
            Err(e) => {
                let rec = &self.pending[self.retried];
                let failed = FailureRecord {
                    url: rec.url.clone(),
                    output_path: rec.output_path.clone(),
                    error: e.to_string(),
                };
                self.final_failures.push(failed);
                assert(self.final_failures@.drop_last() =~= old(self).final_failures@);
            },
        }
        self.retried = self.retried + 1;
    }

    /// Ends the batch.
    ///
    /// A transfer has failed for good if it failed in both passes; one that
    /// the second pass never reached counts as failed too. Each gives one
    /// line of the failure log. The batch as a whole has failed if every one
    /// of its URLs has, and there was at least one.
    pub fn finish(self) -> (r: BatchReport)
        requires
            self.wf(),
        ensures
            r.total == self.total,
            r.succeeded == self.total - self.spec_failed(),
            r.log_lines@.len() == self.spec_failed(),
            forall|i: int|
                0 <= i < self.spec_failed() ==> (#[trigger] r.log_lines@[i])@
                    == self.spec_permanent()[i].spec_log_line(),
            r.result is Err <==> self.spec_failed() > 0 && self.spec_failed() == self.total,
            r.result matches Err(e) ==> e.is_plain(
                ErrorCode::E400,
                ErrorKind::Network,
                "Network error: "@ + "All downloads failed after retries"@,
            ),
    {
        let ghost permanent = self.spec_permanent();
        let mut log_lines: Vec<String> = Vec::new();
        let mut i: usize = 0;
        while i < self.final_failures.len()
            invariant
                self.wf(),
                permanent == self.spec_permanent(),
                i <= self.final_failures.len(),
                log_lines.len() == i,
                forall|j: int|
                    0 <= j < i ==> (#[trigger] log_lines@[j])@ == permanent[j].spec_log_line(),
            decreases self.final_failures.len() - i,
        {
            assert(permanent[i as int] == self.final_failures@[i as int]);
            log_lines.push(self.final_failures[i].log_line());
            i += 1;
        }
        let mut k: usize = self.retried;
        while k < self.pending.len()
            invariant
                self.wf(),
                permanent == self.spec_permanent(),
                self.retried <= k <= self.pending.len(),
                log_lines.len() == self.final_failures.len() + (k - self.retried),
                forall|j: int|
                    0 <= j < log_lines.len() ==> (#[trigger] log_lines@[j])@
                        == permanent[j].spec_log_line(),
            decreases self.pending.len() - k,
        {
            assert(permanent[self.final_failures.len() + (k - self.retried)]
                == self.pending@[k as int]);
            log_lines.push(self.pending[k].log_line());
            k += 1;
        }
        let failed = log_lines.len();
        let result = if failed > 0 && failed == self.total {
            Err(RuGetError::network(String::from_str("All downloads failed after retries")))
        } else {
            Ok(())
        };
        BatchReport { succeeded: self.total - failed, total: self.total, log_lines, result }
    }
}

/// Batch recovery: where every transfer that failed in the initial pass goes
/// through in the second, the failure log gets no line and every URL of the
/// batch counts as transferred.
pub proof fn lemma_recovered_batch_is_clean(pass: RetryPass)
    requires
        pass.wf(),
        pass.is_complete(),
        pass.final_failures@.len() == 0,
    ensures
        pass.spec_failed() == 0,
        pass.total - pass.spec_failed() == pass.total,
{
}

/// Calls `std::path::Path::join`: the path of `name` inside `dir`, as
/// the platform writes it.
#[verifier::external_body]
fn join_path(dir: &str, name: &str) -> (r: String) {
    std::path::Path::new(dir).join(name).to_string_lossy().into_owned()
}

/// Where a download is written: the named output path if there is one;
/// else the file name inside the output directory, given as `in_dir`, if
/// there is one; else the file name alone.
pub fn select_output_path(output: Option<&str>, in_dir: Option<String>, final_name: &str) -> (r:
    String)
    ensures
        r@ == (match (output, in_dir) {
            (Some(path), _) => path@,
            (None, Some(joined)) => joined@,
            (None, None) => final_name@,
        }),
{
    match output {
        Some(path) => String::from_str(path),
        None => match in_dir {
            Some(joined) => joined,
            None => String::from_str(final_name),
        },
    }
}

/// Where a download is written: the named output path if there is one;
/// else the file name inside the output directory if there is one; else the
/// file name alone.
pub fn resolve_output_path(output: Option<&str>, output_dir: Option<&str>, final_name: &str)
    -> (r: String)
    ensures
        output matches Some(path) ==> r@ == path@,
        output is None && output_dir is None ==> r@ == final_name@,
{
    let in_dir = match (output, output_dir) {
        (None, Some(dir)) => Some(join_path(dir, final_name)),
        _ => None,
    };
    select_output_path(output, in_dir, final_name)
}

/// A run needs at least one URL.
pub fn require_urls(url_count: usize) -> (r: Result<(), RuGetError>)
    ensures
        r is Err <==> url_count == 0,
        r matches Err(e) ==> e.is_plain(
            ErrorCode::E501,
            ErrorKind::Parse,
            "Parse error: "@ + "No URLs provided"@,
        ),
{
    if url_count == 0 {
        Err(RuGetError::parse(String::from_str("No URLs provided")))
    } else {
        Ok(())
    }
}

} // verus!
