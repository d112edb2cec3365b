//! The range fetcher: one logical request for a byte range, or for a whole
//! resource, with its retry loop.
//!
//! The fetcher is a state machine. The caller sends the request, streams the
//! body and sleeps; it reports what happened as a [`FetchEvent`] and is told
//! what to do next as a [`FetchAction`].

use crate::cli::Args;
use crate::error::{ErrorCode, ErrorKind, RuGetError};
use crate::retry::BackoffPolicy;
use crate::text::{decimal, decimal_string, push_decimal};
use vstd::prelude::*;

verus! {

/// Size of the blocks in which a response body is streamed.
pub const BLOCK_SIZE: usize = 65536;

/// A response with this status carries the requested bytes: any 2xx status,
/// among them 200 and 206.
pub open spec fn status_accepted(status: u16) -> bool {
    200 <= status < 300
}

pub fn is_accepted_status(status: u16) -> (r: bool)
    ensures
        r == status_accepted(status),
{
    200 <= status && status < 300
}

/// The bytes that a request asks for.
#[derive(Debug, Clone, Copy, PartialEq, Eq, Structural)]
pub enum ByteRange {
    /// The whole resource: no `Range` header.
    Whole,
    /// From an offset to the end of the resource.
    From(u64),
    /// From an offset to another, both inclusive.
    Between(u64, u64),
}

impl ByteRange {
    /// The value of the `Range` header, where one is sent.
    pub open spec fn spec_header_value(self) -> Option<Seq<char>> {
        match self {
            ByteRange::Whole => None,
            ByteRange::From(start) => Some("bytes="@ + decimal(start as nat) + "-"@),
            ByteRange::Between(start, end) => Some(
                "bytes="@ + decimal(start as nat) + "-"@ + decimal(end as nat),
            ),
        }
    }

    /// The value of the `Range` header: `bytes=<start>-` or
    /// `bytes=<start>-<end>`; none for the whole resource.
    pub fn header_value(&self) -> (r: Option<String>)
        ensures
            r is Some <==> self.spec_header_value() is Some,
            r matches Some(s) ==> Some(s@) == self.spec_header_value(),
    {
        match self {
            ByteRange::Whole => None,
            ByteRange::From(start) => {
                let mut s = String::from_str("bytes=");
                push_decimal(&mut s, *start);
                s.append("-");
                Some(s)
            },
            ByteRange::Between(start, end) => {
                let mut s = String::from_str("bytes=");
                push_decimal(&mut s, *start);
                s.append("-");
                push_decimal(&mut s, *end);
                Some(s)
            },
        }
    }
}

/// Where a fetch stands.
#[derive(Debug, Clone, Copy, PartialEq, Eq, Structural)]
pub enum FetchPhase {
    Idle,
    RequestSent,
    StreamingBody,
    Retrying,
    Success,
    PermanentFailure,
}

/// What the caller observed.
#[derive(Debug, Clone, Copy, PartialEq, Eq, Structural)]
pub enum FetchEvent {
    /// The fetch is to begin.
    Start,
    /// The request failed below HTTP: refused, timed out, reset.
    TransportError,
    /// A response arrived with this status.
    Response(u16),
    /// The body reached its end without a read or write error.
    BodyEnd,
    /// Reading the body or writing it to the destination failed.
    BodyError,
    /// The backoff delay has passed.
    DelayElapsed,
}

/// Why a fetch failed for good.
#[derive(Debug, Clone, Copy, PartialEq, Eq, Structural)]
pub enum FailureCause {
    /// The last attempt failed below HTTP and no retry is left.
    TransportExhausted,
    /// The last attempt was answered with this status and no retry is left.
    StatusExhausted(u16),
    /// The body could not be read or written. This is not retried.
    Stream,
}

/// What the caller does next.
#[derive(Debug, Clone, Copy, PartialEq, Eq, Structural)]
pub enum FetchAction {
    /// Send the request.
    SendRequest,
    /// Stream the body to the destination in blocks of [`BLOCK_SIZE`] bytes.
    StreamBody,
    /// Sleep for this many milliseconds, then report `DelayElapsed`.
    Sleep(u64),
    /// The fetch is done.
    Succeed,
    /// The fetch has failed for good.
    Fail(FailureCause),
    /// The event does not belong to the phase. Nothing has changed.
    Ignore,
}

/// The state of one fetch.
#[derive(Debug, Clone, Copy)]
pub struct RangeFetcher {
    pub phase: FetchPhase,
    /// Retries granted so far.
    pub retries: u32,
    /// Retries that may be granted at most.
    pub max_retries: u32,
    /// Requests that the caller was told to send so far.
    pub requests_sent: u64,
    pub policy: BackoffPolicy,
}

/// The cause recorded when a failed attempt ends the fetch.
pub open spec fn exhaustion_cause(event: FetchEvent) -> FailureCause {
    match event {
        FetchEvent::Response(status) => FailureCause::StatusExhausted(status),
        _ => FailureCause::TransportExhausted,
    }
}

impl RangeFetcher {
    /// The counters fit the phase: a request is under way or done for each
    /// retry granted, plus the first one.
    pub open spec fn wf(self) -> bool {
        &&& self.retries <= self.max_retries
        &&& match self.phase {
            FetchPhase::Idle => self.retries == 0 && self.requests_sent == 0,
            FetchPhase::Retrying => self.retries >= 1 && self.requests_sent == self.retries,
            _ => self.requests_sent == self.retries + 1,
        }
    }

    /// Whether the counters fit the phase.
    pub fn is_wf(&self) -> (r: bool)
        ensures
            r == self.wf(),
    {
        self.retries <= self.max_retries && match self.phase {
            FetchPhase::Idle => self.retries == 0 && self.requests_sent == 0,
            FetchPhase::Retrying => self.retries >= 1 && self.requests_sent == self.retries as u64,
            _ => self.requests_sent == self.retries as u64 + 1,
        }
    }

    /// The fetch has ended.
    pub open spec fn is_terminal(self) -> bool {
        self.phase == FetchPhase::Success || self.phase == FetchPhase::PermanentFailure
    }

    /// The phase after `event`.
    pub open spec fn spec_next_phase(self, event: FetchEvent) -> FetchPhase {
        match (self.phase, event) {
            (FetchPhase::Idle, FetchEvent::Start) => FetchPhase::RequestSent,
            (FetchPhase::RequestSent, FetchEvent::Response(status)) => if status_accepted(status) {
                FetchPhase::StreamingBody
            } else if self.retries < self.max_retries {
                FetchPhase::Retrying
            } else {
                FetchPhase::PermanentFailure
            },
            (FetchPhase::RequestSent, FetchEvent::TransportError) => if self.retries
                < self.max_retries {
                FetchPhase::Retrying
            } else {
                FetchPhase::PermanentFailure
            },
            (FetchPhase::Retrying, FetchEvent::DelayElapsed) => FetchPhase::RequestSent,
            (FetchPhase::StreamingBody, FetchEvent::BodyEnd) => FetchPhase::Success,
            (FetchPhase::StreamingBody, FetchEvent::BodyError) => FetchPhase::PermanentFailure,
            _ => self.phase,
        }
    }

    /// The state after `event`.
    pub open spec fn spec_next(self, event: FetchEvent) -> RangeFetcher {
        let phase = self.spec_next_phase(event);
        RangeFetcher {
            phase,
            retries: if self.phase == FetchPhase::RequestSent && phase == FetchPhase::Retrying {
                (self.retries + 1) as u32
            } else {
                self.retries
            },
            requests_sent: if phase == FetchPhase::RequestSent && self.phase != phase {
                (self.requests_sent + 1) as u64
            } else {
                self.requests_sent
            },
            max_retries: self.max_retries,
            policy: self.policy,
        }
    }

    /// `action` is what the caller is told after `event`. Of a delay only
    /// that the policy admits it for the attempt that failed.
    pub open spec fn spec_action_ok(self, event: FetchEvent, action: FetchAction) -> bool {
        match (self.phase, self.spec_next_phase(event)) {
            (FetchPhase::Idle, FetchPhase::RequestSent) => action == FetchAction::SendRequest,
            (FetchPhase::Retrying, FetchPhase::RequestSent) => action == FetchAction::SendRequest,
            (FetchPhase::RequestSent, FetchPhase::StreamingBody) => action
                == FetchAction::StreamBody,
            (FetchPhase::RequestSent, FetchPhase::Retrying) => action matches FetchAction::Sleep(
                delay,
            ) && self.policy.admits(self.retries as nat, delay as nat),
            (FetchPhase::RequestSent, FetchPhase::PermanentFailure) => action == FetchAction::Fail(
                exhaustion_cause(event),
            ),
            (FetchPhase::StreamingBody, FetchPhase::Success) => action == FetchAction::Succeed,
            (FetchPhase::StreamingBody, FetchPhase::PermanentFailure) => action
                == FetchAction::Fail(FailureCause::Stream),
            _ => action == FetchAction::Ignore,
        }
    }

    /// A fetch that has not begun.
    pub fn new(max_retries: u32, policy: BackoffPolicy) -> (r: Self)
        ensures
            r.wf(),
            r.phase == FetchPhase::Idle,
            r.retries == 0,
            r.requests_sent == 0,
            r.max_retries == max_retries,
            r.policy == policy,
    {
        RangeFetcher { phase: FetchPhase::Idle, retries: 0, max_retries, requests_sent: 0, policy }
    }

    /// A fetch under the settings of a run: as many retries as the
    /// settings allow, and delays that start at the base delay of the
    /// settings, double with each attempt up to their largest delay, and
    /// carry jitter.
    pub fn from_args(args: &Args) -> (r: Self)
        ensures
            r.wf(),
            r.phase == FetchPhase::Idle,
            r.retries == 0,
            r.requests_sent == 0,
            r.max_retries == args.max_retries,
            r.policy == (BackoffPolicy {
                base_delay_ms: args.backoff_base_ms,
                factor: 2000,
                max_delay_ms: args.backoff_max_ms,
                jitter: true,
            }),
    {
        let policy = BackoffPolicy::with_params(
            args.backoff_base_ms,
            2000,
            args.backoff_max_ms,
            true,
        );
        RangeFetcher::new(args.max_retries, policy)
    }

    /// Takes one event and says what to do next.
    ///
    /// A failed attempt, be it a transport failure or a status that is not
    /// accepted, is answered with a delay as long as a retry is left, and
    /// ends the fetch otherwise. Never more than `max_retries + 1` requests
    /// are asked for, and a fetch that fails for want of retries has asked
    /// for exactly that many.
    pub fn step(&mut self, event: FetchEvent) -> (action: FetchAction)
        requires
            old(self).wf(),
        ensures
            final(self).wf(),
            *final(self) == old(self).spec_next(event),
            old(self).spec_action_ok(event, action),
            final(self).requests_sent <= old(self).max_retries + 1,
            old(self).is_terminal() ==> action == FetchAction::Ignore && *final(self) == *old(self),
            action matches FetchAction::Fail(cause) && cause != FailureCause::Stream
                ==> final(self).requests_sent == old(self).max_retries + 1,
    {
        match self.phase {
            FetchPhase::Idle => match event {
                FetchEvent::Start => {
                    self.phase = FetchPhase::RequestSent;
                    self.requests_sent = 1;
                    FetchAction::SendRequest
                },
                _ => FetchAction::Ignore,
            },
            FetchPhase::RequestSent => match event {
                FetchEvent::Response(status) => {
                    if is_accepted_status(status) {
                        self.phase = FetchPhase::StreamingBody;
                        FetchAction::StreamBody
                    } else {
                        self.attempt_failed(FailureCause::StatusExhausted(status))
                    }
                },
                FetchEvent::TransportError => self.attempt_failed(
                    FailureCause::TransportExhausted,
                ),
                _ => FetchAction::Ignore,
            },
            FetchPhase::Retrying => match event {
                FetchEvent::DelayElapsed => {
                    self.phase = FetchPhase::RequestSent;
                    self.requests_sent = self.requests_sent + 1;
                    FetchAction::SendRequest
                },
                _ => FetchAction::Ignore,
            },
            FetchPhase::StreamingBody => match event {
                FetchEvent::BodyEnd => {
                    self.phase = FetchPhase::Success;
                    FetchAction::Succeed
                },
                FetchEvent::BodyError => {
                    self.phase = FetchPhase::PermanentFailure;
                    FetchAction::Fail(FailureCause::Stream)
                },
                _ => FetchAction::Ignore,
            },
            FetchPhase::Success => FetchAction::Ignore,
            FetchPhase::PermanentFailure => FetchAction::Ignore,
        }
    }

    fn attempt_failed(&mut self, cause: FailureCause) -> (action: FetchAction)
        requires
            old(self).wf(),
            old(self).phase == FetchPhase::RequestSent,
        ensures
            final(self).wf(),
            final(self).max_retries == old(self).max_retries,
            final(self).policy == old(self).policy,
            final(self).requests_sent == old(self).requests_sent,
            old(self).retries < old(self).max_retries ==> {
                &&& final(self).phase == FetchPhase::Retrying
                &&& final(self).retries == old(self).retries + 1
                &&& action matches FetchAction::Sleep(delay) && old(self).policy.admits(
                    old(self).retries as nat,
                    delay as nat,
                )
            },
            old(self).retries >= old(self).max_retries ==> {
                &&& final(self).phase == FetchPhase::PermanentFailure
                &&& final(self).retries == old(self).retries
                &&& action == FetchAction::Fail(cause)
            },
    {
        if self.retries < self.max_retries {
            let delay = self.policy.next_delay(self.retries);
            self.retries = self.retries + 1;
            self.phase = FetchPhase::Retrying;
            FetchAction::Sleep(delay)
        } else {
            self.phase = FetchPhase::PermanentFailure;
            FetchAction::Fail(cause)
        }
    }
}

/// What `http::StatusCode` writes for a status between 100 and 999: the
/// number, a space and the reason phrase of the status.
pub uninterp spec fn status_text(code: u16) -> Seq<char>;

/// Calls `reqwest::StatusCode::from_u16`, which takes the numbers from 100 to
/// 999 and no others, and `to_string` on the status.
#[verifier::external_body]
fn status_to_string(code: u16) -> (r: Option<String>)
    ensures
        r is Some <==> 100 <= code <= 999,
        r matches Some(s) ==> s@ == status_text(code),
{
    match reqwest::StatusCode::from_u16(code) {
        Ok(status) => Some(status.to_string()),
        Err(_) => None,
    }
}

/// How a status is written in messages: as `http::StatusCode` writes it, or
/// the bare number where it is no status at all.
pub open spec fn spec_status_label(code: u16) -> Seq<char> {
    if 100 <= code <= 999 {
        status_text(code)
    } else {
        decimal(code as nat)
    }
}

pub fn status_label(code: u16) -> (r: String)
    ensures
        r@ == spec_status_label(code),
{
    match status_to_string(code) {
        Some(s) => s,
        None => decimal_string(code as u64),
    }
}

/// What a fetch is after, as messages name it: the URL, or a chunk of it.
pub open spec fn spec_target(url: Seq<char>, chunk: Option<usize>) -> Seq<char> {
    match chunk {
        Some(id) => "chunk "@ + decimal(id as nat) + " of "@ + url,
        None => url,
    }
}

fn push_target(out: &mut String, url: &str, chunk: Option<usize>)
    ensures
        final(out)@ == old(out)@ + spec_target(url@, chunk),
{
    match chunk {
        Some(id) => {
            out.append("chunk ");
            push_decimal(out, id as u64);
            out.append(" of ");
            out.append(url);
            assert(out@ =~= old(out)@ + spec_target(url@, chunk));
        },
        None => {
            out.append(url);
        },
    }
}

/// The message of a fetch that was answered with a status that is not
/// accepted until no retry was left.
pub open spec fn spec_status_failure_message(
    url: Seq<char>,
    chunk: Option<usize>,
    status: u16,
    max_retries: u32,
) -> Seq<char> {
    url + ": "@ + (match chunk {
        Some(id) => "chunk "@ + decimal(id as nat) + " "@,
        None => Seq::<char>::empty(),
    }) + "failed with HTTP "@ + spec_status_label(status) + " after "@ + decimal(
        max_retries as nat,
    ) + " retries"@
}

/// The error of a fetch that was answered with a status that is not accepted
/// until no retry was left: a network error that names the URL, the chunk if
/// any, the last status and the number of retries.
pub fn status_failure(url: &str, chunk: Option<usize>, status: u16, max_retries: u32) -> (r:
    RuGetError)
    ensures
        r.is_plain(
            ErrorCode::E400,
            ErrorKind::Network,
            "Network error: "@ + spec_status_failure_message(url@, chunk, status, max_retries),
        ),
{
    let mut s = String::from_str(url);
    s.append(": ");
    match chunk {
        Some(id) => {
            s.append("chunk ");
            push_decimal(&mut s, id as u64);
            s.append(" ");
            assert(s@ =~= url@ + ": "@ + ("chunk "@ + decimal(id as nat) + " "@));
        },
        None => {
            assert(s@ =~= url@ + ": "@ + Seq::<char>::empty());
        },
    }
    s.append("failed with HTTP ");
    let label = status_label(status);
    s.append(label.as_str());
    s.append(" after ");
    push_decimal(&mut s, max_retries as u64);
    s.append(" retries");
    assert(s@ =~= spec_status_failure_message(url@, chunk, status, max_retries));
    RuGetError::network(s)
}

/// The context under which a request is sent.
pub open spec fn spec_send_context(url: Seq<char>, chunk: Option<usize>) -> Seq<char> {
    match chunk {
        Some(id) => "sending GET request for chunk "@ + decimal(id as nat) + " of "@ + url,
        None => "sending GET request to "@ + url,
    }
}

/// The context of a fetch that gave up.
pub open spec fn spec_exhausted_context(url: Seq<char>, chunk: Option<usize>, max_retries: u32)
    -> Seq<char> {
    "downloading "@ + spec_target(url, chunk) + " after "@ + decimal(max_retries as nat)
        + " retries"@
}

/// The error of a fetch whose requests failed below HTTP until no retry was
/// left: the HTTP error of the last failure, under the context of the send
/// and, before it, that of the fetch that gave up.
pub fn transport_failure(url: &str, chunk: Option<usize>, max_retries: u32, err: reqwest::Error)
    -> (r: RuGetError)
    ensures
        r.code == ErrorCode::E200,
        r.kind == ErrorKind::Http,
        r.source is Some,
        r.message@ == spec_exhausted_context(url@, chunk, max_retries) + ": "@
            + spec_send_context(url@, chunk) + ": "@ + "HTTP error: "@ + r.source->0@,
{
    let base = RuGetError::http(err);
    let mut send = String::new();
    match chunk {
        Some(id) => {
            send.append("sending GET request for chunk ");
            push_decimal(&mut send, id as u64);
            send.append(" of ");
            send.append(url);
        },
        None => {
            send.append("sending GET request to ");
            send.append(url);
        },
    }
    assert(send@ =~= spec_send_context(url@, chunk));
    let sent = base.with_context(send.as_str());
    let mut gave_up = String::from_str("downloading ");
    push_target(&mut gave_up, url, chunk);
    gave_up.append(" after ");
    push_decimal(&mut gave_up, max_retries as u64);
    gave_up.append(" retries");
    assert(gave_up@ =~= spec_exhausted_context(url@, chunk, max_retries));
    let r = sent.with_context(gave_up.as_str());
    assert(r.message@ =~= spec_exhausted_context(url@, chunk, max_retries) + ": "@
        + spec_send_context(url@, chunk) + ": "@ + "HTTP error: "@ + r.source->0@);
    r
}

/// The state of a fetch that has begun and whose first `failures` attempts
/// have failed, each delay waited out.
pub open spec fn after_failures(start: RangeFetcher, failures: nat) -> RangeFetcher
    decreases failures,
{
    if failures == 0 {
        start.spec_next(FetchEvent::Start)
    } else {
        let before = after_failures(start, (failures - 1) as nat);
        let failed = before.spec_next(FetchEvent::TransportError);
        if failed.phase == FetchPhase::Retrying {
            failed.spec_next(FetchEvent::DelayElapsed)
        } else {
            failed
        }
    }
}

/// Retry exhaustion: where every attempt fails, the fetch is still under way
/// after `max_retries` failures and has then sent `max_retries + 1` requests;
/// the next failure ends it, with no further request. A status that is not
/// accepted moves the fetch exactly as a transport failure does.
pub proof fn lemma_retry_exhaustion(start: RangeFetcher, failures: nat)
    requires
        start.wf(),
        start.phase == FetchPhase::Idle,
    ensures
        after_failures(start, failures).max_retries == start.max_retries,
        after_failures(start, failures).policy == start.policy,
        failures <= start.max_retries ==> {
            &&& after_failures(start, failures).phase == FetchPhase::RequestSent
            &&& after_failures(start, failures).retries == failures
            &&& after_failures(start, failures).requests_sent == failures + 1
        },
        failures > start.max_retries ==> {
            &&& after_failures(start, failures).phase == FetchPhase::PermanentFailure
            &&& after_failures(start, failures).requests_sent == start.max_retries + 1
        },
        forall|state: RangeFetcher, status: u16|
            !status_accepted(status) ==> #[trigger] state.spec_next(FetchEvent::Response(status))
                == state.spec_next(FetchEvent::TransportError),
    decreases failures,
{
    if failures > 0 {
        lemma_retry_exhaustion(start, (failures - 1) as nat);
        let before = after_failures(start, (failures - 1) as nat);
        let failed = before.spec_next(FetchEvent::TransportError);
        if failures <= start.max_retries {
            assert(before.retries == failures - 1);
            assert(failed.phase == FetchPhase::Retrying);
            assert(failed.retries == failures);
            assert(failed.spec_next(FetchEvent::DelayElapsed).requests_sent == failures + 1);
        } else if failures == start.max_retries + 1 {
            assert(failed.phase == FetchPhase::PermanentFailure);
        } else {
            assert(before.phase == FetchPhase::PermanentFailure);
            assert(failed == before);
        }
    }
}

/// A fetch whose first attempt is answered with an accepted status and
/// whose body arrives whole succeeds with exactly one request.
pub proof fn lemma_clean_fetch_sends_once(start: RangeFetcher, status: u16)
    requires
        start.wf(),
        start.phase == FetchPhase::Idle,
        status_accepted(status),
    ensures
        ({
            let done = start.spec_next(FetchEvent::Start).spec_next(
                FetchEvent::Response(status),
            ).spec_next(FetchEvent::BodyEnd);
            done.phase == FetchPhase::Success && done.requests_sent == 1 && done.retries == 0
        }),
{
}

} // verus!
