use ruget::chunk::{plan_chunks, try_plan_chunks, DownloadChunk};
use ruget::combine::{
    chunk_paths, chunk_temp_path, combine_chunks, missing_chunk_error, plan_combine,
    temp_file_path,
};
use ruget::download::{
    check_output_conflict, require_urls, resolve_output_path, select_output_path, FailureRecord,
    InitialPass,
};
use ruget::error::{ErrorCode, ErrorKind, RuGetError};
use ruget::fetch::{
    is_accepted_status, status_failure, status_label, ByteRange, FailureCause, FetchAction,
    FetchEvent, FetchPhase, RangeFetcher, BLOCK_SIZE,
};
use ruget::retry::BackoffPolicy;
use ruget::strategy::{
    accepts_byte_ranges, choose_strategy, plan_multi_stream, plan_resume, plan_transfer,
    remote_length, ProbeResult, ResumePlan, Strategy, TransferPlan, MULTI_STREAM_THRESHOLD,
};

#[test]
fn plan_splits_1003_bytes_among_four_workers() {
    let chunks = plan_chunks(1003, 4);
    assert_eq!(chunks.len(), 4);
    assert_eq!(chunks[0], DownloadChunk { start_byte: 0, end_byte: 249, chunk_id: 0 });
    assert_eq!(chunks[1], DownloadChunk { start_byte: 250, end_byte: 499, chunk_id: 1 });
    assert_eq!(chunks[2], DownloadChunk { start_byte: 500, end_byte: 749, chunk_id: 2 });
    assert_eq!(chunks[3], DownloadChunk { start_byte: 750, end_byte: 1002, chunk_id: 3 });
}

#[test]
fn plans_tile_the_resource() {
    for content_length in 1u64..60 {
        for workers in 1..=(content_length as usize) {
            let chunks = plan_chunks(content_length, workers);
            assert_eq!(chunks.len(), workers);
            let mut next = 0u64;
            for (i, c) in chunks.iter().enumerate() {
                assert_eq!(c.chunk_id, i);
                assert_eq!(c.start_byte, next);
                assert!(c.start_byte <= c.end_byte);
                next = c.end_byte + 1;
            }
            assert_eq!(next, content_length);
        }
    }
}

#[test]
fn plan_edges() {
    assert_eq!(plan_chunks(1, 1), vec![DownloadChunk { start_byte: 0, end_byte: 0, chunk_id: 0 }]);
    let chunks = plan_chunks(u64::MAX, 2);
    assert_eq!(chunks[0].end_byte, u64::MAX / 2 - 1);
    assert_eq!(chunks[1].start_byte, u64::MAX / 2);
    assert_eq!(chunks[1].end_byte, u64::MAX - 1);
    assert!(try_plan_chunks(10, 0).is_none());
    assert!(try_plan_chunks(0, 1).is_none());
    assert!(try_plan_chunks(3, 4).is_none());
    assert_eq!(try_plan_chunks(4, 4).unwrap().len(), 4);
}

#[test]
fn strategy_is_multi_stream_only_when_everything_allows_it() {
    let big = ProbeResult { content_length: Some(MULTI_STREAM_THRESHOLD), accepts_ranges: true };
    assert_eq!(choose_strategy(Some(big), 2), Strategy::MultiStream);
    assert_eq!(choose_strategy(Some(big), 1), Strategy::SingleStream);
    assert_eq!(choose_strategy(Some(big), 0), Strategy::SingleStream);
    assert_eq!(choose_strategy(None, 8), Strategy::SingleStream);
    let small =
        ProbeResult { content_length: Some(MULTI_STREAM_THRESHOLD - 1), accepts_ranges: true };
    assert_eq!(choose_strategy(Some(small), 8), Strategy::SingleStream);
    let no_ranges = ProbeResult { content_length: Some(1 << 30), accepts_ranges: false };
    assert_eq!(choose_strategy(Some(no_ranges), 8), Strategy::SingleStream);
    let unknown = ProbeResult { content_length: None, accepts_ranges: true };
    assert_eq!(choose_strategy(Some(unknown), 8), Strategy::SingleStream);
    assert_eq!(MULTI_STREAM_THRESHOLD, 1024 * 1024);
}

#[test]
fn multi_stream_plan_follows_the_strategy() {
    let big = ProbeResult { content_length: Some(4 << 20), accepts_ranges: true };
    let chunks = plan_multi_stream(Some(big), 4).unwrap();
    assert_eq!(chunks.len(), 4);
    assert_eq!(chunks[3].end_byte, (4 << 20) - 1);
    assert_eq!(chunks[1].start_byte, 1 << 20);
    assert!(plan_multi_stream(Some(big), 1).is_none());
    assert!(plan_multi_stream(None, 4).is_none());
    assert!(plan_multi_stream(Some(big), (4 << 20) + 1).is_none());
}

#[test]
fn transfer_plan_follows_the_decision_procedure() {
    let big = ProbeResult { content_length: Some(4 << 20), accepts_ranges: true };
    match plan_transfer(Some(big), 4, true, Some(100)) {
        TransferPlan::MultiStream { chunks } => {
            assert_eq!(chunks.len(), 4);
            assert_eq!(chunks[0].start_byte, 0);
            assert_eq!(chunks[3].end_byte, (4 << 20) - 1);
        }
        other => panic!("unexpected plan {:?}", other),
    }
    match plan_transfer(Some(big), 1, true, Some(100)) {
        TransferPlan::SingleStream { resume } => {
            assert_eq!(resume, ResumePlan::Resume { offset: 100 })
        }
        other => panic!("unexpected plan {:?}", other),
    }
    match plan_transfer(Some(big), 1, true, Some(4 << 20)) {
        TransferPlan::SingleStream { resume } => assert_eq!(resume, ResumePlan::AlreadyComplete),
        other => panic!("unexpected plan {:?}", other),
    }
    match plan_transfer(None, 4, true, Some(100)) {
        TransferPlan::SingleStream { resume } => assert_eq!(resume, ResumePlan::Fresh),
        other => panic!("unexpected plan {:?}", other),
    }
    match plan_transfer(Some(big), 4, false, None) {
        TransferPlan::MultiStream { .. } => {}
        other => panic!("unexpected plan {:?}", other),
    }
    assert!(matches!(plan_transfer(Some(big), (4 << 20) + 1, false, None), TransferPlan::Unplannable));
}

#[test]
fn accept_ranges_must_be_bytes() {
    assert!(accepts_byte_ranges(Some("bytes")));
    assert!(!accepts_byte_ranges(Some("none")));
    assert!(!accepts_byte_ranges(Some("Bytes")));
    assert!(!accepts_byte_ranges(Some("")));
    assert!(!accepts_byte_ranges(None));
}

#[test]
fn remote_length_prefers_the_header_over_a_reported_zero() {
    assert_eq!(remote_length(Some(0), Some(12)), Some(12));
    assert_eq!(remote_length(Some(0), None), Some(0));
    assert_eq!(remote_length(Some(5), Some(12)), Some(5));
    assert_eq!(remote_length(None, Some(12)), Some(12));
    assert_eq!(remote_length(None, None), None);
}

#[test]
fn completed_download_is_left_alone_on_resume() {
    let plan = plan_resume(true, Some(1003), Some(1003));
    assert_eq!(plan, ResumePlan::AlreadyComplete);
    assert_eq!(plan.byte_range(), None);
    assert_eq!(plan_resume(true, Some(2000), Some(1003)), ResumePlan::AlreadyComplete);
    assert_eq!(plan_resume(true, Some(0), Some(0)), ResumePlan::AlreadyComplete);
}

#[test]
fn partial_file_is_resumed_from_its_length() {
    let plan = plan_resume(true, Some(400), Some(1003));
    assert_eq!(plan, ResumePlan::Resume { offset: 400 });
    assert!(plan.append_mode());
    let range = plan.byte_range().unwrap();
    assert_eq!(range, ByteRange::From(400));
    assert_eq!(range.header_value(), Some("bytes=400-".to_string()));
    // the local part and the rest make up the resource
    let resource: Vec<u8> = (0..1003u32).map(|i| (i % 251) as u8).collect();
    let mut file = resource[..400].to_vec();
    file.extend_from_slice(&resource[400..]);
    assert_eq!(file, resource);
}

#[test]
fn resume_is_skipped_when_it_cannot_be_decided() {
    assert_eq!(plan_resume(false, Some(400), Some(1003)), ResumePlan::Fresh);
    assert_eq!(plan_resume(true, None, Some(1003)), ResumePlan::Fresh);
    assert_eq!(plan_resume(true, Some(400), None), ResumePlan::Fresh);
    let plan = ResumePlan::Fresh;
    assert!(!plan.append_mode());
    assert_eq!(plan.byte_range(), Some(ByteRange::Whole));
    assert_eq!(ByteRange::Whole.header_value(), None);
    assert_eq!(ByteRange::Between(0, 249).header_value(), Some("bytes=0-249".to_string()));
    assert_eq!(
        ByteRange::Between(u64::MAX - 1, u64::MAX).header_value(),
        Some("bytes=18446744073709551614-18446744073709551615".to_string())
    );
    assert_eq!(ByteRange::From(0).header_value(), Some("bytes=0-".to_string()));
}

#[test]
fn four_chunks_combine_to_the_resource() {
    let resource: Vec<u8> = (0..1003u32).map(|i| (i * 7 % 256) as u8).collect();
    let chunks = plan_chunks(1003, 4);
    let sizes: Vec<u64> = chunks.iter().map(|c| c.end_byte - c.start_byte + 1).collect();
    assert_eq!(sizes, vec![250, 250, 250, 253]);
    let parts: Vec<Option<Vec<u8>>> = chunks
        .iter()
        .map(|c| Some(resource[c.start_byte as usize..=c.end_byte as usize].to_vec()))
        .collect();
    let combined = combine_chunks("out.bin.tmp", &parts).unwrap();
    assert_eq!(combined.len(), 1003);
    assert_eq!(combined, resource);
    let mut concatenated = Vec::new();
    for p in &parts {
        concatenated.extend_from_slice(p.as_ref().unwrap());
    }
    assert_eq!(combined, concatenated);
}

#[test]
fn combine_fails_at_the_first_missing_chunk() {
    let parts = vec![Some(vec![1u8, 2]), None, Some(vec![3u8]), None];
    let err = combine_chunks("out.bin.tmp", &parts).unwrap_err();
    assert_eq!(err.code, ErrorCode::E503);
    assert_eq!(err.kind, ErrorKind::FileSystem);
    assert_eq!(err.message, "File system error: Chunk file out.bin.tmp.chunk.1 not found");
    assert_eq!(combine_chunks("t", &vec![]).unwrap(), Vec::<u8>::new());
    assert_eq!(combine_chunks("t", &vec![Some(vec![]), Some(vec![9])]).unwrap(), vec![9u8]);
}

#[test]
fn a_combine_is_planned_before_anything_is_written() {
    let paths = plan_combine("out.bin.tmp", &[true, true, true]).unwrap();
    assert_eq!(paths, chunk_paths("out.bin.tmp", 3));
    let err = plan_combine("out.bin.tmp", &[true, false, true, false]).unwrap_err();
    assert_eq!(err.code, ErrorCode::E503);
    assert_eq!(err.message, "File system error: Chunk file out.bin.tmp.chunk.1 not found");
    let err = plan_combine("out.bin.tmp", &[false]).unwrap_err();
    assert_eq!(err.message, "File system error: Chunk file out.bin.tmp.chunk.0 not found");
    assert!(plan_combine("out.bin.tmp", &[]).unwrap().is_empty());
}

#[test]
fn temporary_files_are_named_after_output_and_chunk() {
    assert_eq!(temp_file_path("dir/out.bin"), "dir/out.bin.tmp");
    assert_eq!(chunk_temp_path("dir/out.bin.tmp", 0), "dir/out.bin.tmp.chunk.0");
    assert_eq!(chunk_temp_path("dir/out.bin.tmp", 12), "dir/out.bin.tmp.chunk.12");
    assert_eq!(
        chunk_paths("o.tmp", 3),
        vec!["o.tmp.chunk.0".to_string(), "o.tmp.chunk.1".to_string(), "o.tmp.chunk.2".to_string()]
    );
    assert!(chunk_paths("o.tmp", 0).is_empty());
    assert_eq!(
        missing_chunk_error("o.tmp.chunk.2").message,
        "File system error: Chunk file o.tmp.chunk.2 not found"
    );
}

fn fixed_policy() -> BackoffPolicy {
    BackoffPolicy::with_params(100, 2000, 60_000, false)
}

#[test]
fn every_attempt_failing_with_500_gives_three_requests_for_two_retries() {
    let mut fetch = RangeFetcher::new(2, fixed_policy());
    let mut requests = 0;
    let mut delays = Vec::new();
    let mut action = fetch.step(FetchEvent::Start);
    let cause = loop {
        match action {
            FetchAction::SendRequest => {
                requests += 1;
                action = fetch.step(FetchEvent::Response(500));
            }
            FetchAction::Sleep(ms) => {
                delays.push(ms);
                action = fetch.step(FetchEvent::DelayElapsed);
            }
            FetchAction::Fail(cause) => break cause,
            other => panic!("unexpected action {:?}", other),
        }
    };
    assert_eq!(requests, 3);
    assert_eq!(fetch.requests_sent, 3);
    assert_eq!(delays, vec![100, 200]);
    assert_eq!(cause, FailureCause::StatusExhausted(500));
    assert_eq!(fetch.phase, FetchPhase::PermanentFailure);
    // nothing moves a fetch that has ended
    assert_eq!(fetch.step(FetchEvent::DelayElapsed), FetchAction::Ignore);
    assert_eq!(fetch.step(FetchEvent::Start), FetchAction::Ignore);
    assert_eq!(fetch.requests_sent, 3);
    let err = status_failure("http://h/f", None, 500, 2);
    assert_eq!(
        err.message,
        "Network error: http://h/f: failed with HTTP 500 Internal Server Error after 2 retries"
    );
    assert_eq!(err.code, ErrorCode::E400);
}

#[test]
fn clean_fetch_sends_one_request() {
    let mut fetch = RangeFetcher::new(3, fixed_policy());
    assert_eq!(fetch.phase, FetchPhase::Idle);
    assert_eq!(fetch.step(FetchEvent::Start), FetchAction::SendRequest);
    assert_eq!(fetch.phase, FetchPhase::RequestSent);
    assert_eq!(fetch.step(FetchEvent::Response(206)), FetchAction::StreamBody);
    assert_eq!(fetch.phase, FetchPhase::StreamingBody);
    assert_eq!(fetch.step(FetchEvent::BodyEnd), FetchAction::Succeed);
    assert_eq!(fetch.phase, FetchPhase::Success);
    assert_eq!(fetch.requests_sent, 1);
    assert_eq!(fetch.retries, 0);
}

#[test]
fn transport_failures_are_retried_and_stream_failures_are_not() {
    let mut fetch = RangeFetcher::new(1, fixed_policy());
    fetch.step(FetchEvent::Start);
    assert_eq!(fetch.step(FetchEvent::TransportError), FetchAction::Sleep(100));
    assert_eq!(fetch.phase, FetchPhase::Retrying);
    assert_eq!(fetch.step(FetchEvent::Response(200)), FetchAction::Ignore);
    assert_eq!(fetch.step(FetchEvent::DelayElapsed), FetchAction::SendRequest);
    assert_eq!(fetch.step(FetchEvent::Response(200)), FetchAction::StreamBody);
    assert_eq!(fetch.step(FetchEvent::BodyError), FetchAction::Fail(FailureCause::Stream));
    assert_eq!(fetch.phase, FetchPhase::PermanentFailure);
    assert_eq!(fetch.requests_sent, 2);

    let mut none = RangeFetcher::new(0, fixed_policy());
    none.step(FetchEvent::Start);
    assert_eq!(
        none.step(FetchEvent::TransportError),
        FetchAction::Fail(FailureCause::TransportExhausted)
    );
    assert_eq!(none.requests_sent, 1);
}

#[test]
fn jittered_delays_of_a_fetch_stay_in_bounds() {
    let mut fetch = RangeFetcher::new(1, BackoffPolicy::new());
    fetch.step(FetchEvent::Start);
    match fetch.step(FetchEvent::Response(503)) {
        FetchAction::Sleep(ms) => assert!(ms >= 75 && ms <= 125),
        other => panic!("unexpected action {:?}", other),
    }
}

#[test]
fn fetch_settings_come_from_the_arguments() {
    let args = ruget::cli::Args {
        urls: vec![],
        input: None,
        output: None,
        headers: vec![],
        resume: false,
        max_retries: 7,
        verbose: false,
        log_json: false,
        log_format: None,
        log_level: None,
        quiet: false,
        output_dir: None,
        jobs: 0,
        log: String::new(),
        init: false,
        backoff_base_ms: 250,
        backoff_max_ms: 9000,
    };
    let fetch = RangeFetcher::from_args(&args);
    assert!(fetch.is_wf());
    assert_eq!(fetch.max_retries, 7);
    assert_eq!(fetch.policy.base_delay_ms, 250);
    assert_eq!(fetch.policy.factor, 2000);
    assert_eq!(fetch.policy.max_delay_ms, 9000);
    assert!(fetch.policy.jitter);
    assert_eq!(fetch.phase, FetchPhase::Idle);
}

#[test]
fn accepted_statuses_are_the_2xx() {
    assert!(is_accepted_status(200));
    assert!(is_accepted_status(206));
    assert!(is_accepted_status(299));
    assert!(!is_accepted_status(199));
    assert!(!is_accepted_status(300));
    assert!(!is_accepted_status(404));
    assert!(!is_accepted_status(500));
    assert_eq!(BLOCK_SIZE, 64 * 1024);
}

#[test]
fn status_labels_and_failure_messages() {
    assert_eq!(status_label(404), "404 Not Found");
    assert_eq!(status_label(99), "99");
    assert_eq!(status_label(1000), "1000");
    assert_eq!(status_label(799), "799 <unknown status code>");
    let err = status_failure("http://h/f", Some(3), 503, 5);
    assert_eq!(
        err.message,
        "Network error: http://h/f: chunk 3 failed with HTTP 503 Service Unavailable after 5 retries"
    );
}

#[test]
fn two_urls_with_one_output_path_are_rejected() {
    let err = check_output_conflict(2, true).unwrap_err();
    assert_eq!(err.code, ErrorCode::E501);
    assert_eq!(err.message, "Parse error: Cannot use --output with multiple URLs");
    assert!(InitialPass::new(2, true).is_err());
    assert!(check_output_conflict(1, true).is_ok());
    assert!(check_output_conflict(2, false).is_ok());
    assert!(check_output_conflict(0, true).is_ok());
    assert!(InitialPass::new(3, false).is_ok());
    assert!(require_urls(0).is_err());
    assert_eq!(require_urls(0).unwrap_err().message, "Parse error: No URLs provided");
    assert!(require_urls(1).is_ok());
}

fn failed(text: &str) -> Result<(), RuGetError> {
    Err(RuGetError::network(text.to_string()))
}

#[test]
fn second_pass_retries_only_what_failed_and_recovery_leaves_the_log_empty() {
    let mut pass = InitialPass::new(3, false).unwrap();
    pass.record("http://a".to_string(), "a".to_string(), Ok(()));
    pass.record("http://b".to_string(), "b".to_string(), failed("down"));
    pass.record("http://c".to_string(), "c".to_string(), Ok(()));
    assert_eq!(pass.summary(), (2, 3));
    let mut retry = pass.into_retry();
    assert_eq!(retry.pending.len(), 1);
    {
        let current = retry.current().unwrap();
        assert_eq!(current.url, "http://b");
        assert_eq!(current.output_path, "b");
        assert_eq!(current.error, "E400: Network error: down");
    }
    retry.record(Ok(()));
    assert!(retry.current().is_none());
    let report = retry.finish();
    assert!(report.log_lines.is_empty());
    assert_eq!(report.succeeded, 3);
    assert_eq!(report.total, 3);
    assert!(report.result.is_ok());
}

#[test]
fn permanent_failures_are_logged_and_a_batch_that_fails_whole_is_an_error() {
    let mut pass = InitialPass::new(2, false).unwrap();
    pass.record("http://a".to_string(), "a".to_string(), failed("first"));
    pass.record("http://b".to_string(), "b".to_string(), failed("first"));
    let mut retry = pass.into_retry();
    retry.record(failed("second a"));
    retry.record(failed("second b"));
    retry.record(failed("ignored"));
    let report = retry.finish();
    assert_eq!(
        report.log_lines,
        vec![
            "http://a\tE400: Network error: second a".to_string(),
            "http://b\tE400: Network error: second b".to_string()
        ]
    );
    assert_eq!(report.succeeded, 0);
    let err = report.result.unwrap_err();
    assert_eq!(err.code, ErrorCode::E400);
    assert_eq!(err.message, "Network error: All downloads failed after retries");

    let mut pass = InitialPass::new(2, false).unwrap();
    pass.record("http://a".to_string(), "a".to_string(), failed("first"));
    pass.record("http://b".to_string(), "b".to_string(), Ok(()));
    let mut retry = pass.into_retry();
    retry.record(failed("again"));
    let report = retry.finish();
    assert_eq!(report.log_lines.len(), 1);
    assert_eq!(report.succeeded, 1);
    assert!(report.result.is_ok());

    let empty = InitialPass::new(0, false).unwrap().into_retry().finish();
    assert!(empty.result.is_ok());
    assert_eq!(empty.total, 0);
    let record = FailureRecord {
        url: "u".to_string(),
        output_path: "o".to_string(),
        error: "e".to_string(),
    };
    assert_eq!(record.log_line(), "u\te");
}

#[test]
fn a_failure_that_was_never_retried_counts_and_is_logged() {
    let mut pass = InitialPass::new(3, false).unwrap();
    pass.record("http://a".to_string(), "a".to_string(), failed("one"));
    pass.record("http://b".to_string(), "b".to_string(), failed("two"));
    pass.record("http://c".to_string(), "c".to_string(), Ok(()));
    let mut retry = pass.into_retry();
    assert!(retry.is_wf());
    retry.record(failed("again"));
    let report = retry.finish();
    assert_eq!(
        report.log_lines,
        vec![
            "http://a\tE400: Network error: again".to_string(),
            "http://b\tE400: Network error: two".to_string()
        ]
    );
    assert_eq!(report.succeeded, 1);
    assert_eq!(report.total, 3);
    assert!(report.result.is_ok());
}

#[test]
fn output_path_is_named_or_in_the_directory_or_the_file_name() {
    assert_eq!(resolve_output_path(Some("named"), Some("dir"), "file.txt"), "named");
    assert_eq!(resolve_output_path(None, None, "file.txt"), "file.txt");
    let joined = resolve_output_path(None, Some("dir"), "file.txt");
    assert_eq!(std::path::PathBuf::from(joined), std::path::Path::new("dir").join("file.txt"));
    assert_eq!(select_output_path(None, Some("x/y".to_string()), "f"), "x/y");
    assert_eq!(select_output_path(Some("n"), Some("x/y".to_string()), "f"), "n");
}
