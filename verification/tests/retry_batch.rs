use mrf_rs::batch::{fail_all, output_filename, size_guard, FetchBatch};
use mrf_rs::descriptor::{DescriptorMetadata, MrfFileInfo};
use mrf_rs::errors::SourceError;
use mrf_rs::file_type::MrfFileType;
use mrf_rs::hashing::generate_file_id;
use mrf_rs::retry::{is_success_status, next_get_step, GetStep, HttpEvent};

fn descriptor(url: &str, size_bytes: Option<u64>) -> MrfFileInfo {
    MrfFileInfo {
        id: generate_file_id(url),
        name: "A file".to_string(),
        url: url.to_string(),
        file_type: MrfFileType::InNetwork,
        size_bytes,
        last_modified: None,
        compression: None,
        metadata: DescriptorMetadata {
            source: "united_health".to_string(),
            index_url: "https://example.com/index.json".to_string(),
            reporting_entity_name: "Entity".to_string(),
            reporting_entity_type: "insurer".to_string(),
        },
    }
}

#[test]
fn test_rate_limited_never_retried() {
    // A 429 fails with the publisher's hint on the very first attempt.
    let step = next_get_step(
        0,
        3,
        HttpEvent::Response { status: 429, retry_after: Some(120) },
    );
    assert_eq!(step, GetStep::Fail(SourceError::RateLimited(120)));

    // Without a hint the wait defaults to sixty seconds.
    let step = next_get_step(0, 3, HttpEvent::Response { status: 429, retry_after: None });
    assert_eq!(step, GetStep::Fail(SourceError::RateLimited(60)));

    // Attempts left over make no difference: still no retry.
    let step = next_get_step(1, 3, HttpEvent::Response { status: 429, retry_after: Some(5) });
    assert_eq!(step, GetStep::Fail(SourceError::RateLimited(5)));
}

#[test]
fn test_server_errors_retry_with_backoff() {
    // 5xx retries with exponential backoff while attempts remain.
    let step = next_get_step(0, 3, HttpEvent::Response { status: 503, retry_after: None });
    assert_eq!(step, GetStep::Retry { next_attempt: 1, delay_secs: 2 });
    let step = next_get_step(1, 3, HttpEvent::Response { status: 503, retry_after: None });
    assert_eq!(step, GetStep::Retry { next_attempt: 2, delay_secs: 4 });
    let step = next_get_step(2, 3, HttpEvent::Response { status: 500, retry_after: None });
    assert_eq!(step, GetStep::Retry { next_attempt: 3, delay_secs: 8 });

    // Attempts exhausted: the error surfaces.
    let step = next_get_step(3, 3, HttpEvent::Response { status: 500, retry_after: None });
    assert_eq!(step, GetStep::Fail(SourceError::Other("HTTP error: 500".to_string())));
}

#[test]
fn test_connection_failures_retry_then_surface() {
    let step = next_get_step(0, 3, HttpEvent::ConnectionFailed("boom".to_string()));
    assert_eq!(step, GetStep::Retry { next_attempt: 1, delay_secs: 2 });
    let step = next_get_step(3, 3, HttpEvent::ConnectionFailed("boom".to_string()));
    assert_eq!(step, GetStep::Fail(SourceError::Http("boom".to_string())));
}

#[test]
fn test_success_and_client_errors() {
    let step = next_get_step(0, 3, HttpEvent::Response { status: 200, retry_after: None });
    assert_eq!(step, GetStep::Succeed);
    let step = next_get_step(0, 3, HttpEvent::Response { status: 404, retry_after: None });
    assert_eq!(step, GetStep::Fail(SourceError::Other("HTTP error: 404".to_string())));
    assert!(is_success_status(204));
    assert!(!is_success_status(301));
}

#[test]
fn test_size_guard() {
    assert_eq!(
        size_guard(Some(500), Some(100)),
        Some(SourceError::SizeExceeded { size: 500, limit: 100 })
    );
    assert_eq!(size_guard(Some(100), Some(100)), None);
    assert_eq!(size_guard(None, Some(100)), None);
    assert_eq!(size_guard(Some(500), None), None);
    assert_eq!(
        size_guard(Some(u64::MAX), Some(u64::MAX - 1)),
        Some(SourceError::SizeExceeded { size: u64::MAX, limit: u64::MAX - 1 })
    );
}

#[test]
fn test_batch_limit_and_size_guard() {
    // Ten descriptors, a size limit of 100, one advertising 500 bytes.
    let mut files: Vec<MrfFileInfo> = Vec::new();
    for i in 0..10usize {
        let advertised = if i == 4 { Some(500) } else { Some(10) };
        files.push(descriptor(&format!("https://example.com/f{}.json", i), advertised));
    }
    let max_size = Some(100u64);

    let mut batch: FetchBatch<Vec<u8>> = FetchBatch::new(files.len(), Some(3));

    // The limiter never admits more than three in flight.
    let mut running: Vec<usize> = Vec::new();
    let mut outcomes: Vec<(usize, Result<Vec<u8>, SourceError>)> = Vec::new();
    while !batch.is_done() {
        while batch.can_start() {
            running.push(batch.next_to_start());
            assert!(running.len() <= 3);
        }
        // Finish the oldest running item, out of order every second time.
        let idx = if running.len() > 1 && running[0] % 2 == 0 {
            running.remove(1)
        } else {
            running.remove(0)
        };
        let outcome = match size_guard(files[idx].size_bytes, max_size) {
            Some(e) => Err(e),
            None => Ok(vec![1u8, 2u8]),
        };
        outcomes.push((idx, outcome.clone()));
        batch.complete(idx, outcome);
        let (done, total) = batch.progress();
        assert_eq!(total, 10);
        assert_eq!(done, outcomes.len());
    }

    // Exactly one result pair per input, tied to its descriptor.
    let results = batch.into_results(files);
    assert_eq!(results.len(), 10);
    let mut failed = 0;
    for (i, (d, r)) in results.iter().enumerate() {
        assert_eq!(d.url, format!("https://example.com/f{}.json", i));
        if i == 4 {
            assert_eq!(r, &Err(SourceError::SizeExceeded { size: 500, limit: 100 }));
            failed += 1;
        } else {
            assert_eq!(r, &Ok(vec![1u8, 2u8]));
        }
    }
    assert_eq!(failed, 1);
}

#[test]
fn test_fail_all_on_output_directory_failure() {
    let files = vec![
        descriptor("https://example.com/a.json", None),
        descriptor("https://example.com/b.json", None),
    ];
    let error = SourceError::Other("Failed to create output directory: denied".to_string());
    let results: Vec<(MrfFileInfo, Result<String, SourceError>)> = fail_all(files, &error);
    assert_eq!(results.len(), 2);
    assert_eq!(results[0].0.url, "https://example.com/a.json");
    assert_eq!(results[1].0.url, "https://example.com/b.json");
    for (_, r) in &results {
        assert_eq!(r, &Err(error.clone()));
    }
}

#[test]
fn test_output_filename() {
    assert_eq!(
        output_filename(MrfFileType::InNetwork, "uh_1", "https://e.com/x/file.json"),
        "in_network_uh_1.json"
    );
    assert_eq!(
        output_filename(MrfFileType::AllowedAmount, "uh_2", "https://e.com/file.json.gz"),
        "allowed_amount_uh_2.gz"
    );
    // A segment without a dot is taken whole.
    assert_eq!(
        output_filename(MrfFileType::Unknown, "uh_3", "https://e.com/data"),
        "unknown_uh_3.data"
    );
}
