use mrf_rs::discovery::{aggregate_results, Discovery, DiscoveryState};
use mrf_rs::errors::SourceError;
use mrf_rs::file_type::{CompressionType, MrfFileType};
use mrf_rs::hashing::generate_file_id;
use mrf_rs::index::{descriptors_from_doc, index_descriptors_from_body, parse_index_document};
use mrf_rs::manifest::parse_manifest;

const INDEX_A: &str = r#"{
    "reporting_entity_name": "Acme Health",
    "reporting_entity_type": "insurer",
    "reporting_structure": [
        {
            "reporting_plans": [
                {
                    "plan_name": "Acme PPO",
                    "plan_id_type": "EIN",
                    "plan_id": "12-3456789",
                    "plan_market_type": "group"
                }
            ],
            "in_network_files": [
                { "description": "rates one", "location": "https://cdn.example.com/one.json.gz" },
                { "location": "https://cdn.example.com/two.json" }
            ]
        },
        {
            "in_network_files": [
                { "description": "rates three", "location": "https://cdn.example.com/three.json.gz?sig=abc" }
            ]
        }
    ]
}"#;

#[test]
fn test_parse_manifest_entries() {
    let body = r#"{
        "blobs": [
            { "name": "2025-01-15_index.json", "downloadUrl": "https://cdn.example.com/i1.json", "size": 10 },
            { "name": "plain.json", "downloadUrl": "https://cdn.example.com/i2.json", "size": 0 }
        ]
    }"#;
    let entries = parse_manifest(body.as_bytes()).unwrap();
    assert_eq!(entries.len(), 2);
    assert_eq!(entries[0].name, "2025-01-15_index.json");
    assert_eq!(entries[0].url, "https://cdn.example.com/i1.json");
    assert_eq!(entries[0].date, Some(1736899200));
    assert_eq!(entries[1].name, "plain.json");
    assert_eq!(entries[1].date, None);
}

#[test]
fn test_parse_manifest_rejects_malformed() {
    let parse_error = SourceError::Parse("Failed to parse blobs API response".to_string());

    // Not JSON at all.
    assert_eq!(parse_manifest(b"{ not json").unwrap_err(), parse_error);
    // No blobs member.
    assert_eq!(parse_manifest(b"{}").unwrap_err(), parse_error);
    // blobs is not an array.
    assert_eq!(parse_manifest(br#"{ "blobs": 3 }"#).unwrap_err(), parse_error);
    // An entry without a downloadUrl fails the whole manifest.
    assert_eq!(
        parse_manifest(br#"{ "blobs": [ { "name": "x", "size": 1 } ] }"#).unwrap_err(),
        parse_error
    );
    // A fractional size is not an unsigned integer.
    assert_eq!(
        parse_manifest(
            br#"{ "blobs": [ { "name": "x", "downloadUrl": "u", "size": 1.5 } ] }"#
        )
        .unwrap_err(),
        parse_error
    );
    // An empty blob list is a valid, empty manifest.
    assert_eq!(parse_manifest(br#"{ "blobs": [] }"#).unwrap().len(), 0);
}

#[test]
fn test_parse_index_document_and_expand() {
    let doc = parse_index_document(INDEX_A.as_bytes()).unwrap();
    assert_eq!(doc.reporting_entity_name, "Acme Health");
    assert_eq!(doc.reporting_entity_type, "insurer");
    assert_eq!(doc.reporting_structure.len(), 2);

    let url = "https://manifest.example.com/indexA.json";
    let descriptors = descriptors_from_doc(doc, url);
    assert_eq!(descriptors.len(), 3);

    let first = &descriptors[0];
    assert_eq!(first.name, "rates one");
    assert_eq!(first.url, "https://cdn.example.com/one.json.gz");
    assert_eq!(first.id, generate_file_id("https://cdn.example.com/one.json.gz"));
    assert_eq!(first.file_type, MrfFileType::InNetwork);
    assert_eq!(first.compression, Some(CompressionType::Gzip));
    assert_eq!(first.size_bytes, None);
    assert_eq!(first.last_modified, None);
    assert_eq!(first.metadata.source, "united_health");
    assert_eq!(first.metadata.index_url, url);
    assert_eq!(first.metadata.reporting_entity_name, "Acme Health");
    assert_eq!(first.metadata.reporting_entity_type, "insurer");

    // An entry without a description takes the default name.
    let second = &descriptors[1];
    assert_eq!(second.name, "In-Network File");
    assert_eq!(second.compression, Some(CompressionType::NoCompression));

    // The query string does not disturb compression inference.
    let third = &descriptors[2];
    assert_eq!(third.name, "rates three");
    assert_eq!(third.compression, Some(CompressionType::Gzip));
}

#[test]
fn test_index_allowed_amounts_and_mixed() {
    let body = r#"{
        "reporting_entity_name": "Acme Health",
        "reporting_entity_type": "insurer",
        "reporting_structure": [
            {
                "in_network_files": [
                    { "location": "https://cdn.example.com/in.json" }
                ],
                "allowed_amount_files": [
                    { "description": "allowed", "location": "https://cdn.example.com/aa.json" }
                ]
            },
            {}
        ]
    }"#;
    let descriptors = index_descriptors_from_body(None, body.as_bytes(), "https://m/i.json");
    assert_eq!(descriptors.len(), 2);
    assert_eq!(descriptors[0].file_type, MrfFileType::InNetwork);
    assert_eq!(descriptors[1].file_type, MrfFileType::AllowedAmount);
    assert_eq!(descriptors[1].name, "allowed");
}

#[test]
fn test_index_skip_rules_yield_empty() {
    let url = "https://m/i.json";
    // Content-Length zero: skipped before the body is read.
    assert_eq!(index_descriptors_from_body(Some(0), INDEX_A.as_bytes(), url).len(), 0);
    // An empty body.
    assert_eq!(index_descriptors_from_body(None, b"", url).len(), 0);
    // A body shorter than the smallest valid JSON.
    assert_eq!(index_descriptors_from_body(None, b"{", url).len(), 0);
    // Malformed JSON.
    assert_eq!(index_descriptors_from_body(None, b"{ nope", url).len(), 0);
    // Valid JSON that does not match the index schema.
    assert_eq!(index_descriptors_from_body(None, br#"{ "a": 1 }"#, url).len(), 0);
    // A reporting plan missing a required member poisons its index file.
    let bad_plan = br#"{
        "reporting_entity_name": "Acme",
        "reporting_entity_type": "insurer",
        "reporting_structure": [
            {
                "reporting_plans": [ { "plan_name": "P" } ],
                "in_network_files": [ { "location": "https://c/x.json" } ]
            }
        ]
    }"#;
    assert_eq!(index_descriptors_from_body(None, bad_plan, url).len(), 0);
}

#[test]
fn test_discovery_two_indexes_one_empty() {
    // The manifest lists two index files; A yields three in-network
    // entries, B is empty by Content-Length.
    let manifest = r#"{
        "blobs": [
            { "name": "a.json", "downloadUrl": "https://cdn.example.com/a.json", "size": 10 },
            { "name": "b.json", "downloadUrl": "https://cdn.example.com/b.json", "size": 0 }
        ]
    }"#;

    let mut run = Discovery::new();
    assert_eq!(run.state, DiscoveryState::Idle);
    run.start();
    assert_eq!(run.state, DiscoveryState::FetchManifest);
    run.manifest_fetched(manifest.as_bytes());
    assert_eq!(run.state, DiscoveryState::FanOutIndexFiles);
    assert_eq!(run.entries.len(), 2);

    // Results may arrive in any order; B first here.
    run.index_fetched(1, Some(0), b"");
    run.index_fetched(0, None, INDEX_A.as_bytes());
    assert!(run.all_collected());

    let files = run.finish();
    assert_eq!(run.state, DiscoveryState::Done);
    assert_eq!(files.len(), 3);
    for f in &files {
        assert_eq!(f.file_type, MrfFileType::InNetwork);
    }
}

#[test]
fn test_discovery_bad_index_does_not_block_others() {
    let manifest = r#"{
        "blobs": [
            { "name": "bad.json", "downloadUrl": "https://cdn.example.com/bad.json", "size": 5 },
            { "name": "good.json", "downloadUrl": "https://cdn.example.com/good.json", "size": 5 }
        ]
    }"#;
    let mut run = Discovery::new();
    run.start();
    run.manifest_fetched(manifest.as_bytes());

    // One index file is malformed, another fails outright: neither is
    // fatal, and the good one still contributes.
    run.index_fetched(0, None, b"{ malformed");
    run.index_fetched(1, None, INDEX_A.as_bytes());
    let files = run.finish();
    assert_eq!(files.len(), 3);

    let mut run2 = Discovery::new();
    run2.start();
    run2.manifest_fetched(manifest.as_bytes());
    run2.index_failed(0);
    run2.index_fetched(1, None, INDEX_A.as_bytes());
    let files2 = run2.finish();
    assert_eq!(files2.len(), 3);
}

#[test]
fn test_discovery_manifest_failures_are_fatal() {
    let mut run = Discovery::new();
    run.start();
    run.manifest_fetched(b"{ not a manifest");
    assert_eq!(run.state, DiscoveryState::Failed);
    assert!(matches!(run.failure, Some(SourceError::Parse(_))));

    let mut run2 = Discovery::new();
    run2.start();
    run2.manifest_failed(SourceError::Http("connect refused".to_string()));
    assert_eq!(run2.state, DiscoveryState::Failed);
    assert_eq!(run2.failure, Some(SourceError::Http("connect refused".to_string())));
}

#[test]
fn test_aggregate_keeps_order_and_independence() {
    let a = index_descriptors_from_body(None, INDEX_A.as_bytes(), "https://m/a.json");
    let empty: Vec<_> = index_descriptors_from_body(Some(0), b"", "https://m/b.json");
    let urls: Vec<String> = a.iter().map(|d| d.url.clone()).collect();

    let all = aggregate_results(vec![empty, a]);
    assert_eq!(all.len(), 3);
    for (i, d) in all.iter().enumerate() {
        assert_eq!(d.url, urls[i]);
    }
}
