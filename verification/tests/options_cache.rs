use mrf_rs::cache::{cache_hit_allowed, cache_key, cache_path, cache_probe_path, cache_save_plan,
    resolve_cache_dir};
use mrf_rs::descriptor::{DescriptorMetadata, MrfFileInfo};
use mrf_rs::errors::SourceError;
use mrf_rs::file_type::{CompressionType, MrfFileType};
use mrf_rs::hashing::generate_file_id;
use mrf_rs::options::{united_health_source_config, FetchOptions, SourceConfig, UnitedHealthConfig};

fn descriptor(url: &str, last_modified: Option<i64>, compression: Option<CompressionType>) -> MrfFileInfo {
    MrfFileInfo {
        id: generate_file_id(url),
        name: "A file".to_string(),
        url: url.to_string(),
        file_type: MrfFileType::InNetwork,
        size_bytes: None,
        last_modified,
        compression,
        metadata: DescriptorMetadata {
            source: "united_health".to_string(),
            index_url: "https://example.com/index.json".to_string(),
            reporting_entity_name: "Entity".to_string(),
            reporting_entity_type: "insurer".to_string(),
        },
    }
}

#[test]
fn test_default_fetch_options() {
    let options = FetchOptions::default();
    assert!(options.use_cache);
    assert!(options.verify_ssl);
    assert_eq!(options.timeout_secs, Some(300));
    assert_eq!(options.max_retries, Some(3));
}

#[test]
fn test_source_config_default() {
    let config = SourceConfig::default();
    assert_eq!(config.user_agent, Some("mrf-rs/0.1.0".to_string()));
    assert_eq!(config.rate_limit, Some(100));
}

#[test]
fn test_effective_options() {
    let mut options = FetchOptions::default();
    assert_eq!(options.effective_timeout_secs(), 300);
    assert_eq!(options.effective_max_retries(), 3);
    options.timeout_secs = None;
    options.max_retries = None;
    assert_eq!(options.effective_timeout_secs(), 300);
    assert_eq!(options.effective_max_retries(), 3);
    options.timeout_secs = Some(10);
    options.max_retries = Some(1);
    assert_eq!(options.effective_timeout_secs(), 10);
    assert_eq!(options.effective_max_retries(), 1);
}

#[test]
fn test_united_health_config_default() {
    let config = UnitedHealthConfig::default();
    assert_eq!(config.transparency_url, "https://transparency-in-coverage.uhc.com/");
    assert_eq!(
        config.api_endpoint,
        "https://transparency-in-coverage.uhc.com/api/v1/uhc/blobs"
    );
}

#[test]
fn test_united_health_source_config() {
    let source_config = united_health_source_config(&UnitedHealthConfig::default());
    assert_eq!(source_config.base_url, "https://transparency-in-coverage.uhc.com/");
    assert_eq!(
        source_config.user_agent,
        Some("mrf-rs/0.1.0 (United Health MRF Fetcher)".to_string())
    );
}

#[test]
fn test_cache_key_depends_on_url_and_stamp() {
    let a1 = descriptor("https://example.com/a.json", Some(1000), None);
    let a2 = descriptor("https://example.com/a.json", Some(1000), None);
    let a3 = descriptor("https://example.com/a.json", Some(2000), None);
    let a4 = descriptor("https://example.com/a.json", None, None);
    let b = descriptor("https://example.com/b.json", Some(1000), None);

    // Equal URL and stamp give equal keys, in every run.
    assert_eq!(cache_key(&a1), cache_key(&a2));
    // Changing the stamp, dropping it, or changing the URL moves the key.
    assert_ne!(cache_key(&a1), cache_key(&a3));
    assert_ne!(cache_key(&a1), cache_key(&a4));
    assert_ne!(cache_key(&a1), cache_key(&b));
}

#[test]
fn test_cache_path_layout() {
    let d = descriptor(
        "https://example.com/a.json.gz",
        Some(1000),
        Some(CompressionType::Gzip),
    );
    let key = cache_key(&d);
    assert_eq!(cache_path("/tmp/cache", &d), format!("/tmp/cache/{}/{}.json.gz", d.id, key));

    let plain = descriptor("https://example.com/a.json", None, Some(CompressionType::NoCompression));
    let plain_key = cache_key(&plain);
    assert_eq!(
        cache_path("c", &plain),
        format!("c/{}/{}.json", plain.id, plain_key)
    );

    let zipped = descriptor("https://example.com/a.zip", None, Some(CompressionType::Zip));
    assert!(cache_path("c", &zipped).ends_with(".zip"));
    let bzipped = descriptor("https://example.com/a.bz2", None, Some(CompressionType::Bzip2));
    assert!(cache_path("c", &bzipped).ends_with(".json.bz2"));
    let unknown = descriptor("https://example.com/a", None, None);
    assert!(cache_path("c", &unknown).ends_with(".json"));
}

#[test]
fn test_resolve_cache_dir_fallback() {
    let mut options = FetchOptions::default();
    let mut config = SourceConfig::default();

    // No directory anywhere.
    assert_eq!(resolve_cache_dir(&options, &config), None);

    // The source default applies when the call gives none.
    let mut defaults = FetchOptions::default();
    defaults.cache_dir = Some("default-dir".to_string());
    config.default_options = Some(defaults);
    assert_eq!(resolve_cache_dir(&options, &config), Some("default-dir".to_string()));

    // The per-call directory wins.
    options.cache_dir = Some("call-dir".to_string());
    assert_eq!(resolve_cache_dir(&options, &config), Some("call-dir".to_string()));
}

#[test]
fn test_cache_probe_requires_caching_and_directory() {
    let d = descriptor("https://example.com/a.json", Some(1000), None);
    let mut options = FetchOptions::default();
    let config = SourceConfig::default();

    // Caching on but no directory configured: nothing to probe.
    assert_eq!(cache_probe_path(&d, &options, &config), None);

    options.cache_dir = Some("c".to_string());
    let probed = cache_probe_path(&d, &options, &config);
    assert_eq!(probed, Some(cache_path("c", &d)));

    options.use_cache = false;
    assert_eq!(cache_probe_path(&d, &options, &config), None);
}

#[test]
fn test_cache_freshness_rule() {
    // Strictly-after wins; equal or older on-disk time does not.
    assert!(cache_hit_allowed(&Some(1000), 1001));
    assert!(!cache_hit_allowed(&Some(1000), 1000));
    assert!(!cache_hit_allowed(&Some(1000), 999));
    // A descriptor without a stamp never reads the cache.
    assert!(!cache_hit_allowed(&None, u64::MAX));
}

#[test]
fn test_cache_save_plan() {
    let d = descriptor("https://example.com/a.json", Some(1000), None);
    let mut options = FetchOptions::default();
    let config = SourceConfig::default();

    // Caching disabled: a save is a silent no-op.
    options.use_cache = false;
    assert_eq!(cache_save_plan(&d, &options, &config), Ok(None));

    // Caching on without a directory is a configuration error.
    options.use_cache = true;
    assert_eq!(
        cache_save_plan(&d, &options, &config),
        Err(SourceError::Config("No cache directory specified".to_string()))
    );

    // With a directory the save goes to the cache path.
    options.cache_dir = Some("c".to_string());
    assert_eq!(cache_save_plan(&d, &options, &config), Ok(Some(cache_path("c", &d))));
}
