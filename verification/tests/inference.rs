use mrf_rs::compression::{detect_compression, detect_file_type, determine_compression_from_url};
use mrf_rs::dates::extract_date_from_filename;
use mrf_rs::file_type::{CompressionType, MrfFileType};
use mrf_rs::hashing::generate_file_id;

#[test]
fn test_detect_file_type() {
    assert_eq!(
        detect_file_type("https://example.com/table-of-contents.json"),
        MrfFileType::TableOfContents
    );
    assert_eq!(
        detect_file_type("https://example.com/in-network-rates.json"),
        MrfFileType::InNetwork
    );
    assert_eq!(
        detect_file_type("https://example.com/allowed-amounts.json"),
        MrfFileType::AllowedAmount
    );
}

#[test]
fn test_detect_compression() {
    assert_eq!(detect_compression("file.json.gz", None), CompressionType::Gzip);
    assert_eq!(detect_compression("file.zip", None), CompressionType::Zip);
    assert_eq!(
        detect_compression("file.json", Some("application/gzip")),
        CompressionType::Gzip
    );
}

#[test]
fn test_compression_detection() {
    // Gzip detection
    assert_eq!(
        determine_compression_from_url("https://example.com/file.json.gz"),
        Some(CompressionType::Gzip)
    );
    assert_eq!(
        determine_compression_from_url("https://example.com/file.gzip"),
        Some(CompressionType::Gzip)
    );

    // Zip detection
    assert_eq!(
        determine_compression_from_url("https://example.com/file.zip"),
        Some(CompressionType::Zip)
    );

    // Bzip2 detection
    assert_eq!(
        determine_compression_from_url("https://example.com/file.bz2"),
        Some(CompressionType::Bzip2)
    );
    assert_eq!(
        determine_compression_from_url("https://example.com/file.bzip2"),
        Some(CompressionType::Bzip2)
    );

    // Uncompressed JSON
    assert_eq!(
        determine_compression_from_url("https://example.com/file.json"),
        Some(CompressionType::NoCompression)
    );

    // URL with compression in path
    assert_eq!(
        determine_compression_from_url("https://example.com/gzip/data"),
        Some(CompressionType::Gzip)
    );

    // Unknown format
    assert_eq!(determine_compression_from_url("https://example.com/file.dat"), None);

    // Case insensitivity
    assert_eq!(
        determine_compression_from_url("https://example.com/FILE.JSON.GZ"),
        Some(CompressionType::Gzip)
    );

    // URLs with query parameters
    assert_eq!(
        determine_compression_from_url("https://example.com/file.json.gz?undefined"),
        Some(CompressionType::Gzip)
    );
    assert_eq!(
        determine_compression_from_url(
            "https://mrfstorageprod.blob.core.windows.net/public-mrf/2025-06-01/2025-06-01_allowed-amounts.json.gz?undefined"
        ),
        Some(CompressionType::Gzip)
    );
    assert_eq!(
        determine_compression_from_url("https://example.com/file.json?param=value&other=123"),
        Some(CompressionType::NoCompression)
    );

    // URLs with fragments
    assert_eq!(
        determine_compression_from_url("https://example.com/file.zip#section"),
        Some(CompressionType::Zip)
    );

    // URLs with both query params and fragments
    assert_eq!(
        determine_compression_from_url("https://example.com/file.bz2?param=1#section"),
        Some(CompressionType::Bzip2)
    );
}

#[test]
fn test_compression_inference_case_and_query() {
    assert_eq!(
        determine_compression_from_url("FILE.JSON.GZ?x=1#y"),
        Some(CompressionType::Gzip)
    );
    assert_eq!(
        determine_compression_from_url("file.json"),
        Some(CompressionType::NoCompression)
    );
    assert_eq!(determine_compression_from_url("file.dat"), None);
}

#[test]
fn test_date_extraction() {
    // 2025-01-15T00:00:00Z
    assert_eq!(extract_date_from_filename("2025-01-15_index.json"), Some(1736899200));

    // 2024-12-31T00:00:00Z
    assert_eq!(extract_date_from_filename("prefix_2024-12-31_suffix.json"), Some(1735603200));

    assert_eq!(extract_date_from_filename("no_date_here.json"), None);
}

#[test]
fn test_date_extraction_edges() {
    // The Unix epoch itself.
    assert_eq!(extract_date_from_filename("1970-01-01.json"), Some(0));

    // A leap day in a leap year is a real date ...
    assert_eq!(extract_date_from_filename("2024-02-29_data.json"), Some(1709164800));

    // ... but not in a common year: the first pattern decides, and an
    // invalid date yields nothing.
    assert_eq!(extract_date_from_filename("2023-02-29_data.json"), None);

    // An out-of-range month yields nothing.
    assert_eq!(extract_date_from_filename("2025-13-01_data.json"), None);

    // The first pattern position wins even when a digit precedes it.
    assert_eq!(extract_date_from_filename("12345-67-89"), None);
}

#[test]
fn test_date_extraction_range() {
    // The century leap year and the largest four-digit date.
    assert_eq!(extract_date_from_filename("2000-02-29.json"), Some(951782400));
    assert_eq!(extract_date_from_filename("9999-12-31.json"), Some(253402214400));
}

#[test]
fn test_number_rendering() {
    let mut hex = String::new();
    mrf_rs::hashing::append_hex(&mut hex, 0);
    assert_eq!(hex, "0");
    let mut tagged = String::from("x");
    mrf_rs::hashing::append_hex(&mut tagged, 255);
    assert_eq!(tagged, "xff");
    let mut dec = String::new();
    mrf_rs::hashing::append_dec(&mut dec, 10230);
    assert_eq!(dec, "10230");
}

#[test]
fn test_file_type_as_str() {
    assert_eq!(MrfFileType::TableOfContents.as_str(), "toc");
    assert_eq!(MrfFileType::InNetwork.as_str(), "in_network");
    assert_eq!(MrfFileType::AllowedAmount.as_str(), "allowed_amount");
    assert_eq!(MrfFileType::ProviderReference.as_str(), "provider_ref");
    assert_eq!(MrfFileType::Unknown.as_str(), "unknown");
}

#[test]
fn test_generate_file_id() {
    // FNV-1a 64 of the empty string is the offset basis.
    assert_eq!(generate_file_id(""), "uh_cbf29ce484222325");
    // Standard FNV-1a 64 value for "a".
    assert_eq!(generate_file_id("a"), "uh_af63dc4c8601ec8c");
    // Identity is a pure function of the URL.
    assert_eq!(
        generate_file_id("https://example.com/file.json"),
        generate_file_id("https://example.com/file.json")
    );
    assert_ne!(
        generate_file_id("https://example.com/file.json"),
        generate_file_id("https://example.com/other.json")
    );
}
