//! Inference of compression format and file type from a URL.
//!
//! Compression is read off the URL path after stripping any query string
//! and fragment, case-insensitively; a loose substring check catches URLs
//! whose path hints at compression without a clean extension.

use crate::file_type::{CompressionType, MrfFileType};
use crate::strutil::{contains_ci, contains_sub, ends_with, ends_with_ci, lower, spec_lower_char,
    str_eq};
use vstd::prelude::*;

verus! {

/// A character that ends the path part of a URL.
pub open spec fn is_break_char(c: char) -> bool {
    c == '?' || c == '#'
}

/// Index of the first query or fragment marker at or after `i`, or the
/// length of the string when there is none.
pub open spec fn path_end_from(s: Seq<char>, i: int) -> int
    decreases s.len() - i,
{
    if i < 0 || i >= s.len() {
        s.len() as int
    } else if is_break_char(s[i]) {
        i
    } else {
        path_end_from(s, i + 1)
    }
}

/// The path part of a URL: everything before the first '?' or '#'.
pub open spec fn stripped_path(s: Seq<char>) -> Seq<char> {
    s.subrange(0, path_end_from(s, 0))
}

/// The end of the path lies between the scan start and the string's end.
proof fn lemma_path_end_bounds(s: Seq<char>, i: int)
    requires
        0 <= i <= s.len(),
    ensures
        i <= path_end_from(s, i) <= s.len(),
    decreases s.len() - i,
{
    if i < s.len() && !is_break_char(s[i]) {
        lemma_path_end_bounds(s, i + 1);
    }
}

/// Index of the first query or fragment marker, or the string's length.
fn find_path_end(url: &str) -> (r: usize)
    ensures
        r as int == path_end_from(url@, 0),
        r <= url@.len(),
{
    let n = url.unicode_len();
    let mut i: usize = 0;
    while i < n
        invariant
            n == url@.len(),
            i <= n,
            path_end_from(url@, 0) == path_end_from(url@, i as int),
        decreases n - i,
    {
        let c = url.get_char(i);
        if c == '?' || c == '#' {
            assert(path_end_from(url@, i as int) == i as int);
            return i;
        }
        i = i + 1;
    }
    assert(path_end_from(url@, i as int) == n as int);
    n
}

/// Compression inferred from an already lower-cased path.
pub open spec fn compression_from_path(p: Seq<char>) -> Option<CompressionType> {
    if ends_with(p, ".gz"@) || ends_with(p, ".gzip"@) {
        Option::Some(CompressionType::Gzip)
    } else if ends_with(p, ".zip"@) {
        Option::Some(CompressionType::Zip)
    } else if ends_with(p, ".bz2"@) || ends_with(p, ".bzip2"@) {
        Option::Some(CompressionType::Bzip2)
    } else if ends_with(p, ".json"@) {
        Option::Some(CompressionType::NoCompression)
    } else if contains_sub(p, "gzip"@) || contains_sub(p, ".gz"@) {
        Option::Some(CompressionType::Gzip)
    } else if contains_sub(p, "zip"@) {
        Option::Some(CompressionType::Zip)
    } else {
        Option::None
    }
}

/// Compression inferred from a URL: its path, lower-cased, decides.
pub open spec fn compression_of_url(url: Seq<char>) -> Option<CompressionType> {
    compression_from_path(lower(stripped_path(url)))
}

/// Determine compression type from URL
pub fn determine_compression_from_url(url: &str) -> (r: Option<CompressionType>)
    ensures
        r == compression_of_url(url@),
{
    let i = find_path_end(url);
    let path = url.substring_char(0, i);
    assert(path@ == stripped_path(url@));
    if ends_with_ci(path, ".gz") || ends_with_ci(path, ".gzip") {
        Option::Some(CompressionType::Gzip)
    } else if ends_with_ci(path, ".zip") {
        Option::Some(CompressionType::Zip)
    } else if ends_with_ci(path, ".bz2") || ends_with_ci(path, ".bzip2") {
        Option::Some(CompressionType::Bzip2)
    } else if ends_with_ci(path, ".json") {
        Option::Some(CompressionType::NoCompression)
    } else if contains_ci(path, "gzip") || contains_ci(path, ".gz") {
        Option::Some(CompressionType::Gzip)
    } else if contains_ci(path, "zip") {
        Option::Some(CompressionType::Zip)
    } else {
        Option::None
    }
}

/// Compression from a URL and an optional Content-Type header value.
pub open spec fn detect_compression_spec(url: Seq<char>, ct: Option<Seq<char>>) -> CompressionType {
    let l = lower(url);
    if ends_with(l, ".gz"@) || ends_with(l, ".gzip"@) {
        CompressionType::Gzip
    } else if ends_with(l, ".zip"@) {
        CompressionType::Zip
    } else if ends_with(l, ".bz2"@) || ends_with(l, ".bzip2"@) {
        CompressionType::Bzip2
    } else {
        match ct {
            Option::Some(c) => {
                if c == "application/gzip"@ || c == "application/x-gzip"@ {
                    CompressionType::Gzip
                } else if c == "application/zip"@ {
                    CompressionType::Zip
                } else if c == "application/x-bzip2"@ {
                    CompressionType::Bzip2
                } else {
                    CompressionType::NoCompression
                }
            },
            Option::None => CompressionType::NoCompression,
        }
    }
}

/// Detect compression type from URL or headers
pub fn detect_compression(url: &str, content_type: Option<&str>) -> (r: CompressionType)
    ensures
        r == detect_compression_spec(
            url@,
            match content_type {
                Option::Some(c) => Option::Some(c@),
                Option::None => Option::None,
            },
        ),
{
    if ends_with_ci(url, ".gz") || ends_with_ci(url, ".gzip") {
        CompressionType::Gzip
    } else if ends_with_ci(url, ".zip") {
        CompressionType::Zip
    } else if ends_with_ci(url, ".bz2") || ends_with_ci(url, ".bzip2") {
        CompressionType::Bzip2
    } else {
        match content_type {
            Option::Some(ct) => {
                if str_eq(ct, "application/gzip") || str_eq(ct, "application/x-gzip") {
                    CompressionType::Gzip
                } else if str_eq(ct, "application/zip") {
                    CompressionType::Zip
                } else if str_eq(ct, "application/x-bzip2") {
                    CompressionType::Bzip2
                } else {
                    CompressionType::NoCompression
                }
            },
            Option::None => CompressionType::NoCompression,
        }
    }
}

/// File type inferred from key words in the lower-cased URL.
pub open spec fn detect_file_type_spec(url: Seq<char>) -> MrfFileType {
    let l = lower(url);
    if contains_sub(l, "table-of-contents"@) || contains_sub(l, "toc"@) {
        MrfFileType::TableOfContents
    } else if contains_sub(l, "in-network"@) || contains_sub(l, "negotiated"@) {
        MrfFileType::InNetwork
    } else if contains_sub(l, "allowed-amount"@) || contains_sub(l, "out-of-network"@) {
        MrfFileType::AllowedAmount
    } else if contains_sub(l, "provider-reference"@) || contains_sub(l, "provider_reference"@) {
        MrfFileType::ProviderReference
    } else {
        MrfFileType::Unknown
    }
}

/// Detect MRF file type from URL or filename
pub fn detect_file_type(url: &str) -> (r: MrfFileType)
    ensures
        r == detect_file_type_spec(url@),
{
    if contains_ci(url, "table-of-contents") || contains_ci(url, "toc") {
        MrfFileType::TableOfContents
    } else if contains_ci(url, "in-network") || contains_ci(url, "negotiated") {
        MrfFileType::InNetwork
    } else if contains_ci(url, "allowed-amount") || contains_ci(url, "out-of-network") {
        MrfFileType::AllowedAmount
    } else if contains_ci(url, "provider-reference") || contains_ci(url, "provider_reference") {
        MrfFileType::ProviderReference
    } else {
        MrfFileType::Unknown
    }
}

/// Lower-casing one character twice is the same as once.
proof fn lemma_lower_char_idempotent(c: char)
    ensures
        spec_lower_char(spec_lower_char(c)) == spec_lower_char(c),
{
    if 65 <= c as u32 && c as u32 <= 90 {
        assert(spec_lower_char(c) as u32 == c as u32 + 32);
    }
}

/// Lower-casing a sequence twice is the same as once.
pub proof fn lemma_lower_idempotent(s: Seq<char>)
    ensures
        lower(lower(s)) == lower(s),
{
    assert forall|i: int| 0 <= i < s.len() implies lower(lower(s))[i] == lower(s)[i] by {
        lemma_lower_char_idempotent(s[i]);
    }
    assert(lower(lower(s)) =~= lower(s));
}

/// Lower-casing does not introduce or remove query/fragment markers.
proof fn lemma_lower_char_break(c: char)
    ensures
        is_break_char(spec_lower_char(c)) == is_break_char(c),
{
    if 65 <= c as u32 && c as u32 <= 90 {
        assert(spec_lower_char(c) as u32 == c as u32 + 32);
        assert(spec_lower_char(c) as u32 != 63 && spec_lower_char(c) as u32 != 35);
        assert('?' as u32 == 63 && '#' as u32 == 35);
    }
}

/// The path ends at the same place in a URL and its lower-casing.
proof fn lemma_path_end_lower(s: Seq<char>, i: int)
    ensures
        path_end_from(lower(s), i) == path_end_from(s, i),
    decreases s.len() - i,
{
    if 0 <= i < s.len() {
        lemma_lower_char_break(s[i]);
        if !is_break_char(s[i]) {
            lemma_path_end_lower(s, i + 1);
        }
    }
}

/// Compression inference is case-insensitive: a URL and its lower-casing
/// infer the same compression.
pub proof fn lemma_compression_case_insensitive(url: Seq<char>)
    ensures
        compression_of_url(lower(url)) == compression_of_url(url),
{
    lemma_path_end_lower(url, 0);
    lemma_path_end_bounds(url, 0);
    assert(stripped_path(lower(url)) =~= lower(stripped_path(url)));
    lemma_lower_idempotent(stripped_path(url));
}

/// A path that ends before `i` keeps its end when anything is appended.
proof fn lemma_path_end_concat(s: Seq<char>, q: Seq<char>, i: int)
    requires
        0 <= i <= s.len(),
        forall|k: int| i <= k < s.len() ==> !is_break_char(s[k]),
        q.len() > 0,
        is_break_char(q[0]),
    ensures
        path_end_from(s + q, i) == s.len(),
        path_end_from(s, i) == s.len(),
    decreases s.len() - i,
{
    if i == s.len() {
        assert((s + q)[i] == q[0]);
    } else {
        assert((s + q)[i] == s[i]);
        lemma_path_end_concat(s, q, i + 1);
    }
}

/// Compression inference ignores query strings and fragments: appending a
/// query or fragment part to a clean URL does not change the inference.
pub proof fn lemma_compression_ignores_query(url: Seq<char>, q: Seq<char>)
    requires
        forall|k: int| 0 <= k < url.len() ==> !is_break_char(url[k]),
        q.len() > 0,
        is_break_char(q[0]),
    ensures
        compression_of_url(url + q) == compression_of_url(url),
{
    lemma_path_end_concat(url, q, 0);
    assert(stripped_path(url + q) =~= url);
    assert(stripped_path(url) =~= url);
}

} // verus!
