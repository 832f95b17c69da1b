//! Cache keys, cache paths and the freshness rule.
//!
//! The cache key is a deterministic hash over a descriptor's URL and, when
//! present, its last-modified stamp: changing either changes the key, so a
//! republished file misses the cache.  Paths are
//! `<cache_dir>/<id>/<key>.<ext>`, components joined with `/`, with the
//! extension chosen from the descriptor's compression.

use crate::descriptor::MrfFileInfo;
use crate::errors::SourceError;
use crate::file_type::CompressionType;
use crate::hashing::{append_hex, fnv64, fnv64_bytes, fnv64_step, u64_hex, FNV_PRIME};
use crate::options::{FetchOptions, SourceConfig};
use vstd::prelude::*;
use vstd::utf8::encode_utf8;

verus! {

/// The cache key: FNV-1a over the URL's bytes, folded once more with the
/// last-modified stamp when one is present, in lower-case hex.
pub open spec fn cache_key_of(url: Seq<char>, last_modified: Option<i64>) -> Seq<char> {
    let h0 = fnv64(encode_utf8(url));
    let h = match last_modified {
        Option::Some(ts) => fnv64_step(h0, ts as u64),
        Option::None => h0,
    };
    u64_hex(h as nat)
}

/// Generate a cache key for a file
pub fn cache_key(file_info: &MrfFileInfo) -> (r: String)
    ensures
        r@ == cache_key_of(file_info.url@, file_info.last_modified),
{
    let h0 = fnv64_bytes(file_info.url.as_str().as_bytes());
    let h = match file_info.last_modified {
        Option::Some(ts) => (h0 ^ (ts as u64)).wrapping_mul(FNV_PRIME),
        Option::None => h0,
    };
    let mut r = String::new();
    append_hex(&mut r, h);
    r
}

/// Equal URLs and equal freshness stamps always map to the same cache key,
/// in every run: the key is a pure function of those two fields and of
/// nothing else.  (The key is a 64-bit hash, so two descriptors that
/// differ in URL or stamp map to different keys except for hash
/// collisions.)
pub proof fn lemma_cache_key_deterministic(d1: MrfFileInfo, d2: MrfFileInfo)
    requires
        d1.url@ == d2.url@,
        d1.last_modified == d2.last_modified,
    ensures
        cache_key_of(d1.url@, d1.last_modified) == cache_key_of(d2.url@, d2.last_modified),
{
}

/// The file extension the cache stores a descriptor under.
pub open spec fn cache_extension(compression: Option<CompressionType>) -> Seq<char> {
    match compression {
        Option::Some(CompressionType::Gzip) => "json.gz"@,
        Option::Some(CompressionType::Zip) => "zip"@,
        Option::Some(CompressionType::Bzip2) => "json.bz2"@,
        _ => "json"@,
    }
}

/// The extension as a string slice.
pub fn cache_extension_of(compression: &Option<CompressionType>) -> (r: &'static str)
    ensures
        r@ == cache_extension(*compression),
{
    match compression {
        Option::Some(CompressionType::Gzip) => "json.gz",
        Option::Some(CompressionType::Zip) => "zip",
        Option::Some(CompressionType::Bzip2) => "json.bz2",
        _ => "json",
    }
}

/// The cache path of a descriptor under a cache directory.
pub open spec fn cache_path_of(cache_dir: Seq<char>, info: MrfFileInfo) -> Seq<char> {
    cache_dir + "/"@ + info.id@ + "/"@ + cache_key_of(info.url@, info.last_modified) + "."@
        + cache_extension(info.compression)
}

/// Get cache path for a file
pub fn cache_path(cache_dir: &str, file_info: &MrfFileInfo) -> (r: String)
    ensures
        r@ == cache_path_of(cache_dir@, *file_info),
{
    let mut r = String::from_str(cache_dir);
    r.append("/");
    r.append(file_info.id.as_str());
    r.append("/");
    let key = cache_key(file_info);
    r.append(key.as_str());
    r.append(".");
    r.append(cache_extension_of(&file_info.compression));
    r
}

/// The cache directory a call uses: the per-call option, else the
/// source's default options, else none.
pub open spec fn resolved_cache_dir(options: FetchOptions, config: SourceConfig) -> Option<
    Seq<char>,
> {
    match options.cache_dir {
        Option::Some(d) => Option::Some(d@),
        Option::None => match config.default_options {
            Option::Some(o) => match o.cache_dir {
                Option::Some(d) => Option::Some(d@),
                Option::None => Option::None,
            },
            Option::None => Option::None,
        },
    }
}

/// The cache directory a call uses, as an executable lookup.
pub fn resolve_cache_dir(options: &FetchOptions, config: &SourceConfig) -> (r: Option<String>)
    ensures
        match r {
            Option::Some(d) => resolved_cache_dir(*options, *config) == Option::Some(d@),
            Option::None => resolved_cache_dir(*options, *config) is None,
        },
{
    match &options.cache_dir {
        Option::Some(d) => Option::Some(d.clone()),
        Option::None => match &config.default_options {
            Option::Some(o) => match &o.cache_dir {
                Option::Some(d) => Option::Some(d.clone()),
                Option::None => Option::None,
            },
            Option::None => Option::None,
        },
    }
}

/// The path a cache lookup probes, if caching applies to this call at
/// all: caching must be enabled and a cache directory configured.
pub fn cache_probe_path(file_info: &MrfFileInfo, options: &FetchOptions, config: &SourceConfig) -> (r:
    Option<String>)
    ensures
        !options.use_cache ==> r is None,
        options.use_cache && resolved_cache_dir(*options, *config) is None ==> r is None,
        match r {
            Option::Some(p) => options.use_cache && (resolved_cache_dir(*options, *config)
                matches Option::Some(d) && p@ == cache_path_of(d, *file_info)),
            Option::None => !options.use_cache || resolved_cache_dir(*options, *config) is None,
        },
{
    if !options.use_cache {
        return Option::None;
    }
    match resolve_cache_dir(options, config) {
        Option::Some(dir) => Option::Some(cache_path(dir.as_str(), file_info)),
        Option::None => Option::None,
    }
}

/// The freshness rule: a cached file may be used only when its on-disk
/// modification time is strictly after the descriptor's last-modified
/// stamp; a descriptor without a stamp never reads the cache.
pub fn cache_hit_allowed(last_modified: &Option<i64>, cache_mtime: u64) -> (r: bool)
    ensures
        r == match *last_modified {
            Option::Some(ts) => cache_mtime > ts as u64,
            Option::None => false,
        },
{
    match last_modified {
        Option::Some(ts) => cache_mtime > (*ts as u64),
        Option::None => false,
    }
}

/// Where a save writes, if anywhere: saving with caching disabled is a
/// no-op, and caching without a configured directory is a configuration
/// error.
pub fn cache_save_plan(file_info: &MrfFileInfo, options: &FetchOptions, config: &SourceConfig) -> (r:
    Result<Option<String>, SourceError>)
    ensures
        !options.use_cache ==> r == Result::<Option<String>, SourceError>::Ok(
            Option::<String>::None,
        ),
        options.use_cache ==> match r {
            Result::Ok(p) => p matches Option::Some(path) && (resolved_cache_dir(*options, *config)
                matches Option::Some(d) && path@ == cache_path_of(d, *file_info)),
            Result::Err(e) => resolved_cache_dir(*options, *config) is None && (e matches
                SourceError::Config(m) && m@ == "No cache directory specified"@),
        },
{
    if !options.use_cache {
        return Result::Ok(Option::None);
    }
    match resolve_cache_dir(options, config) {
        Option::Some(dir) => Result::Ok(Option::Some(cache_path(dir.as_str(), file_info))),
        Option::None => Result::Err(
            SourceError::Config(String::from_str("No cache directory specified")),
        ),
    }
}

} // verus!
