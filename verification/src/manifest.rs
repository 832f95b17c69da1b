//! Parsing of the top-level manifest.
//!
//! The manifest endpoint answers with `{ "blobs": [ { "name", "downloadUrl",
//! "size" } ] }`; each blob names one index file.  A manifest that does not
//! parse, or whose entries are malformed, fails the whole discovery run:
//! only here is a parse error fatal.

use crate::dates::{extract_date_from_filename, extract_date_spec};
use crate::descriptor::IndexFileEntry;
use crate::errors::SourceError;
use crate::json::{json_array, json_as_array, json_as_str, json_as_u64, json_field, json_from_slice,
    json_get, json_string, json_u64, parsed_json};
use vstd::prelude::*;

verus! {

/// The mathematical content of one manifest entry.
pub ghost struct IndexEntryModel {
    pub name: Seq<char>,
    pub url: Seq<char>,
    pub date: Option<int>,
}

/// The content an `IndexFileEntry` carries.
pub open spec fn entry_model(e: IndexFileEntry) -> IndexEntryModel {
    IndexEntryModel {
        name: e.name@,
        url: e.url@,
        date: match e.date {
            Option::Some(t) => Option::Some(t as int),
            Option::None => Option::None,
        },
    }
}

/// What one blob object of the manifest means: its name, download URL and
/// size must be present and well-typed; the date comes out of the name.
pub open spec fn blob_entry_model(v: serde_json::Value) -> Option<IndexEntryModel> {
    match (json_field(v, "name"@), json_field(v, "downloadUrl"@), json_field(v, "size"@)) {
        (Option::Some(nv), Option::Some(uv), Option::Some(sv)) => {
            match (json_string(nv), json_string(uv), json_u64(sv)) {
                (Option::Some(name), Option::Some(url), Option::Some(_size)) => {
                    Option::Some(
                        IndexEntryModel { name, url, date: extract_date_spec(name) },
                    )
                },
                _ => Option::None,
            }
        },
        _ => Option::None,
    }
}

/// What a blob array means: every entry must be well-formed.
pub open spec fn blobs_model(vs: Seq<serde_json::Value>) -> Option<Seq<IndexEntryModel>>
    decreases vs.len(),
{
    if vs.len() == 0 {
        Option::Some(Seq::empty())
    } else {
        match blob_entry_model(vs.first()) {
            Option::None => Option::None,
            Option::Some(e) => match blobs_model(vs.drop_first()) {
                Option::None => Option::None,
                Option::Some(rest) => Option::Some(seq![e] + rest),
            },
        }
    }
}

/// What a manifest body means: valid JSON whose `blobs` member is an array
/// of well-formed blob objects.
pub open spec fn manifest_model(bytes: Seq<u8>) -> Option<Seq<IndexEntryModel>> {
    match parsed_json(bytes) {
        Option::None => Option::None,
        Option::Some(root) => match json_field(root, "blobs"@) {
            Option::None => Option::None,
            Option::Some(b) => match json_array(b) {
                Option::None => Option::None,
                Option::Some(vs) => blobs_model(vs),
            },
        },
    }
}

/// Parse the manifest body into its index-file entries.  Failure here is
/// fatal to a discovery run.
pub fn parse_manifest(bytes: &[u8]) -> (r: Result<Vec<IndexFileEntry>, SourceError>)
    ensures
        match r {
            Result::Ok(entries) => manifest_model(bytes@) == Option::Some(
                entries@.map_values(|e: IndexFileEntry| entry_model(e)),
            ),
            Result::Err(e) => manifest_model(bytes@) is None && (e matches SourceError::Parse(m)
                && m@ == "Failed to parse blobs API response"@),
        },
{
    let root = match json_from_slice(bytes) {
        Option::Some(v) => v,
        Option::None => {
            return Result::Err(parse_failure());
        },
    };
    let blobs_v = match json_get(&root, "blobs") {
        Option::Some(v) => v,
        Option::None => {
            return Result::Err(parse_failure());
        },
    };
    let blobs = match json_as_array(&blobs_v) {
        Option::Some(a) => a,
        Option::None => {
            return Result::Err(parse_failure());
        },
    };
    let n = blobs.len();
    let mut entries: Vec<IndexFileEntry> = Vec::new();
    proof {
        assert(blobs@.skip(0) =~= blobs@);
        match blobs_model(blobs@) {
            Option::Some(rest) => {
                assert(entries@.map_values(|e: IndexFileEntry| entry_model(e)) + rest =~= rest);
            },
            Option::None => {},
        }
    }
    let mut i: usize = 0;
    while i < n
        invariant
            i <= n,
            n == blobs@.len(),
            entries@.len() == i,
            parsed_json(bytes@) == Option::Some(root),
            json_field(root, "blobs"@) == Option::Some(blobs_v),
            json_array(blobs_v) == Option::Some(blobs@),
            match blobs_model(blobs@.skip(i as int)) {
                Option::Some(rest) => blobs_model(blobs@) == Option::Some(
                    entries@.map_values(|e: IndexFileEntry| entry_model(e)) + rest,
                ),
                Option::None => blobs_model(blobs@) is None,
            },
        decreases n - i,
    {
        let v = &blobs[i];
        proof {
            assert(blobs@.skip(i as int).first() == blobs@[i as int]);
            assert(blobs@.skip(i as int).drop_first() =~= blobs@.skip(i + 1));
        }
        let entry = match blob_entry_of(v) {
            Option::Some(e) => e,
            Option::None => {
                proof {
                    assert(blobs_model(blobs@.skip(i as int)) is None);
                }
                return Result::Err(parse_failure());
            },
        };
        entries.push(entry);
        proof {
            let f = |e: IndexFileEntry| entry_model(e);
            assert(entries@.map_values(f) =~= entries@.drop_last().map_values(f).push(
                entry_model(entry),
            ));
            match blobs_model(blobs@.skip(i + 1)) {
                Option::Some(rest) => {
                    assert(entries@.drop_last().map_values(f).push(entry_model(entry)) + rest
                        =~= entries@.drop_last().map_values(f) + (seq![entry_model(entry)] + rest));
                },
                Option::None => {},
            }
        }
        i = i + 1;
    }
    proof {
        assert(blobs@.skip(n as int) =~= Seq::empty());
        assert(blobs_model(blobs@.skip(n as int)) == Option::Some(Seq::<IndexEntryModel>::empty()));
        match blobs_model(blobs@) {
            Option::Some(m) => {
                assert(m =~= entries@.map_values(|e: IndexFileEntry| entry_model(e)));
            },
            Option::None => {},
        }
    }
    Result::Ok(entries)
}

/// The error every malformed manifest surfaces as.
fn parse_failure() -> (r: SourceError)
    ensures
        r matches SourceError::Parse(m) && m@ == "Failed to parse blobs API response"@,
{
    SourceError::Parse(String::from_str("Failed to parse blobs API response"))
}

/// Read one blob object, or nothing when it is malformed.
fn blob_entry_of(v: &serde_json::Value) -> (r: Option<IndexFileEntry>)
    ensures
        match r {
            Option::Some(e) => blob_entry_model(*v) == Option::Some(entry_model(e)),
            Option::None => blob_entry_model(*v) is None,
        },
{
    let nv = match json_get(v, "name") {
        Option::Some(x) => x,
        Option::None => {
            return Option::None;
        },
    };
    let uv = match json_get(v, "downloadUrl") {
        Option::Some(x) => x,
        Option::None => {
            return Option::None;
        },
    };
    let sv = match json_get(v, "size") {
        Option::Some(x) => x,
        Option::None => {
            return Option::None;
        },
    };
    let name = match json_as_str(&nv) {
        Option::Some(s) => s,
        Option::None => {
            return Option::None;
        },
    };
    let url = match json_as_str(&uv) {
        Option::Some(s) => s,
        Option::None => {
            return Option::None;
        },
    };
    match json_as_u64(&sv) {
        Option::Some(_size) => {},
        Option::None => {
            return Option::None;
        },
    };
    let date = extract_date_from_filename(name.as_str());
    Option::Some(IndexFileEntry { name, url, date })
}

} // verus!
