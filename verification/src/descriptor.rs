//! Descriptors for discoverable files.
//!
//! A `MrfFileInfo` names one downloadable file.  Its `id` is a pure
//! function of its URL, stable across runs, so that the cache can be
//! addressed by it; timestamps are carried as seconds since the Unix
//! epoch.  Descriptors are created during index parsing and never mutated
//! afterwards.

use crate::file_type::{CompressionType, MrfFileType};
use crate::hashing::file_id_of;
use vstd::prelude::*;

verus! {

/// Source-specific context recorded on every discovered file.
#[derive(Debug, Clone)]
pub struct DescriptorMetadata {
    /// Identifier of the source that discovered the file
    pub source: String,
    /// URL of the index file that listed this file
    pub index_url: String,
    /// The reporting entity named by that index file
    pub reporting_entity_name: String,
    /// The reporting entity's type, as the index file states it
    pub reporting_entity_type: String,
}

/// Information about an available MRF file
#[derive(Debug, Clone)]
pub struct MrfFileInfo {
    /// Unique identifier for this file, derived from its URL
    pub id: String,
    /// Human-readable name/description
    pub name: String,
    /// URL where the file can be downloaded
    pub url: String,
    /// Type of MRF file
    pub file_type: MrfFileType,
    /// Size in bytes (if known)
    pub size_bytes: Option<u64>,
    /// Last modified time in seconds since the Unix epoch (if known)
    pub last_modified: Option<i64>,
    /// Compression format (if any)
    pub compression: Option<CompressionType>,
    /// Additional metadata specific to the source
    pub metadata: DescriptorMetadata,
}

impl MrfFileInfo {
    /// The identity invariant: `id` is the stable function of the URL.
    pub open spec fn wf(self) -> bool {
        self.id@ == file_id_of(self.url@)
    }
}

/// The mathematical content of a descriptor's metadata.
pub ghost struct MetadataModel {
    pub source: Seq<char>,
    pub index_url: Seq<char>,
    pub reporting_entity_name: Seq<char>,
    pub reporting_entity_type: Seq<char>,
}

/// The mathematical content of a descriptor.
pub ghost struct DescriptorModel {
    pub id: Seq<char>,
    pub name: Seq<char>,
    pub url: Seq<char>,
    pub file_type: MrfFileType,
    pub size_bytes: Option<u64>,
    pub last_modified: Option<int>,
    pub compression: Option<CompressionType>,
    pub metadata: MetadataModel,
}

/// The content a `DescriptorMetadata` carries.
pub open spec fn metadata_model(m: DescriptorMetadata) -> MetadataModel {
    MetadataModel {
        source: m.source@,
        index_url: m.index_url@,
        reporting_entity_name: m.reporting_entity_name@,
        reporting_entity_type: m.reporting_entity_type@,
    }
}

/// The content a `MrfFileInfo` carries.
pub open spec fn desc_model(d: MrfFileInfo) -> DescriptorModel {
    DescriptorModel {
        id: d.id@,
        name: d.name@,
        url: d.url@,
        file_type: d.file_type,
        size_bytes: d.size_bytes,
        last_modified: match d.last_modified {
            Option::Some(t) => Option::Some(t as int),
            Option::None => Option::None,
        },
        compression: d.compression,
        metadata: metadata_model(d.metadata),
    }
}

/// Entry for an index file found on the transparency page
#[derive(Debug, Clone)]
pub struct IndexFileEntry {
    pub name: String,
    pub url: String,
    /// Date parsed from the name, as an epoch timestamp, if one is present
    pub date: Option<i64>,
}

} // verus!
