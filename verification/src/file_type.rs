//! The kinds of machine-readable files a publisher exposes, and the
//! compression formats their payloads use.

use vstd::prelude::*;

verus! {

/// Type of MRF file.
#[derive(Debug, Clone, Copy, PartialEq, Eq, Structural)]
pub enum MrfFileType {
    /// Table of Contents file
    TableOfContents,
    /// In-Network rates file
    InNetwork,
    /// Out-of-Network allowed amounts file
    AllowedAmount,
    /// Provider reference file
    ProviderReference,
    /// Unknown or mixed content
    Unknown,
}

/// The short label used for a file type in output file names.
pub open spec fn file_type_label(t: MrfFileType) -> Seq<char> {
    match t {
        MrfFileType::TableOfContents => "toc"@,
        MrfFileType::InNetwork => "in_network"@,
        MrfFileType::AllowedAmount => "allowed_amount"@,
        MrfFileType::ProviderReference => "provider_ref"@,
        MrfFileType::Unknown => "unknown"@,
    }
}

impl MrfFileType {
    /// Convert the file type to a string representation
    pub fn as_str(&self) -> (r: &'static str)
        ensures
            r@ == file_type_label(*self),
    {
        match self {
            MrfFileType::TableOfContents => "toc",
            MrfFileType::InNetwork => "in_network",
            MrfFileType::AllowedAmount => "allowed_amount",
            MrfFileType::ProviderReference => "provider_ref",
            MrfFileType::Unknown => "unknown",
        }
    }
}

/// Compression type for MRF files
#[derive(Debug, Clone, Copy, PartialEq, Eq, Structural)]
pub enum CompressionType {
    /// Gzip compression
    Gzip,
    /// Zip archive
    Zip,
    /// Bzip2 compression
    Bzip2,
    /// No compression
    NoCompression,
}

} // verus!
