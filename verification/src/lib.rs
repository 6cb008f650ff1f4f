//! Verified core of a release-pinning tool.
//!
//! The library turns `owner/name` repository identifiers, release metadata
//! (a version tag plus a list of downloadable assets) and a fixed table of
//! platform triples into a declarative source-pinning document: a nested
//! attribute-set text that maps each repository to its version and, per
//! platform, the download URL and content hash of the matching asset.
//!
//! Everything here is pure: parsing identifiers, classifying asset
//! filenames by platform triple, and rendering the output document. The
//! surrounding binary performs the HTTP fetches and file writes and hands
//! this library plain strings and vectors.

pub mod text;
pub mod platform;
pub mod repo;
pub mod release;
pub mod render;
