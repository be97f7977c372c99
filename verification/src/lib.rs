//! Verified core of a self-hosted music library server: content-addressed
//! ingestion, tag/provider metadata merging, entity classification with a
//! bidirectionally consistent track/album/artist graph, lyrics resolution,
//! and transcode planning.
pub mod blob;
pub mod classify;
pub mod error;
pub mod ingest;
pub mod lyrics;
pub mod merge;
pub mod model;
pub mod patch;
pub mod queries;
pub mod requests;
pub mod store;
pub mod tags;
pub mod transcode;
pub mod text;
