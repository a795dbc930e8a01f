//! A batch data-collection pipeline: typed source and sink registries, a
//! point model for time-series observations, and a generation-mix archive
//! source that downloads, unpacks and parses a daily tab-separated table.
//!
//! All logic lives here and is verified; network and file transport is left
//! to the surrounding binary, which feeds bytes in and carries batches out.

pub mod bytes;
pub mod config;
pub mod date;
pub mod ecowatt;
pub mod kube;
pub mod options;
pub mod point;
pub mod raw;
pub mod rte;
pub mod sink;
pub mod source;
pub mod text;
pub mod topology;
