//! Send requests assembled from their segments.

pub mod common;
pub mod read;
pub mod write;
