//! Acquisition of the kernel's cumulative resource counters: tolerant parsers
//! for each counter file, and double-buffered stores that keep the two most
//! recent snapshots of each so that consumers can derive rates.
pub mod collectors;
pub mod config;
pub mod named;
pub mod placement;
pub mod rates;
pub mod read;
pub mod stats;
pub mod text;
