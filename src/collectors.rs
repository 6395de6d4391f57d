//! Parsers for the kernel's counter files, one module per file.
pub mod diskstats;
pub mod meminfo;
pub mod net;
pub mod pressure;
pub mod procstat;
