//! Uncompressed PCM wave files: the header that follows from a clip's
//! configuration, its 44-byte layout, and the bytes of a whole file.

pub mod config;
pub mod file;
pub mod header;
pub mod le;
pub mod samples;
