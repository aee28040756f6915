//! Upload-to-artifact pipeline: request fields are turned into compression
//! settings, the uploaded bytes are pushed through a streaming gzip encoder,
//! and the resulting artifact is named so that it can be fetched again.
//!
//! Everything here works on plain values. Sockets, files and clocks belong to
//! the host program, which feeds events in and carries actions out.

pub mod level;
pub mod text;
pub mod failure;
pub mod gzip;
pub mod compressor;
pub mod settings;
pub mod artifact;
pub mod scratch;
pub mod report;
pub mod pipeline;
pub mod run;
pub mod disk;
pub mod world;
pub mod upload;
