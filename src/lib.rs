//! Turns container images into Flatpak runtimes and applications.
//!
//! The library holds the decisions of the tool: which layers are fetched,
//! which cached blobs are trusted, which snapshot-store commands are run and
//! in which order, and what text is written. The program around it performs
//! the network transfers, the file-system work and the process spawning.
pub mod text;
pub mod digest;
pub mod cache;
pub mod download;
pub mod exec;
pub mod workdir;
pub mod oci;
pub mod obs;
pub mod flatpak;
pub mod commands;
