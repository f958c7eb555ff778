//! A configuration-file locator and loader.
//!
//! A [`ConfigFile`] holds a logical filename, an ordered list of candidate
//! directories, an optional default value, and a flag that allows a missing
//! file to be created from that default. Resolution scans the directories in
//! order, picks the first one that holds the file, and falls back to the
//! default (optionally persisting it) when no valid file is found.
//!
//! The crate verifies the resolution-and-fallback decisions. Filesystem
//! probes, reads and writes, and the serialization codec are performed by the
//! caller, who reports their outcomes as plain values (`Vec<bool>` of
//! existence checks, `Option<T>` of a decode attempt); every decision taken on
//! those values is specified and proved here.

mod config;
mod laws;

pub use config::{
    first_present, join_path, lemma_first_present_found, lemma_first_present_none,
    outcome_matches_model, path_join, spec_location, spec_read, ConfigError, ConfigFile,
    LoadModel, ReadOutcome,
};
pub use laws::{
    lemma_corrupt_file_fallback, lemma_create_and_persist, lemma_default_fallback,
    lemma_found_file_precedence, lemma_no_create_no_match_failure, lemma_no_default_failure,
};
