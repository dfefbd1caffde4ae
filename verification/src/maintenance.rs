//! Housekeeping at startup: which log files and which model files of the
//! former format are removed.  Listing and removing files is the caller's
//! work.
use vstd::prelude::*;

use crate::text::{
    chars_of, seq_ends_with, seq_starts_with, str_eq, str_starts_with, to_lowercase, unicode_lowercase,
    vec_ends_with,
};

verus! {

/// Log files of the application start with this name.
pub const LOG_FILE_PREFIX: &'static str = "ariatype.log";

/// A log file is removed when it is a file of the application's log,
/// last changed before the cutoff.
pub open spec fn is_old_log_spec(name: Seq<char>, is_file: bool, modified_ms: Option<u64>, cutoff_ms: u64) -> bool {
    is_file && seq_starts_with(name, LOG_FILE_PREFIX@) && (modified_ms matches Some(m) && m < cutoff_ms)
}

/// Whether a file in the log directory is an old log file.
pub fn is_old_log_file(name: &str, is_file: bool, modified_ms: Option<u64>, cutoff_ms: u64) -> (b: bool)
    ensures
        b == is_old_log_spec(name@, is_file, modified_ms, cutoff_ms),
{
    if !is_file {
        return false;
    }
    if !str_starts_with(&chars_of(name), LOG_FILE_PREFIX) {
        return false;
    }
    match modified_ms {
        Some(m) => m < cutoff_ms,
        None => false,
    }
}

/// What of the former model format is removed.
#[derive(Debug, Clone, Copy, PartialEq, Eq, Structural)]
pub enum LegacyModelEntry {
    File,
    Directory,
}

/// A file whose extension is `ggml` or `gguf` in any case, or a directory
/// whose name ends in `.ggml` or `.gguf`, belongs to the former format.
pub open spec fn legacy_model_spec(name: Seq<char>, is_file: bool, is_dir: bool, extension: Option<Seq<char>>) -> Option<LegacyModelEntry> {
    if is_file && (extension matches Some(x) && (unicode_lowercase(x) == "ggml"@ || unicode_lowercase(x) == "gguf"@)) {
        Some(LegacyModelEntry::File)
    } else if is_dir && (seq_ends_with(name, ".ggml"@) || seq_ends_with(name, ".gguf"@)) {
        Some(LegacyModelEntry::Directory)
    } else {
        None
    }
}

/// Whether an entry of the models directory belongs to the former format.
pub fn legacy_model_entry(name: &str, is_file: bool, is_dir: bool, extension: Option<&str>) -> (r: Option<
    LegacyModelEntry,
>)
    ensures
        r == legacy_model_spec(
            name@,
            is_file,
            is_dir,
            match extension {
                Some(x) => Some(x@),
                None => None,
            },
        ),
{
    if is_file {
        if let Some(x) = extension {
            let lower = to_lowercase(x);
            if str_eq(lower.as_str(), "ggml") || str_eq(lower.as_str(), "gguf") {
                return Some(LegacyModelEntry::File);
            }
        }
    }
    if is_dir {
        let v = chars_of(name);
        if vec_ends_with(&v, &chars_of(".ggml")) || vec_ends_with(&v, &chars_of(".gguf")) {
            return Some(LegacyModelEntry::Directory);
        }
    }
    None
}

} // verus!
