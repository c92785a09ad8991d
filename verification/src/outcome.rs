//! The run configuration and the per-path outcome records.
//!
//! A path is carried as its raw bytes: on POSIX systems a file name is an
//! arbitrary NUL-free byte sequence, and the normalization must not assume
//! valid UTF-8.

use vstd::prelude::*;

verus! {

/// Type of JSON output
#[derive(Debug, Clone, PartialEq, Eq)]
pub enum JsonOutput {
    /// full json output
    Default,
    /// only errors in json output
    OnlyError,
}

/// Options for the program
#[derive(Debug, Clone, PartialEq, Eq)]
pub struct NotoxArgs {
    /// if true, no rename is performed: a planned rename is reported with the
    /// dry-run sentinel error instead
    pub dry_run: bool,
    /// which kind of json output to use, if any
    pub json_output: Option<JsonOutput>,
    /// whether json output is pretty-printed
    pub json_pretty: bool,
    /// verbosity of the program
    pub verbose: bool,
}

/// Contains information about a result of a single path.
///
/// Exactly one record is created per visited filesystem entry and none is
/// mutated afterwards.
#[derive(Debug, Clone, PartialEq, Eq)]
pub enum PathChange {
    /// The path has not been changed
    Unchanged {
        /// The original path
        path: Vec<u8>,
    },
    /// The path has been changed
    Changed {
        /// The original path
        path: Vec<u8>,
        /// The modified path
        modified: Vec<u8>,
    },
    /// A rename was computed but not applied: either dry-run (with the
    /// sentinel error) or the filesystem refused it
    ErrorRename {
        /// The original path
        path: Vec<u8>,
        /// The modified path
        modified: Vec<u8>,
        /// The error message
        error: String,
    },
    /// There was a structural error while processing the path, unrelated to
    /// its name
    Error {
        /// The original path
        path: Vec<u8>,
        /// The error message
        error: String,
    },
}

impl PathChange {
    /// The original path the record speaks of.
    pub open spec fn spec_path(&self) -> Seq<u8> {
        match self {
            PathChange::Unchanged { path } => path@,
            PathChange::Changed { path, .. } => path@,
            PathChange::ErrorRename { path, .. } => path@,
            PathChange::Error { path, .. } => path@,
        }
    }

    /// True for a record of a performed rename.
    pub open spec fn is_changed(&self) -> bool {
        self matches PathChange::Changed { .. }
    }
}

} // verus!
