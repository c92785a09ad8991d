//! Sanitizes file and directory names into a canonical ASCII-safe form and
//! plans the renames across a directory subtree.
//!
//! The core is a byte-level UTF-8 scalar decoder, a total character folding
//! table, a name builder that collapses separator runs, a path renamer that
//! decides each rename without touching the filesystem, and a tree walker
//! that keeps child paths consistent when an ancestor directory is renamed.

mod decode;
mod fold;
mod name;
mod outcome;
mod rename;
mod walk;

pub use decode::convert_four_to_u32;
pub use decode::convert_three_to_u32;
pub use decode::convert_two_to_u32;
pub use fold::check_similar;
pub use fold::fold_outcome;
pub use fold::lemma_combining_marks_ignored;
pub use fold::lemma_ascii_letter_fixed;
pub use fold::lemma_fold_outputs_ascii;
pub use fold::lemma_kept_emission_independent;
pub use fold::FoldOutcome;
pub use name::clean_name;
pub use name::lemma_combining_mark_deleted;
pub use name::lemma_dot_absorbs_separators;
pub use name::lemma_encoded_char_runs;
pub use name::lemma_mixed_separator_run_collapses;
pub use name::lemma_normalized_idempotent_ascii;
pub use name::lemma_run_builder_append;
pub use name::lemma_separator_run_collapses;
pub use name::lemma_unmapped_collapses_like_separator;
pub use name::normalized;
pub use name::SeparatorUnit;
pub use name::BuilderState;
pub use outcome::JsonOutput;
pub use outcome::NotoxArgs;
pub use outcome::PathChange;
pub use rename::clean_path;
pub use rename::file_name_of;
pub use rename::rename_outcome;
pub use rename::with_file_name;
pub use rename::RenamePlan;
pub use walk::clean_tree;
pub use walk::outcome_count;
pub use walk::tree_wf;
pub use walk::walk_records;
pub use walk::FsEntry;
pub use walk::FsTree;
