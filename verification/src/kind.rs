//! Classification of directory entries.
//!
//! The directory-listing primitive reports, for each entry, a kind code drawn
//! from a small closed set. The codes are part of the native/script contract:
//! `0 = unknown`, `1 = regular file`, `2 = directory`, `3 = symbolic link`.
//! The raw type flag read from a POSIX directory stream (`d_type`) is mapped
//! onto these codes here.

use vstd::prelude::*;
use vstd::string::StringExecFns;

verus! {

/// Kind code for an entry whose type the directory stream did not report.
pub const KIND_UNKNOWN: u32 = 0;

/// Kind code for a regular file.
pub const KIND_FILE: u32 = 1;

/// Kind code for a directory.
pub const KIND_DIRECTORY: u32 = 2;

/// Kind code for a symbolic link.
pub const KIND_SYMLINK: u32 = 3;

/// POSIX `d_type` flag for a directory.
pub const DT_DIRECTORY: u32 = 4;

/// POSIX `d_type` flag for a regular file.
pub const DT_REGULAR: u32 = 8;

/// POSIX `d_type` flag for a symbolic link.
pub const DT_SYMLINK: u32 = 10;

/// The kind code that a raw `d_type` flag maps to.
pub open spec fn spec_kind_of_dtype(dtype: u32) -> u32 {
    if dtype == DT_REGULAR {
        KIND_FILE
    } else if dtype == DT_DIRECTORY {
        KIND_DIRECTORY
    } else if dtype == DT_SYMLINK {
        KIND_SYMLINK
    } else {
        KIND_UNKNOWN
    }
}

/// Every kind code is drawn from the closed set `{0, 1, 2, 3}`.
pub open spec fn kind_in_range(kind: u32) -> bool {
    kind == KIND_UNKNOWN || kind == KIND_FILE || kind == KIND_DIRECTORY || kind == KIND_SYMLINK
}

/// Map a raw directory-stream type flag to the entry kind code.
pub fn kind_of_dtype(dtype: u32) -> (kind: u32)
    ensures
        kind == spec_kind_of_dtype(dtype),
        kind_in_range(kind),
{
    if dtype == DT_REGULAR {
        KIND_FILE
    } else if dtype == DT_DIRECTORY {
        KIND_DIRECTORY
    } else if dtype == DT_SYMLINK {
        KIND_SYMLINK
    } else {
        KIND_UNKNOWN
    }
}

/// The string label that the script-side facade uses for a kind code.
pub open spec fn spec_kind_label(kind: u32) -> Seq<char> {
    if kind == KIND_FILE {
        "file"@
    } else if kind == KIND_DIRECTORY {
        "directory"@
    } else if kind == KIND_SYMLINK {
        "symlink"@
    } else {
        "unknown"@
    }
}

/// Whatever code a listing carries, the label presented to the script is one
/// of the four labels, and the three named kinds keep their own labels.
pub proof fn lemma_kind_label_total(kind: u32)
    ensures
        spec_kind_label(kind) == "unknown"@ || spec_kind_label(kind) == "file"@ || spec_kind_label(
            kind,
        ) == "directory"@ || spec_kind_label(kind) == "symlink"@,
        kind == KIND_FILE ==> spec_kind_label(kind) == "file"@,
        kind == KIND_DIRECTORY ==> spec_kind_label(kind) == "directory"@,
        kind == KIND_SYMLINK ==> spec_kind_label(kind) == "symlink"@,
{
}

/// Map a kind code to the label the facade presents to scripts.
pub fn kind_label(kind: u32) -> (label: String)
    ensures
        label@ == spec_kind_label(kind),
{
    if kind == KIND_FILE {
        String::from_str("file")
    } else if kind == KIND_DIRECTORY {
        String::from_str("directory")
    } else if kind == KIND_SYMLINK {
        String::from_str("symlink")
    } else {
        String::from_str("unknown")
    }
}

} // verus!
