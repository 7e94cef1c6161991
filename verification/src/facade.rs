//! The script-side facade and its post-processing.
//!
//! User scripts never call the raw ops: a small script module, embedded in the
//! binary as a literal source string and evaluated once at runtime
//! construction, wraps them in a stable `fs` namespace. The facade performs
//! no I/O of its own; its only work beyond forwarding is post-processing,
//! whose meaning is stated and verified here: zipping the two parallel arrays
//! of a directory listing into records with labeled kinds, and translating an
//! options object's `recursive` member into the boolean the native op takes,
//! defaulting to false when absent.

use vstd::prelude::*;
use crate::kind::kind_label;
use crate::kind::spec_kind_label;
use crate::read_dir::ReadDirResult;
use crate::read_dir::spec_entries;

verus! {

/// One record of the facade's directory listing: the entry's name and the
/// string label of its kind.
pub struct DirEntry {
    /// The entry's name.
    pub name: String,
    /// The label of the entry's kind: one of `"unknown"`, `"file"`,
    /// `"directory"`, `"symlink"`.
    pub kind: String,
}

/// Zip the two parallel arrays of a listing into records, mapping each kind
/// code to its label — exactly the post-processing the facade performs on the
/// native listing before handing it to the script.
pub fn zip_entries(r: &ReadDirResult) -> (v: Vec<DirEntry>)
    requires
        r.wf(),
    ensures
        v@.len() == spec_entries(*r).len(),
        forall|i: int|
            0 <= i < v@.len() ==> (#[trigger] v@[i]).name@ == spec_entries(*r)[i].0 && v@[i].kind@
                == spec_kind_label(spec_entries(*r)[i].1),
{
    let mut v: Vec<DirEntry> = Vec::new();
    let n = r.names.len();
    let mut i: usize = 0;
    while i < n
        invariant
            i <= n,
            n == r.names@.len(),
            r.wf(),
            v@.len() == i as int,
            forall|j: int|
                0 <= j < i ==> (#[trigger] v@[j]).name@ == spec_entries(*r)[j].0 && v@[j].kind@
                    == spec_kind_label(spec_entries(*r)[j].1),
        decreases n - i,
    {
        let name = r.names[i].clone();
        let label = kind_label(r.kinds[i]);
        v.push(DirEntry { name, kind: label });
        i = i + 1;
    }
    v
}

/// The boolean handed to a native op for an optional `{ recursive }` member:
/// true exactly when the member is present and true; absent means false.
pub fn recursive_from_option(recursive: Option<bool>) -> (flag: bool)
    ensures
        flag == (recursive == Some(true)),
{
    match recursive {
        Some(b) => b,
        None => false,
    }
}

/// The facade's source, embedded in the binary. It is evaluated once, at
/// runtime construction, before any user script runs; a failure to evaluate
/// it is fatal. It wraps each registered op in the stable `fs` namespace and
/// performs only the post-processing stated above.
pub fn facade_source() -> &'static str {
    "(() => {\n  const ops = Deno.core.ops;\n  const kindLabels = [\"unknown\", \"file\", \"directory\", \"symlink\"];\n  const kindLabel = (k) => kindLabels[k] ?? \"unknown\";\n  const recursiveOf = (options) => (options && options.recursive) === true;\n  globalThis.fs = {\n    readTextFile: (path) => ops.op_fs_read_text_file(path),\n    readFile: (path) => ops.op_fs_read_file(path),\n    fileSize: (path) => ops.op_fs_file_size(path),\n    writeTextFile: (path, content) => ops.op_fs_write_text_file(path, content),\n    writeFile: (path, bytes) => ops.op_fs_write_file(path, bytes),\n    readInto: (path, buffer) => ops.op_fs_read_into(path, buffer),\n    readDir: (path) => {\n      const [names, kinds] = ops.op_fs_read_dir(path);\n      const entries = [];\n      for (let i = 0; i < names.length; i++) {\n        entries.push({ name: names[i], kind: kindLabel(kinds[i]) });\n      }\n      return entries;\n    },\n    mkdir: (path, options) => ops.op_fs_mkdir(path, recursiveOf(options)),\n    copy: (from, to) => ops.op_fs_copy(from, to),\n    rename: (from, to) => ops.op_fs_rename(from, to),\n    truncate: (path, length) => ops.op_fs_truncate(path, length),\n    remove: (path, options) => ops.op_fs_remove(path, recursiveOf(options)),\n  };\n})();\n"
}

} // verus!
