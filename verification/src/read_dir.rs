//! Collection of a directory listing.
//!
//! The listing primitive walks a directory stream and materializes the whole
//! listing before returning: two index-aligned sequences, one of names and one
//! of kind codes. The walk skips the stream's `"."` and `".."` entries (and
//! any entry with an empty name, which a stream never ought to yield) and maps
//! each raw type flag to a kind code. The shell around this module only reads
//! the stream; everything it does with what it read is decided here.

use vstd::prelude::*;
use vstd::string::StringExecFns;
use crate::kind::kind_in_range;
use crate::kind::kind_of_dtype;
use crate::kind::spec_kind_of_dtype;

verus! {

/// One entry as the directory stream yields it: the name and the raw type
/// flag, before any filtering or classification.
pub struct RawEntry {
    /// The entry's name, decoded from the stream's bytes.
    pub name: String,
    /// The stream's raw type flag for the entry.
    pub dtype: u32,
}

impl View for RawEntry {
    type V = (Seq<char>, u32);

    open spec fn view(&self) -> (Seq<char>, u32) {
        (self.name@, self.dtype)
    }
}

/// Whether a raw entry is dropped from the listing: the stream's own `"."`
/// and `".."` entries, and any entry with an empty name.
pub open spec fn spec_skipped(name: Seq<char>) -> bool {
    name.len() == 0 || name == "."@ || name == ".."@
}

/// Decide whether a raw entry is dropped from the listing.
pub fn is_skipped_name(name: &String) -> (skipped: bool)
    ensures
        skipped == spec_skipped(name@),
{
    let dot = String::from_str(".");
    let dotdot = String::from_str("..");
    name.as_str().is_empty() || *name == dot || *name == dotdot
}

/// The fully materialized result of listing a directory: two index-aligned
/// sequences of equal length, names beside kind codes.
pub struct ReadDirResult {
    /// The entries' names, in the order the directory stream yielded them.
    pub names: Vec<String>,
    /// The entries' kind codes, aligned with `names` by index.
    pub kinds: Vec<u32>,
}

/// The entries of a listing as one sequence of (name, kind) pairs.
pub open spec fn spec_entries(r: ReadDirResult) -> Seq<(Seq<char>, u32)> {
    Seq::new(r.names@.len(), |i: int| (r.names@[i]@, r.kinds@[i]))
}

/// What the listing of a stream's raw entries is: the skipped entries
/// dropped, every kept name paired with the kind code of its type flag, in
/// stream order.
pub open spec fn spec_collect(raw: Seq<(Seq<char>, u32)>) -> Seq<(Seq<char>, u32)>
    decreases raw.len(),
{
    if raw.len() == 0 {
        Seq::empty()
    } else {
        let rest = spec_collect(raw.drop_last());
        let last = raw.last();
        if spec_skipped(last.0) {
            rest
        } else {
            rest.push((last.0, spec_kind_of_dtype(last.1)))
        }
    }
}

impl ReadDirResult {
    /// Well-formed listing: the two sequences are index-aligned and of equal
    /// length, every kind code is in range, and no skipped name — in
    /// particular neither `"."` nor `".."` — appears.
    pub open spec fn wf(&self) -> bool {
        &&& self.names@.len() == self.kinds@.len()
        &&& forall|i: int|
            0 <= i < self.kinds@.len() ==> kind_in_range(#[trigger] self.kinds@[i])
        &&& forall|i: int| 0 <= i < self.names@.len() ==> !spec_skipped(#[trigger] self.names@[i]@)
    }

    /// An empty listing, as returned for a path that is absent, unreadable,
    /// or not a directory.
    pub fn empty() -> (r: ReadDirResult)
        ensures
            r.wf(),
            spec_entries(r) == Seq::<(Seq<char>, u32)>::empty(),
            r.names@.len() == 0,
    {
        let r = ReadDirResult { names: Vec::new(), kinds: Vec::new() };
        proof {
            assert(spec_entries(r) =~= Seq::<(Seq<char>, u32)>::empty());
        }
        r
    }

    /// The number of entries in the listing.
    pub fn len(&self) -> (n: usize)
        requires
            self.wf(),
        ensures
            n == spec_entries(*self).len(),
    {
        self.names.len()
    }
}

/// Materialize a directory listing from the raw entries of the stream.
///
/// Stream order is kept; `"."`, `".."` and empty names are dropped; each
/// kept entry's type flag is mapped to its kind code.
pub fn collect_entries(raw: Vec<RawEntry>) -> (r: ReadDirResult)
    ensures
        r.wf(),
        spec_entries(r) == spec_collect(raw@.map_values(|e: RawEntry| e@)),
{
    let ghost all: Seq<(Seq<char>, u32)> = raw@.map_values(|e: RawEntry| e@);
    let mut names: Vec<String> = Vec::new();
    let mut kinds: Vec<u32> = Vec::new();
    let n = raw.len();
    let mut i: usize = 0;
    while i < n
        invariant
            i <= n,
            n == raw@.len(),
            all == raw@.map_values(|e: RawEntry| e@),
            all.len() == n,
            names@.len() == kinds@.len(),
            forall|j: int| 0 <= j < kinds@.len() ==> kind_in_range(#[trigger] kinds@[j]),
            forall|j: int| 0 <= j < names@.len() ==> !spec_skipped(#[trigger] names@[j]@),
            Seq::new(names@.len(), |j: int| (names@[j]@, kinds@[j])) == spec_collect(
                all.subrange(0, i as int),
            ),
        decreases n - i,
    {
        let ghost prefix = all.subrange(0, i as int);
        let ghost entries_before = Seq::new(names@.len(), |j: int| (names@[j]@, kinds@[j]));
        let entry = &raw[i];
        if !is_skipped_name(&entry.name) {
            let kind = kind_of_dtype(entry.dtype);
            names.push(entry.name.clone());
            kinds.push(kind);
        }
        i = i + 1;
        proof {
            let next = all.subrange(0, i as int);
            assert(next.drop_last() =~= prefix);
            assert(next.last() == all[i - 1]);
            assert(all[i - 1] == raw@[i - 1]@);
            let entries_now = Seq::new(names@.len(), |j: int| (names@[j]@, kinds@[j]));
            if spec_skipped(raw@[i - 1]@.0) {
                assert(entries_now =~= spec_collect(next));
            } else {
                assert(entries_now =~= entries_before.push(
                    (raw@[i - 1].name@, spec_kind_of_dtype(raw@[i - 1].dtype)),
                ));
                assert(entries_now =~= spec_collect(next));
            }
        }
    }
    let r = ReadDirResult { names, kinds };
    proof {
        assert(all.subrange(0, n as int) =~= all);
        assert(spec_entries(r) =~= Seq::new(r.names@.len(), |j: int| (r.names@[j]@, r.kinds@[j])));
    }
    r
}

/// Every listing a stream can yield is clean: no skipped name survives and
/// every kind code is in range, at every index.
pub proof fn lemma_collect_entries_clean(raw: Seq<(Seq<char>, u32)>)
    ensures
        forall|i: int|
            0 <= i < spec_collect(raw).len() ==> !spec_skipped(#[trigger] spec_collect(raw)[i].0),
        forall|i: int|
            0 <= i < spec_collect(raw).len() ==> kind_in_range(#[trigger] spec_collect(raw)[i].1),
    decreases raw.len(),
{
    if raw.len() > 0 {
        lemma_collect_entries_clean(raw.drop_last());
        let rest = spec_collect(raw.drop_last());
        let last = raw.last();
        if !spec_skipped(last.0) {
            assert(spec_collect(raw) == rest.push((last.0, spec_kind_of_dtype(last.1))));
            assert forall|i: int| 0 <= i < spec_collect(raw).len() implies !spec_skipped(
                #[trigger] spec_collect(raw)[i].0,
            ) && kind_in_range(spec_collect(raw)[i].1) by {
                if i < rest.len() {
                    assert(spec_collect(raw)[i] == rest[i]);
                } else {
                    assert(spec_collect(raw)[i] == (last.0, spec_kind_of_dtype(last.1)));
                }
            }
        }
    }
}

} // verus!
