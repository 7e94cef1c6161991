//! The op descriptor table.
//!
//! Each filesystem primitive is exposed to scripts as a named op. An op
//! carries a marshalling schema — the kind of each argument and of the return
//! value — and a fast-path flag: the engine may bind an op without engine-side
//! allocation exactly when every argument is a scalar, a string or a byte
//! buffer and the return needs no allocation (it is nothing, or a small
//! integer). The table is built once, before any user script runs, and is
//! frozen for the life of the runtime; op names are unique within it. The
//! engine's binding layer pairs each descriptor with its native function by
//! name.

use vstd::prelude::*;
use vstd::string::StringExecFns;

verus! {

/// The marshalling kind of one op argument.
#[derive(Clone, Copy, Debug, PartialEq, Eq, Structural)]
pub enum ArgKind {
    /// A string, passed by value.
    Str,
    /// A read-only byte buffer, borrowed for the call.
    BufRead,
    /// A mutable byte buffer, borrowed for the call and filled by the op.
    BufWrite,
    /// A small unsigned integer.
    SmallInt,
    /// A boolean flag.
    Bool,
    /// A compound value crossing the boundary serialized.
    Serialized,
}

/// The marshalling kind of an op's return value.
#[derive(Clone, Copy, Debug, PartialEq, Eq, Structural)]
pub enum RetKind {
    /// The op returns nothing.
    Unit,
    /// A small unsigned integer.
    SmallInt,
    /// An owned string.
    Str,
    /// An owned byte buffer.
    Buf,
    /// A compound value crossing the boundary serialized.
    Serialized,
}

/// Whether an argument kind is admissible on the engine's fast path.
pub open spec fn spec_arg_fast(arg: ArgKind) -> bool {
    arg != ArgKind::Serialized
}

/// Whether a return kind is admissible on the engine's fast path: the fast
/// path cannot allocate, so only an empty or small-integer return qualifies.
pub open spec fn spec_ret_fast(ret: RetKind) -> bool {
    ret == RetKind::Unit || ret == RetKind::SmallInt
}

/// Whether a whole schema is admissible on the fast path.
pub open spec fn spec_schema_fast(args: Seq<ArgKind>, ret: RetKind) -> bool {
    spec_ret_fast(ret) && forall|i: int| 0 <= i < args.len() ==> spec_arg_fast(#[trigger] args[i])
}

/// One op as the engine sees it: name, schema, and the fast-path flag the
/// binding layer honors.
pub struct OpDescriptor {
    /// The op's name, unique within a registry.
    pub name: String,
    /// The marshalling kind of each argument, in order.
    pub args: Vec<ArgKind>,
    /// The marshalling kind of the return value.
    pub ret: RetKind,
    /// Whether the engine may bind this op on its fast path.
    pub fast: bool,
}

impl OpDescriptor {
    /// Well-formed descriptor: the fast-path flag agrees with the schema.
    pub open spec fn wf(&self) -> bool {
        self.fast == spec_schema_fast(self.args@, self.ret)
    }

    /// Build a descriptor, computing the fast-path flag from the schema.
    pub fn new(name: String, args: Vec<ArgKind>, ret: RetKind) -> (d: OpDescriptor)
        ensures
            d.wf(),
            d.name@ == name@,
            d.args@ == args@,
            d.ret == ret,
    {
        let mut all_fast = ret == RetKind::Unit || ret == RetKind::SmallInt;
        let mut i: usize = 0;
        while i < args.len()
            invariant
                i <= args@.len(),
                all_fast == (spec_ret_fast(ret) && forall|j: int|
                    0 <= j < i ==> spec_arg_fast(#[trigger] args@[j])),
            decreases args@.len() - i,
        {
            if args[i] == ArgKind::Serialized {
                all_fast = false;
            }
            i = i + 1;
        }
        OpDescriptor { name, args, ret, fast: all_fast }
    }
}

/// The frozen set of ops registered with the engine.
pub struct OpRegistry {
    /// The descriptors, in registration order.
    pub ops: Vec<OpDescriptor>,
}

/// Whether a registry's sequence of descriptors holds an op of the given name.
pub open spec fn spec_has_name(ops: Seq<OpDescriptor>, name: Seq<char>) -> bool {
    exists|i: int| 0 <= i < ops.len() && (#[trigger] ops[i]).name@ == name
}

impl OpRegistry {
    /// Well-formed registry: every descriptor is well formed and no two
    /// descriptors share a name.
    pub open spec fn wf(&self) -> bool {
        &&& forall|i: int| 0 <= i < self.ops@.len() ==> (#[trigger] self.ops@[i]).wf()
        &&& forall|i: int, j: int|
            0 <= i < j < self.ops@.len() ==> self.ops@[i].name@ != self.ops@[j].name@
    }

    /// An empty registry.
    pub fn new() -> (r: OpRegistry)
        ensures
            r.wf(),
            r.ops@.len() == 0,
    {
        OpRegistry { ops: Vec::new() }
    }

    /// The number of registered ops.
    pub fn len(&self) -> (n: usize)
        ensures
            n == self.ops@.len(),
    {
        self.ops.len()
    }

    /// Look an op up by name: the index of the unique descriptor with that
    /// name, or nothing when no descriptor has it.
    pub fn find(&self, name: &String) -> (r: Option<usize>)
        ensures
            r matches Some(i) ==> i < self.ops@.len() && self.ops@[i as int].name@ == name@,
            r is None ==> !spec_has_name(self.ops@, name@),
    {
        let n = self.ops.len();
        let mut i: usize = 0;
        while i < n
            invariant
                i <= n,
                n == self.ops@.len(),
                forall|j: int| 0 <= j < i ==> (#[trigger] self.ops@[j]).name@ != name@,
            decreases n - i,
        {
            if self.ops[i].name == *name {
                return Some(i);
            }
            i = i + 1;
        }
        None
    }

    /// Register one op. Registration succeeds exactly when no op of the same
    /// name is already present; on failure the registry is unchanged.
    pub fn register(&mut self, d: OpDescriptor) -> (r: Result<(), ErrDuplicateOp>)
        requires
            old(self).wf(),
            d.wf(),
        ensures
            final(self).wf(),
            r is Ok <==> !spec_has_name(old(self).ops@, d.name@),
            r is Ok ==> final(self).ops@ == old(self).ops@.push(d),
            r is Err ==> final(self).ops@ == old(self).ops@,
    {
        match self.find(&d.name) {
            Some(_) => Err(ErrDuplicateOp {}),
            None => {
                self.ops.push(d);
                Ok(())
            },
        }
    }
}

/// Rejection of a second op under an already registered name.
#[derive(Clone, Copy, Debug, PartialEq, Eq, Structural)]
pub struct ErrDuplicateOp {}

} // verus!
