//! The filesystem op table.
//!
//! The twelve filesystem primitives, each with its name and marshalling
//! schema, registered in a fixed order. The table is built once at runtime
//! construction and is frozen afterwards; building it proves that the twelve
//! names are pairwise distinct, so registration never rejects a duplicate.

use vstd::prelude::*;
use vstd::string::StringExecFns;
use crate::registry::ArgKind;
use crate::registry::OpDescriptor;
use crate::registry::OpRegistry;
use crate::registry::RetKind;
use crate::registry::spec_has_name;

verus! {

/// A descriptor's name, schema and return kind, for stating the table.
pub open spec fn spec_descriptor(
    d: OpDescriptor,
    name: Seq<char>,
    args: Seq<ArgKind>,
    ret: RetKind,
) -> bool {
    d.name@ == name && d.args@ == args && d.ret == ret
}

/// A one-argument schema.
fn args1(a: ArgKind) -> (v: Vec<ArgKind>)
    ensures
        v@ == seq![a],
{
    let mut v: Vec<ArgKind> = Vec::new();
    v.push(a);
    proof {
        assert(v@ =~= seq![a]);
    }
    v
}

/// A two-argument schema.
fn args2(a: ArgKind, b: ArgKind) -> (v: Vec<ArgKind>)
    ensures
        v@ == seq![a, b],
{
    let mut v: Vec<ArgKind> = Vec::new();
    v.push(a);
    v.push(b);
    proof {
        assert(v@ =~= seq![a, b]);
    }
    v
}

/// Append one op to a registry whose names are known not to hold the new one.
fn add_op(reg: &mut OpRegistry, name: String, args: Vec<ArgKind>, ret: RetKind)
    requires
        old(reg).wf(),
        !spec_has_name(old(reg).ops@, name@),
    ensures
        final(reg).wf(),
        final(reg).ops@.len() == old(reg).ops@.len() + 1,
        forall|i: int|
            0 <= i < old(reg).ops@.len() ==> final(reg).ops@[i] == old(reg).ops@[i],
        spec_descriptor(
            final(reg).ops@[old(reg).ops@.len() as int],
            name@,
            args@,
            ret,
        ),
{
    let d = OpDescriptor::new(name, args, ret);
    let r = reg.register(d);
    match r {
        Ok(()) => {},
        Err(_) => {
            proof {
                assert(false);
            }
        },
    }
}

/// The pairwise distinctness of the twelve op names, made available as ground
/// facts about their views.
proof fn lemma_op_name_views()
    ensures
        "op_fs_read_text_file"@.len() == 20,
        "op_fs_file_size"@.len() == 15,
        "op_fs_read_file"@.len() == 15,
        "op_fs_write_text_file"@.len() == 21,
        "op_fs_write_file"@.len() == 16,
        "op_fs_read_into"@.len() == 15,
        "op_fs_read_dir"@.len() == 14,
        "op_fs_mkdir"@.len() == 11,
        "op_fs_copy"@.len() == 10,
        "op_fs_rename"@.len() == 12,
        "op_fs_truncate"@.len() == 14,
        "op_fs_remove"@.len() == 12,
        "op_fs_file_size"@[6] == 'f',
        "op_fs_read_file"@[6] == 'r',
        "op_fs_read_into"@[6] == 'r',
        "op_fs_read_file"@[11] == 'f',
        "op_fs_read_into"@[11] == 'i',
        "op_fs_read_dir"@[6] == 'r',
        "op_fs_truncate"@[6] == 't',
        "op_fs_rename"@[8] == 'n',
        "op_fs_remove"@[8] == 'm',
{
    reveal_strlit("op_fs_read_text_file");
    reveal_strlit("op_fs_file_size");
    reveal_strlit("op_fs_read_file");
    reveal_strlit("op_fs_write_text_file");
    reveal_strlit("op_fs_write_file");
    reveal_strlit("op_fs_read_into");
    reveal_strlit("op_fs_read_dir");
    reveal_strlit("op_fs_mkdir");
    reveal_strlit("op_fs_copy");
    reveal_strlit("op_fs_rename");
    reveal_strlit("op_fs_truncate");
    reveal_strlit("op_fs_remove");
}

/// Build the filesystem op table: the twelve primitives in registration
/// order, each with the schema the engine marshals it by. The registry is
/// well formed — names unique, every fast-path flag agreeing with its schema.
pub fn ion_fs_ops() -> (reg: OpRegistry)
    ensures
        reg.wf(),
        reg.ops@.len() == 12,
        spec_descriptor(reg.ops@[0], "op_fs_read_text_file"@, seq![ArgKind::Str], RetKind::Str),
        spec_descriptor(reg.ops@[1], "op_fs_file_size"@, seq![ArgKind::Str], RetKind::SmallInt),
        spec_descriptor(reg.ops@[2], "op_fs_read_file"@, seq![ArgKind::Str], RetKind::Buf),
        spec_descriptor(
            reg.ops@[3],
            "op_fs_write_text_file"@,
            seq![ArgKind::Str, ArgKind::Str],
            RetKind::Unit,
        ),
        spec_descriptor(
            reg.ops@[4],
            "op_fs_write_file"@,
            seq![ArgKind::Str, ArgKind::BufRead],
            RetKind::Unit,
        ),
        spec_descriptor(
            reg.ops@[5],
            "op_fs_read_into"@,
            seq![ArgKind::Str, ArgKind::BufWrite],
            RetKind::Unit,
        ),
        spec_descriptor(reg.ops@[6], "op_fs_read_dir"@, seq![ArgKind::Str], RetKind::Serialized),
        spec_descriptor(
            reg.ops@[7],
            "op_fs_mkdir"@,
            seq![ArgKind::Str, ArgKind::Bool],
            RetKind::Unit,
        ),
        spec_descriptor(
            reg.ops@[8],
            "op_fs_copy"@,
            seq![ArgKind::Str, ArgKind::Str],
            RetKind::Unit,
        ),
        spec_descriptor(
            reg.ops@[9],
            "op_fs_rename"@,
            seq![ArgKind::Str, ArgKind::Str],
            RetKind::Unit,
        ),
        spec_descriptor(
            reg.ops@[10],
            "op_fs_truncate"@,
            seq![ArgKind::Str, ArgKind::SmallInt],
            RetKind::Unit,
        ),
        spec_descriptor(
            reg.ops@[11],
            "op_fs_remove"@,
            seq![ArgKind::Str, ArgKind::Bool],
            RetKind::Unit,
        ),
{
    proof {
        lemma_op_name_views();
    }
    let mut reg = OpRegistry::new();
    add_op(&mut reg, String::from_str("op_fs_read_text_file"), args1(ArgKind::Str), RetKind::Str);
    add_op(&mut reg, String::from_str("op_fs_file_size"), args1(ArgKind::Str), RetKind::SmallInt);
    add_op(&mut reg, String::from_str("op_fs_read_file"), args1(ArgKind::Str), RetKind::Buf);
    add_op(
        &mut reg,
        String::from_str("op_fs_write_text_file"),
        args2(ArgKind::Str, ArgKind::Str),
        RetKind::Unit,
    );
    add_op(
        &mut reg,
        String::from_str("op_fs_write_file"),
        args2(ArgKind::Str, ArgKind::BufRead),
        RetKind::Unit,
    );
    add_op(
        &mut reg,
        String::from_str("op_fs_read_into"),
        args2(ArgKind::Str, ArgKind::BufWrite),
        RetKind::Unit,
    );
    add_op(&mut reg, String::from_str("op_fs_read_dir"), args1(ArgKind::Str), RetKind::Serialized);
    add_op(
        &mut reg,
        String::from_str("op_fs_mkdir"),
        args2(ArgKind::Str, ArgKind::Bool),
        RetKind::Unit,
    );
    add_op(
        &mut reg,
        String::from_str("op_fs_copy"),
        args2(ArgKind::Str, ArgKind::Str),
        RetKind::Unit,
    );
    add_op(
        &mut reg,
        String::from_str("op_fs_rename"),
        args2(ArgKind::Str, ArgKind::Str),
        RetKind::Unit,
    );
    add_op(
        &mut reg,
        String::from_str("op_fs_truncate"),
        args2(ArgKind::Str, ArgKind::SmallInt),
        RetKind::Unit,
    );
    add_op(
        &mut reg,
        String::from_str("op_fs_remove"),
        args2(ArgKind::Str, ArgKind::Bool),
        RetKind::Unit,
    );
    reg
}

} // verus!
