//! Compute cores of the filesystem primitives.
//!
//! Each primitive is a thin shell around the operating system: the shell
//! performs the system calls, and the logic that decides and transforms lives
//! here. The cores take plain values (byte vectors, lengths, flags) and are
//! verified for every value the shell can hand them.

use vstd::prelude::*;
use crate::error::ErrKind;

verus! {

/// The size reported for a file, truncated to 32 bits.
///
/// The size primitive never fails: when no metadata is available (the path is
/// absent or unreadable) it reports zero. Sizes above `u32::MAX` are out of
/// contract and wrap by truncation.
pub fn file_size_of(meta_len: Option<u64>) -> (size: u32)
    ensures
        meta_len is None ==> size == 0,
        meta_len matches Some(n) ==> size == n as u32,
        meta_len matches Some(n) ==> (n <= u32::MAX ==> size == n),
{
    match meta_len {
        None => 0,
        Some(n) => n as u32,
    }
}

/// Fill a caller-provided buffer with the leading bytes of `data`.
///
/// This is the core of the read-into primitive: the buffer's length is the
/// exact read size. A source shorter than the buffer is an error — the end of
/// the file was reached before the requested count — and the buffer is then
/// left as it was. On success every byte of the buffer equals the byte of
/// `data` at the same position.
pub fn fill_exact(data: &Vec<u8>, buf: &mut Vec<u8>) -> (r: Result<(), ErrKind>)
    ensures
        r is Ok <==> data@.len() >= old(buf)@.len(),
        final(buf)@.len() == old(buf)@.len(),
        r is Ok ==> final(buf)@ == data@.subrange(0, old(buf)@.len() as int),
        r is Err ==> r == Err::<(), ErrKind>(ErrKind::UnexpectedEof) && final(buf)@ == old(buf)@,
{
    let want = buf.len();
    if data.len() < want {
        return Err(ErrKind::UnexpectedEof);
    }
    let mut filled: Vec<u8> = Vec::new();
    let mut i: usize = 0;
    while i < want
        invariant
            i <= want,
            want <= data@.len(),
            filled@.len() == i as int,
            filled@ == data@.subrange(0, i as int),
        decreases want - i,
    {
        filled.push(data[i]);
        proof {
            assert(filled@ =~= data@.subrange(0, i as int + 1));
        }
        i = i + 1;
    }
    *buf = filled;
    Ok(())
}

/// The error std returns when a byte vector is not valid UTF-8, declared so
/// that the decoding call below can be given its contract.
#[verifier::external_type_specification]
#[verifier::external_body]
pub struct ExFromUtf8Error(std::string::FromUtf8Error);

/// Relies on String::from_utf8: it returns the bytes decoded as UTF-8 text
/// exactly when they are valid UTF-8, and rejects them otherwise.
pub assume_specification[ String::from_utf8 ](
    bytes: Vec<u8>,
) -> (r: Result<String, std::string::FromUtf8Error>)
    ensures
        r is Ok <==> vstd::utf8::valid_utf8(bytes@),
        r matches Ok(s) ==> s@ == vstd::utf8::decode_utf8(bytes@),
;

/// Decode the bytes of a file as text.
///
/// This is the core of the read-text primitive: bytes that are not valid
/// UTF-8 are an error, never decoded lossily.
pub fn text_of_bytes(bytes: Vec<u8>) -> (r: Result<String, ErrKind>)
    ensures
        r is Ok <==> vstd::utf8::valid_utf8(bytes@),
        r matches Ok(s) ==> s@ == vstd::utf8::decode_utf8(bytes@),
        r is Err ==> r == Err::<String, ErrKind>(ErrKind::InvalidUtf8),
{
    match String::from_utf8(bytes) {
        Ok(s) => Ok(s),
        Err(_) => Err(ErrKind::InvalidUtf8),
    }
}

/// How the make-directory primitive creates its target.
#[derive(Clone, Copy, Debug, PartialEq, Eq, Structural)]
pub enum MkdirMode {
    /// Create the one directory named; its parent must already exist.
    SingleLevel,
    /// Create the directory and every missing parent along the way.
    WithParents,
}

/// The creation mode selected by the primitive's recursive flag.
pub fn mkdir_mode(recursive: bool) -> (mode: MkdirMode)
    ensures
        mode == (if recursive {
            MkdirMode::WithParents
        } else {
            MkdirMode::SingleLevel
        }),
{
    if recursive {
        MkdirMode::WithParents
    } else {
        MkdirMode::SingleLevel
    }
}

/// How the remove primitive deletes its target.
#[derive(Clone, Copy, Debug, PartialEq, Eq, Structural)]
pub enum RemovePlan {
    /// Delete a directory together with everything under it.
    RemoveTree,
    /// Try deleting a single file; if that fails, try deleting an empty
    /// directory of the same name.
    FileThenEmptyDir,
}

/// The deletion plan selected by the primitive's recursive flag.
pub fn remove_plan(recursive: bool) -> (plan: RemovePlan)
    ensures
        plan == (if recursive {
            RemovePlan::RemoveTree
        } else {
            RemovePlan::FileThenEmptyDir
        }),
{
    if recursive {
        RemovePlan::RemoveTree
    } else {
        RemovePlan::FileThenEmptyDir
    }
}

/// Whether the truncate primitive must fall back to opening the file.
///
/// The primitive first attempts the direct truncate system call; only when
/// that attempt fails (or the system lacks the call) does it open the file
/// for writing and set its length instead.
pub fn truncate_fallback_needed(direct_ok: bool) -> (fallback: bool)
    ensures
        fallback == !direct_ok,
{
    !direct_ok
}

} // verus!
