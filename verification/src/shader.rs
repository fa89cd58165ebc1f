//! Shader-artifact loading logic: the path convention that locates a
//! precompiled shader blob for the active backend, and the preparation of the
//! blob bytes for the backend's shader compiler.
//!
//! Reading the file itself is I/O and stays with the caller; this module
//! settles everything the read sits between: which path to open, and what the
//! uploaded buffer must look like.

use vstd::prelude::*;
use crate::backend::{segment_for, segment_spec, supported, BackendKind, ConfigError};

verus! {

/// The on-disk location of a shader blob: `shaders/<segment>/<name>.bin`.
pub open spec fn shader_path_spec(kind: BackendKind, name: Seq<char>) -> Seq<char> {
    "shaders/"@ + segment_spec(kind) + "/"@ + name + ".bin"@
}

/// Builds the path of the shader artifact `name` for the given backend kind.
/// The unsupported kind fails here, before the filesystem is ever touched.
pub fn shader_path(kind: BackendKind, name: &str) -> (r: Result<String, ConfigError>)
    ensures
        r is Ok <==> supported(kind),
        r matches Ok(p) ==> p@ == shader_path_spec(kind, name@),
        r matches Err(e) ==> e == ConfigError::UnsupportedBackend,
{
    let segment = match segment_for(kind) {
        Ok(s) => s,
        Err(e) => {
            return Err(e);
        },
    };
    let mut path = String::from_str("shaders/");
    path.append(segment);
    path.append("/");
    path.append(name);
    path.append(".bin");
    Ok(path)
}

/// A shader blob as handed to the backend compiler: the file bytes followed by
/// a single zero terminator byte.
pub open spec fn prepared_blob_spec(data: Seq<u8>) -> Seq<u8> {
    data.push(0u8)
}

/// Appends the terminator byte the backend shader compiler requires to a blob
/// read from disk.
pub fn terminate_blob(data: &mut Vec<u8>)
    requires
        old(data)@.len() < usize::MAX,
    ensures
        final(data)@ == prepared_blob_spec(old(data)@),
        final(data)@.len() == old(data)@.len() + 1,
{
    data.push(0u8);
}

/// Loading is idempotent: unchanged file bytes always prepare into the same
/// blob, one byte longer than the file, ending in the terminator and carrying
/// the file bytes unchanged before it.
pub proof fn lemma_prepared_blob_stable(d1: Seq<u8>, d2: Seq<u8>)
    requires
        d1 == d2,
    ensures
        prepared_blob_spec(d1) == prepared_blob_spec(d2),
        prepared_blob_spec(d1).len() == d1.len() + 1,
        prepared_blob_spec(d1)[d1.len() as int] == 0u8,
        forall|i: int| 0 <= i < d1.len() ==> prepared_blob_spec(d1)[i] == d1[i],
{
}

} // verus!
