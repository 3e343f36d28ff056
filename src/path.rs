use vstd::prelude::*;

verus! {

/// The path as handed to the native call: its bytes followed by one NUL.
pub open spec fn nul_terminated(path: Seq<u8>) -> Seq<u8> {
    path.push(0u8)
}

/// Whether the path holds a NUL byte, which a C string cannot carry.
pub open spec fn has_interior_nul(path: Seq<u8>) -> bool {
    exists|i: int| 0 <= i < path.len() && path[i] == 0u8
}

/// Builds the NUL-terminated form of a path. Returns `None` exactly when the
/// path itself holds a NUL byte: such a path is refused, never cut short.
pub fn c_path(path: &[u8]) -> (r: Option<Vec<u8>>)
    ensures
        r is None <==> has_interior_nul(path@),
        r matches Some(v) ==> v@ == nul_terminated(path@),
{
    let mut out: Vec<u8> = Vec::new();
    let mut i: usize = 0;
    while i < path.len()
        invariant
            i <= path@.len(),
            out@ == path@.subrange(0, i as int),
            forall|j: int| 0 <= j < i ==> path@[j] != 0u8,
        decreases path@.len() - i,
    {
        let b = path[i];
        if b == 0 {
            return None;
        }
        out.push(b);
        i = i + 1;
    }
    assert(out@ == path@);
    out.push(0);
    Some(out)
}

} // verus!
