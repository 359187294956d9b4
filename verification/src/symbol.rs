//! The symbol-name data model: a NUL-terminated byte string whose bytes end
//! in a zero byte and contain no interior zero.  A symbol name must either be
//! stored already terminated or have its termination enforced at
//! construction; the checks here are that enforcement.

use vstd::prelude::*;

verus! {

/// A well-formed NUL-terminated symbol name: non-empty, ends in a zero byte,
/// no interior zero.
pub open spec fn nul_terminated(bytes: Seq<u8>) -> bool {
    &&& bytes.len() >= 1
    &&& bytes[bytes.len() - 1] == 0
    &&& forall|i: int| 0 <= i < bytes.len() - 1 ==> bytes[i] != 0
}

/// Checks that a byte string is a well-formed NUL-terminated symbol name.
pub fn check_nul_terminated(bytes: &Vec<u8>) -> (r: bool)
    ensures
        r == nul_terminated(bytes@),
{
    let n = bytes.len();
    if n == 0 {
        return false;
    }
    if bytes[n - 1] != 0 {
        return false;
    }
    let mut i: usize = 0;
    while i < n - 1
        invariant
            i <= n - 1,
            n == bytes@.len(),
            n >= 1,
            forall|k: int| 0 <= k < i ==> bytes@[k] != 0,
        decreases n - 1 - i,
    {
        if bytes[i] == 0 {
            return false;
        }
        i = i + 1;
    }
    true
}

/// Terminates a bare name: appends the zero byte if the name holds no zero
/// already, and rejects a name with an interior zero.
pub fn terminate(name: &Vec<u8>) -> (r: Option<Vec<u8>>)
    ensures
        match r {
            Some(t) => t@ == name@.push(0u8) && nul_terminated(t@),
            None => exists|i: int| 0 <= i < name@.len() && name@[i] == 0,
        },
{
    let n = name.len();
    let mut out: Vec<u8> = Vec::new();
    let mut i: usize = 0;
    while i < n
        invariant
            i <= n,
            n == name@.len(),
            out@ =~= name@.subrange(0, i as int),
            forall|k: int| 0 <= k < i ==> name@[k] != 0,
        decreases n - i,
    {
        let b = name[i];
        if b == 0 {
            return None;
        }
        out.push(b);
        i = i + 1;
    }
    out.push(0);
    proof {
        assert(out@ =~= name@.push(0u8));
    }
    Some(out)
}

} // verus!
