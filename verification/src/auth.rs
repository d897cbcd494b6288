use vstd::prelude::*;

verus! {

// The host's authorization oracle, seen as data. Before a call reaches the
// core, the host verifies which identities sanctioned it; the core receives
// that verdict as the list of authorized identities and never inspects
// proofs itself.

/// Whether `id` is among the identities that authorized the current call.
pub fn is_authorized(auths: &Vec<u64>, id: u64) -> (b: bool)
    ensures
        b == auths@.contains(id),
{
    let mut i: usize = 0;
    while i < auths.len()
        invariant
            i <= auths@.len(),
            forall|k: int| 0 <= k < i ==> auths@[k] != id,
        decreases auths@.len() - i,
    {
        if auths[i] == id {
            proof {
                assert(auths@[i as int] == id);
            }
            return true;
        }
        i = i + 1;
    }
    false
}

} // verus!
