use vstd::prelude::*;

verus! {

/// Authorization guard shared by both programs: the caller may proceed
/// only when its canonical identity equals the stored owner identity.
pub fn is_owner(caller: &Vec<u8>, owner: &Vec<u8>) -> (r: bool)
    ensures
        r == (caller@ == owner@),
{
    if caller.len() != owner.len() {
        assert(caller@ != owner@);
        return false;
    }
    let mut i: usize = 0;
    while i < caller.len()
        invariant
            0 <= i <= caller.len(),
            caller@.len() == owner@.len(),
            forall|j: int| 0 <= j < i ==> caller@[j] == owner@[j],
        decreases caller.len() - i,
    {
        if caller[i] != owner[i] {
            assert(caller@ != owner@);
            return false;
        }
        i += 1;
    }
    proof {
        assert(caller@ =~= owner@);
    }
    true
}

} // verus!
