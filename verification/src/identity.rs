use vstd::prelude::*;

verus! {

/// An account or contract identity. The ledger only ever compares identities
/// and uses them as keys, so an identity is the number that stands for it.
pub type Identity = u64;

/// An opaque identifier of an executable code version.
pub type CodeId = [u8; 32];

/// What the authorization oracle has confirmed for one invocation: the
/// identities whose control the caller has proven.
pub struct AuthProof {
    proven: Vec<Identity>,
}

impl View for AuthProof {
    type V = Set<Identity>;

    closed spec fn view(&self) -> Set<Identity> {
        self.proven@.to_set()
    }
}

impl AuthProof {
    /// No identity has proven control.
    pub fn none() -> (proof: AuthProof)
        ensures
            proof@ == Set::<Identity>::empty(),
    {
        AuthProof { proven: Vec::new() }
    }

    /// Exactly `identity` has proven control.
    pub fn of(identity: Identity) -> (proof: AuthProof)
        ensures
            proof@ == Set::<Identity>::empty().insert(identity),
    {
        AuthProof::none().and(identity)
    }

    /// Records that `identity` has proven control as well.
    pub fn and(self, identity: Identity) -> (proof: AuthProof)
        ensures
            proof@ == self@.insert(identity),
    {
        let mut proven = self.proven;
        let ghost before = proven@;
        proven.push(identity);
        assert(proven@.to_set() =~= before.to_set().insert(identity)) by {
            assert(proven@.last() == identity);
            assert forall|x: Identity| before.contains(x) implies proven@.contains(x) by {
                let i = choose|i: int| 0 <= i < before.len() && before[i] == x;
                assert(proven@[i] == x);
            }
        }
        AuthProof { proven }
    }

    /// Whether the oracle has confirmed control of `identity`.
    pub fn proves(&self, identity: Identity) -> (confirmed: bool)
        ensures
            confirmed == self@.contains(identity),
    {
        let mut i: usize = 0;
        while i < self.proven.len()
            invariant
                i <= self.proven.len(),
                forall|j: int| 0 <= j < i ==> self.proven@[j] != identity,
            decreases self.proven.len() - i,
        {
            if self.proven[i] == identity {
                return true;
            }
            i += 1;
        }
        false
    }
}

} // verus!
