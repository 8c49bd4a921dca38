//! The access controller: holds the single owner and decides whether a
//! claimed caller may act as the owner.

use vstd::prelude::*;
use crate::error::ExampleContractError;
use crate::identity::{AuthProof, Identity};
use crate::model;

verus! {

/// The stored owner. There is no way to change it once it is set.
pub struct AccessController {
    owner: Option<Identity>,
}

impl View for AccessController {
    type V = Option<Identity>;

    closed spec fn view(&self) -> Option<Identity> {
        self.owner
    }
}

impl AccessController {
    /// A controller whose owner was never stored: every owner check on it
    /// fails.
    pub fn uninitialized() -> (access: AccessController)
        ensures
            access@ is None,
    {
        AccessController { owner: None }
    }

    /// A controller with `owner` stored.
    pub fn new(owner: Identity) -> (access: AccessController)
        ensures
            access@ == Some(owner),
    {
        AccessController { owner: Some(owner) }
    }

    /// The stored owner, if there is one.
    pub fn owner(&self) -> (owner: Option<Identity>)
        ensures
            owner == self@,
    {
        self.owner
    }

    /// Succeeds only if the oracle confirmed control of `claimed_caller` and
    /// `claimed_caller` is the stored owner. Fails with `Unauthorized` without
    /// the proof, whoever is claimed; with `NotInitialized` if no owner is
    /// stored; with `Unauthorized` if the proven caller is not the owner.
    pub fn require_owner(&self, auth: &AuthProof, claimed_caller: Identity) -> (result: Result<
        (),
        ExampleContractError,
    >)
        ensures
            result == model::require_owner(self@, auth@, claimed_caller),
            result is Ok <==> auth@.contains(claimed_caller) && self@ == Some(claimed_caller),
    {
        if !auth.proves(claimed_caller) {
            return Err(ExampleContractError::Unauthorized);
        }
        match self.owner {
            None => Err(ExampleContractError::NotInitialized),
            Some(stored) => if stored == claimed_caller {
                Ok(())
            } else {
                Err(ExampleContractError::Unauthorized)
            },
        }
    }

    /// The owner check for entrypoints that name no caller: the claimed
    /// caller is the stored owner itself. Fails with `NotInitialized` if no
    /// owner is stored, with `Unauthorized` if the oracle did not confirm
    /// control of the owner.
    pub fn require_stored_owner(&self, auth: &AuthProof) -> (result: Result<
        (),
        ExampleContractError,
    >)
        ensures
            result == model::require_stored_owner(self@, auth@),
            result is Ok <==> self@ is Some && auth@.contains(self@->Some_0),
    {
        match self.owner {
            None => Err(ExampleContractError::NotInitialized),
            Some(stored) => self.require_owner(auth, stored),
        }
    }
}

} // verus!
