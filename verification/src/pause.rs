//! The pause gate: a two-state switch, Active or Paused, that the
//! value-moving entrypoints consult first.

use vstd::prelude::*;
use crate::error::ExampleContractError;

verus! {

/// The pause flag. Its view is `true` while Paused.
pub struct PauseGate {
    paused: bool,
}

impl View for PauseGate {
    type V = bool;

    closed spec fn view(&self) -> bool {
        self.paused
    }
}

impl PauseGate {
    /// A gate in its initial state, Active.
    pub fn new() -> (gate: PauseGate)
        ensures
            !gate@,
    {
        PauseGate { paused: false }
    }

    /// Whether the switch stands at Paused.
    pub fn paused(&self) -> (paused: bool)
        ensures
            paused == self@,
    {
        self.paused
    }

    /// Goes to Paused. Pausing a paused gate asserts the flag again.
    pub fn pause(&mut self)
        ensures
            final(self)@,
    {
        self.paused = true;
    }

    /// Goes to Active. Unpausing an active gate clears the flag again.
    pub fn unpause(&mut self)
        ensures
            !final(self)@,
    {
        self.paused = false;
    }

    /// The guard of every value-moving entrypoint: fails with
    /// `ContractPaused` exactly while the switch stands at Paused.
    pub fn when_not_paused(&self) -> (result: Result<(), ExampleContractError>)
        ensures
            result == if self@ {
                Err::<(), ExampleContractError>(ExampleContractError::ContractPaused)
            } else {
                Ok::<(), ExampleContractError>(())
            },
    {
        if self.paused {
            Err(ExampleContractError::ContractPaused)
        } else {
            Ok(())
        }
    }
}

} // verus!
