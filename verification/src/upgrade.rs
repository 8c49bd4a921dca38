//! The upgrade manager: remembers which code replaced the one deployed with
//! the contract. It checks nothing about the new code and migrates no data.

use vstd::prelude::*;
use crate::identity::CodeId;

verus! {

/// The code that replaced the one deployed with the contract, if any did.
pub struct UpgradeManager {
    code_version: Option<CodeId>,
}

impl View for UpgradeManager {
    type V = Option<CodeId>;

    closed spec fn view(&self) -> Option<CodeId> {
        self.code_version
    }
}

impl UpgradeManager {
    /// The manager of a contract that still runs the code it was deployed with.
    pub fn new() -> (upgrades: UpgradeManager)
        ensures
            upgrades@ is None,
    {
        UpgradeManager { code_version: None }
    }

    /// The code that replaced the one deployed with the contract; `None` if none
    /// did.
    pub fn code_version(&self) -> (code: Option<CodeId>)
        ensures
            code == self@,
    {
        self.code_version
    }

    /// Makes `new_code_id` the running code.
    pub fn replace(&mut self, new_code_id: CodeId)
        ensures
            final(self)@ == Some(new_code_id),
    {
        self.code_version = Some(new_code_id);
    }
}

} // verus!
