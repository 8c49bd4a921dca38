//! The entrypoints. Each one consults the pause gate where it applies, then
//! the authorization, then lets the ledger do the bookkeeping; a call that
//! fails anywhere on the way has changed nothing.

use vstd::prelude::*;
use crate::access::AccessController;
use crate::error::ExampleContractError;
use crate::identity::{AuthProof, CodeId, Identity};
use crate::ledger::LedgerCore;
use crate::model::{follows, ContractState};
use crate::pause::PauseGate;
use crate::upgrade::UpgradeManager;

verus! {

/// The whole persisted state of the token: owner, pause flag, ledger and
/// code version.
pub struct ExampleContract {
    access: AccessController,
    gate: PauseGate,
    ledger: LedgerCore,
    upgrades: UpgradeManager,
}

impl View for ExampleContract {
    type V = ContractState;

    closed spec fn view(&self) -> ContractState {
        ContractState {
            owner: self.access@,
            paused: self.gate@,
            ledger: self.ledger@,
            code_version: self.upgrades@,
        }
    }
}

/// An identity's proof of control, or `Unauthorized` without it.
fn require_proof(auth: &AuthProof, identity: Identity) -> (result: Result<
    (),
    ExampleContractError,
>)
    ensures
        result == crate::model::require_proof(auth@, identity),
{
    if auth.proves(identity) {
        Ok(())
    } else {
        Err(ExampleContractError::Unauthorized)
    }
}

impl ExampleContract {
    /// Puts a contract together from its four components as they were
    /// persisted.
    pub fn from_parts(
        access: AccessController,
        gate: PauseGate,
        ledger: LedgerCore,
        upgrades: UpgradeManager,
    ) -> (contract: ExampleContract)
        ensures
            contract@ == (ContractState {
                owner: access@,
                paused: gate@,
                ledger: ledger@,
                code_version: upgrades@,
            }),
    {
        ExampleContract { access, gate, ledger, upgrades }
    }

    /// Sets the token's description, mints `initial_supply` to `owner` and
    /// stores `owner` as the owner. A supply of zero is accepted; a negative
    /// one is not a supply.
    pub fn construct(owner: Identity, initial_supply: i128) -> (contract: ExampleContract)
        requires
            initial_supply >= 0,
        ensures
            contract@ == ContractState::construct(owner, initial_supply),
            contract@.inv(),
    {
        let mut ledger = LedgerCore::new(18, "JobBoardToken".to_owned(), "JBT".to_owned());
        // Cannot fail: the ledger is empty, so nothing can overflow.
        let _ = ledger.mint(owner, initial_supply);
        let contract = ExampleContract::from_parts(
            AccessController::new(owner),
            PauseGate::new(),
            ledger,
            UpgradeManager::new(),
        );
        assert(contract@.ledger.balances =~= ContractState::construct(
            owner,
            initial_supply,
        ).ledger.balances);
        contract
    }

    /// Mints `amount` to `account`. Only the owner may, and only while the
    /// ledger is not paused.
    pub fn mint(&mut self, auth: &AuthProof, account: Identity, amount: i128) -> (result: Result<
        (),
        ExampleContractError,
    >)
        requires
            amount >= 0,
        ensures
            follows(old(self)@.mint(auth@, account, amount), result, old(self)@, final(self)@),
            old(self)@.inv() ==> final(self)@.inv(),
            old(self)@.paused ==> result == Err::<(), ExampleContractError>(
                ExampleContractError::ContractPaused,
            ),
            !old(self)@.paused && old(self)@.owner is Some && !auth@.contains(
                old(self)@.owner->Some_0,
            ) ==> result == Err::<(), ExampleContractError>(ExampleContractError::Unauthorized),
    {
        self.gate.when_not_paused()?;
        self.access.require_stored_owner(auth)?;
        self.ledger.mint(account, amount)
    }

    /// Makes `new_code_id` the running code. Only the owner may. The ledger,
    /// the owner and the pause flag stay as they are.
    pub fn upgrade(&mut self, auth: &AuthProof, new_code_id: CodeId) -> (result: Result<
        (),
        ExampleContractError,
    >)
        ensures
            follows(old(self)@.upgrade(auth@, new_code_id), result, old(self)@, final(self)@),
            old(self)@.inv() ==> final(self)@.inv(),
            old(self)@.owner is Some && !auth@.contains(old(self)@.owner->Some_0) ==> result
                == Err::<(), ExampleContractError>(ExampleContractError::Unauthorized),
            final(self)@.ledger == old(self)@.ledger,
            final(self)@.owner == old(self)@.owner,
            final(self)@.paused == old(self)@.paused,
    {
        self.access.require_stored_owner(auth)?;
        self.upgrades.replace(new_code_id);
        Ok(())
    }

    /// Whether the ledger is paused. Never gated.
    pub fn paused(&self) -> (paused: bool)
        ensures
            paused == self@.paused,
    {
        self.gate.paused()
    }

    /// Pauses the ledger. Only the owner may: `caller` must have proven
    /// control and be the owner. Pausing a paused ledger succeeds.
    pub fn pause(&mut self, auth: &AuthProof, caller: Identity) -> (result: Result<
        (),
        ExampleContractError,
    >)
        ensures
            follows(old(self)@.pause(auth@, caller), result, old(self)@, final(self)@),
            old(self)@.inv() ==> final(self)@.inv(),
            old(self)@.owner is Some && old(self)@.owner != Some(caller) ==> result == Err::<
                (),
                ExampleContractError,
            >(ExampleContractError::Unauthorized),
    {
        self.access.require_owner(auth, caller)?;
        self.gate.pause();
        Ok(())
    }

    /// Resumes the ledger. Only the owner may: `caller` must have proven
    /// control and be the owner. Unpausing an active ledger succeeds.
    pub fn unpause(&mut self, auth: &AuthProof, caller: Identity) -> (result: Result<
        (),
        ExampleContractError,
    >)
        ensures
            follows(old(self)@.unpause(auth@, caller), result, old(self)@, final(self)@),
            old(self)@.inv() ==> final(self)@.inv(),
            old(self)@.owner is Some && old(self)@.owner != Some(caller) ==> result == Err::<
                (),
                ExampleContractError,
            >(ExampleContractError::Unauthorized),
    {
        self.access.require_owner(auth, caller)?;
        self.gate.unpause();
        Ok(())
    }

    /// The stored owner.
    pub fn owner(&self) -> (owner: Option<Identity>)
        ensures
            owner == self@.owner,
    {
        self.access.owner()
    }

    /// The code that replaced the one deployed with the contract; `None` if none
    /// did.
    pub fn code_version(&self) -> (code: Option<CodeId>)
        ensures
            code == self@.code_version,
    {
        self.upgrades.code_version()
    }

    /// The number of units in circulation.
    pub fn total_supply(&self) -> (supply: i128)
        ensures
            supply == self@.ledger.supply,
    {
        self.ledger.total_supply()
    }

    /// What `account` owns.
    pub fn balance(&self, account: Identity) -> (amount: i128)
        ensures
            amount == self@.ledger.balance(account),
    {
        self.ledger.balance(account)
    }

    /// The stored amount of the allowance of `spender` on `owner`'s balance,
    /// expired or not.
    pub fn allowance(&self, owner: Identity, spender: Identity) -> (amount: i128)
        ensures
            amount == self@.ledger.allowance(owner, spender).amount,
    {
        self.ledger.allowance(owner, spender)
    }

    /// The sequence number up to which the stored allowance of `spender` on
    /// `owner`'s balance can be spent.
    pub fn allowance_live_until(&self, owner: Identity, spender: Identity) -> (live_until: u32)
        ensures
            live_until == self@.ledger.allowance(owner, spender).live_until,
    {
        self.ledger.allowance_data(owner, spender).live_until
    }

    /// Moves `amount` from `from` to `to`. `from` must have proven control.
    pub fn transfer(&mut self, auth: &AuthProof, from: Identity, to: Identity, amount: i128) -> (result:
        Result<(), ExampleContractError>)
        requires
            amount >= 0,
        ensures
            follows(old(self)@.transfer(auth@, from, to, amount), result, old(self)@, final(self)@),
            old(self)@.inv() ==> final(self)@.inv(),
            old(self)@.paused ==> result == Err::<(), ExampleContractError>(
                ExampleContractError::ContractPaused,
            ),
    {
        self.gate.when_not_paused()?;
        require_proof(auth, from)?;
        self.ledger.transfer(from, to, amount)
    }

    /// Moves `amount` from `from` to `to` on the allowance that `from` gave
    /// `spender`, which shrinks by `amount`. `spender` must have proven
    /// control; `now` is the current value of the sequence counter.
    pub fn transfer_from(
        &mut self,
        auth: &AuthProof,
        spender: Identity,
        from: Identity,
        to: Identity,
        amount: i128,
        now: u32,
    ) -> (result: Result<(), ExampleContractError>)
        requires
            amount >= 0,
        ensures
            follows(
                old(self)@.transfer_from(auth@, spender, from, to, amount, now),
                result,
                old(self)@,
                final(self)@,
            ),
            old(self)@.inv() ==> final(self)@.inv(),
            old(self)@.paused ==> result == Err::<(), ExampleContractError>(
                ExampleContractError::ContractPaused,
            ),
            result is Ok ==> {
                let before = old(self)@.ledger.allowance(from, spender);
                let after = final(self)@.ledger.allowance(from, spender);
                &&& amount <= before.amount
                &&& amount > 0 ==> before.live_until >= now
                &&& after.amount == before.amount - amount
                &&& after.live_until == before.live_until
            },
    {
        self.gate.when_not_paused()?;
        require_proof(auth, spender)?;
        self.ledger.transfer_from(spender, from, to, amount, now)
    }

    /// Sets the allowance of `spender` on `owner`'s balance to exactly
    /// `amount` until `live_until`, over whatever was stored. `owner` must
    /// have proven control. Not gated by the pause flag.
    pub fn approve(
        &mut self,
        auth: &AuthProof,
        owner: Identity,
        spender: Identity,
        amount: i128,
        live_until: u32,
    ) -> (result: Result<(), ExampleContractError>)
        requires
            amount >= 0,
        ensures
            follows(
                old(self)@.approve(auth@, owner, spender, amount, live_until),
                result,
                old(self)@,
                final(self)@,
            ),
            old(self)@.inv() ==> final(self)@.inv(),
    {
        require_proof(auth, owner)?;
        self.ledger.approve(owner, spender, amount, live_until);
        Ok(())
    }

    /// The number of decimals of the token.
    pub fn decimals(&self) -> (decimals: u32)
        ensures
            decimals == self@.ledger.decimals,
    {
        self.ledger.decimals()
    }

    /// The name of the token.
    pub fn name(&self) -> (name: String)
        ensures
            name@ == self@.ledger.name,
    {
        self.ledger.name()
    }

    /// The symbol of the token.
    pub fn symbol(&self) -> (symbol: String)
        ensures
            symbol@ == self@.ledger.symbol,
    {
        self.ledger.symbol()
    }

    /// Destroys `amount` of `from`'s units. `from` must have proven control.
    pub fn burn(&mut self, auth: &AuthProof, from: Identity, amount: i128) -> (result: Result<
        (),
        ExampleContractError,
    >)
        requires
            amount >= 0,
        ensures
            follows(old(self)@.burn(auth@, from, amount), result, old(self)@, final(self)@),
            old(self)@.inv() ==> final(self)@.inv(),
            old(self)@.paused ==> result == Err::<(), ExampleContractError>(
                ExampleContractError::ContractPaused,
            ),
    {
        self.gate.when_not_paused()?;
        require_proof(auth, from)?;
        self.ledger.burn(from, amount)
    }

    /// Destroys `amount` of `from`'s units on the allowance that `from` gave
    /// `spender`, which shrinks by `amount`. `spender` must have proven
    /// control; `now` is the current value of the sequence counter.
    pub fn burn_from(
        &mut self,
        auth: &AuthProof,
        spender: Identity,
        from: Identity,
        amount: i128,
        now: u32,
    ) -> (result: Result<(), ExampleContractError>)
        requires
            amount >= 0,
        ensures
            follows(
                old(self)@.burn_from(auth@, spender, from, amount, now),
                result,
                old(self)@,
                final(self)@,
            ),
            old(self)@.inv() ==> final(self)@.inv(),
            old(self)@.paused ==> result == Err::<(), ExampleContractError>(
                ExampleContractError::ContractPaused,
            ),
            result is Ok ==> {
                let before = old(self)@.ledger.allowance(from, spender);
                let after = final(self)@.ledger.allowance(from, spender);
                &&& amount <= before.amount
                &&& amount > 0 ==> before.live_until >= now
                &&& after.amount == before.amount - amount
                &&& after.live_until == before.live_until
            },
    {
        self.gate.when_not_paused()?;
        require_proof(auth, spender)?;
        self.ledger.burn_from(spender, from, amount, now)
    }
}

} // verus!
