//! The bookkeeping component: total supply, balances and allowances, with
//! checked arithmetic on every mutation. It knows nothing of owners or of the
//! pause switch; the entrypoints apply those before they come here.

use std::collections::HashMap;
use vstd::prelude::*;
use crate::error::ExampleContractError;
use crate::identity::Identity;
use crate::laws::{
    lemma_approve_keeps_invariant, lemma_burn_keeps_invariant, lemma_mint_keeps_invariant,
    lemma_spend_keeps_invariant, lemma_transfer_keeps_invariant,
};
use crate::model::{follows, Allowance, LedgerView};

verus! {

/// The key under which the allowance of `spender` on `owner`'s balance is
/// stored: the two identities side by side in one number.
spec fn pair_key(owner: Identity, spender: Identity) -> u128 {
    (owner * 0x1_0000_0000_0000_0000 + spender) as u128
}

/// Different pairs have different keys.
proof fn lemma_pair_key_injective(o1: Identity, s1: Identity, o2: Identity, s2: Identity)
    ensures
        pair_key(o1, s1) == pair_key(o2, s2) <==> o1 == o2 && s1 == s2,
{
}

fn key_of(owner: Identity, spender: Identity) -> (key: u128)
    ensures
        key == pair_key(owner, spender),
{
    (owner as u128) * 0x1_0000_0000_0000_0000u128 + (spender as u128)
}

/// Supply, balances, allowances and the token's fixed description.
pub struct LedgerCore {
    supply: i128,
    balances: HashMap<Identity, i128>,
    allowances: HashMap<u128, Allowance>,
    decimals: u32,
    name: String,
    symbol: String,
}

impl View for LedgerCore {
    type V = LedgerView;

    closed spec fn view(&self) -> LedgerView {
        LedgerView {
            supply: self.supply as int,
            balances: self.balances@,
            allowances: Map::new(
                |pair: (Identity, Identity)|
                    self.allowances@.contains_key(pair_key(pair.0, pair.1)),
                |pair: (Identity, Identity)| self.allowances@[pair_key(pair.0, pair.1)],
            ),
            decimals: self.decimals,
            name: self.name@,
            symbol: self.symbol@,
        }
    }
}

impl LedgerCore {
    /// A ledger that holds nothing yet, with its description fixed for good.
    pub fn new(decimals: u32, name: String, symbol: String) -> (ledger: LedgerCore)
        ensures
            ledger@ == LedgerView::empty(decimals, name@, symbol@),
            ledger@.inv(),
    {
        let ledger = LedgerCore {
            supply: 0,
            balances: HashMap::new(),
            allowances: HashMap::new(),
            decimals,
            name,
            symbol,
        };
        assert(ledger@.allowances =~= Map::<(Identity, Identity), Allowance>::empty());
        ledger
    }

    /// The number of units in circulation.
    pub fn total_supply(&self) -> (supply: i128)
        ensures
            supply == self@.supply,
    {
        self.supply
    }

    /// What `account` owns; nothing if it was never touched.
    pub fn balance(&self, account: Identity) -> (amount: i128)
        ensures
            amount == self@.balance(account),
    {
        match self.balances.get(&account) {
            Some(amount) => *amount,
            None => 0,
        }
    }

    /// The stored allowance of `spender` on `owner`'s balance with its expiry,
    /// whether or not it has expired; zero for both if none is stored.
    pub fn allowance_data(&self, owner: Identity, spender: Identity) -> (stored: Allowance)
        ensures
            stored == self@.allowance(owner, spender),
    {
        let key = key_of(owner, spender);
        match self.allowances.get(&key) {
            Some(stored) => *stored,
            None => Allowance { amount: 0, live_until: 0 },
        }
    }

    /// The stored amount of the allowance of `spender` on `owner`'s balance.
    /// Expiry is not looked at: compare `allowance_data(..).live_until` with
    /// the sequence counter to know whether the amount can be spent.
    pub fn allowance(&self, owner: Identity, spender: Identity) -> (amount: i128)
        ensures
            amount == self@.allowance(owner, spender).amount,
    {
        self.allowance_data(owner, spender).amount
    }

    pub fn decimals(&self) -> (decimals: u32)
        ensures
            decimals == self@.decimals,
    {
        self.decimals
    }

    pub fn name(&self) -> (name: String)
        ensures
            name@ == self@.name,
    {
        self.name.clone()
    }

    pub fn symbol(&self) -> (symbol: String)
        ensures
            symbol@ == self@.symbol,
    {
        self.symbol.clone()
    }

    /// Creates `amount` new units for `to`. Fails with `ArithmeticOverflow`,
    /// and changes nothing, if the supply or the balance would leave the
    /// representable range.
    pub fn mint(&mut self, to: Identity, amount: i128) -> (result: Result<
        (),
        ExampleContractError,
    >)
        requires
            amount >= 0,
        ensures
            follows(old(self)@.mint(to, amount), result, old(self)@, final(self)@),
            old(self)@.inv() ==> final(self)@.inv(),
    {
        let supply = match self.supply.checked_add(amount) {
            Some(supply) => supply,
            None => { return Err(ExampleContractError::ArithmeticOverflow); },
        };
        let balance = match self.balance(to).checked_add(amount) {
            Some(balance) => balance,
            None => { return Err(ExampleContractError::ArithmeticOverflow); },
        };
        proof {
            if old(self)@.inv() {
                lemma_mint_keeps_invariant(old(self)@, to, amount);
            }
        }
        self.supply = supply;
        self.balances.insert(to, balance);
        Ok(())
    }

    /// What a transfer would write: the new balances of `from` and of `to`.
    fn transfer_outcome(&self, from: Identity, to: Identity, amount: i128) -> (outcome: Result<
        (i128, i128),
        ExampleContractError,
    >)
        requires
            amount >= 0,
        ensures
            match outcome {
                Ok((debited, credited)) => self@.transfer(from, to, amount) == Ok::<
                    LedgerView,
                    ExampleContractError,
                >(
                    LedgerView {
                        balances: self@.balances.insert(from, debited).insert(to, credited),
                        ..self@
                    },
                ),
                Err(e) => self@.transfer(from, to, amount) == Err::<
                    LedgerView,
                    ExampleContractError,
                >(e),
            },
    {
        let from_balance = self.balance(from);
        if from_balance < amount {
            return Err(ExampleContractError::InsufficientBalance);
        }
        let debited = from_balance - amount;
        let to_balance = if to == from {
            debited
        } else {
            self.balance(to)
        };
        match to_balance.checked_add(amount) {
            Some(credited) => Ok((debited, credited)),
            None => Err(ExampleContractError::ArithmeticOverflow),
        }
    }

    /// Moves `amount` from `from` to `to`. Fails with `InsufficientBalance` if
    /// `from` owns less. The supply stays as it is.
    pub fn transfer(&mut self, from: Identity, to: Identity, amount: i128) -> (result: Result<
        (),
        ExampleContractError,
    >)
        requires
            amount >= 0,
        ensures
            follows(old(self)@.transfer(from, to, amount), result, old(self)@, final(self)@),
            old(self)@.inv() ==> final(self)@.inv(),
    {
        let (debited, credited) = match self.transfer_outcome(from, to, amount) {
            Ok(balances) => balances,
            Err(e) => { return Err(e); },
        };
        proof {
            if old(self)@.inv() {
                lemma_transfer_keeps_invariant(old(self)@, from, to, amount);
            }
        }
        self.balances.insert(from, debited);
        self.balances.insert(to, credited);
        Ok(())
    }

    /// What a burn would write: the new balance of `from` and the new supply.
    fn burn_outcome(&self, from: Identity, amount: i128) -> (outcome: Result<
        (i128, i128),
        ExampleContractError,
    >)
        requires
            amount >= 0,
        ensures
            match outcome {
                Ok((debited, supply)) => self@.burn(from, amount) == Ok::<
                    LedgerView,
                    ExampleContractError,
                >(
                    LedgerView {
                        supply: supply as int,
                        balances: self@.balances.insert(from, debited),
                        ..self@
                    },
                ),
                Err(e) => self@.burn(from, amount) == Err::<LedgerView, ExampleContractError>(e),
            },
    {
        let from_balance = self.balance(from);
        if from_balance < amount {
            return Err(ExampleContractError::InsufficientBalance);
        }
        match self.supply.checked_sub(amount) {
            Some(supply) => Ok((from_balance - amount, supply)),
            None => Err(ExampleContractError::ArithmeticOverflow),
        }
    }

    /// Destroys `amount` of `from`'s units: its balance and the supply both
    /// shrink by `amount`. Fails with `InsufficientBalance` if `from` owns
    /// less.
    pub fn burn(&mut self, from: Identity, amount: i128) -> (result: Result<
        (),
        ExampleContractError,
    >)
        requires
            amount >= 0,
        ensures
            follows(old(self)@.burn(from, amount), result, old(self)@, final(self)@),
            old(self)@.inv() ==> final(self)@.inv(),
    {
        let (debited, supply) = match self.burn_outcome(from, amount) {
            Ok(written) => written,
            Err(e) => { return Err(e); },
        };
        proof {
            if old(self)@.inv() {
                lemma_burn_keeps_invariant(old(self)@, from, amount);
            }
        }
        self.balances.insert(from, debited);
        self.supply = supply;
        Ok(())
    }

    /// Stores `allowance` for the pair, over whatever was there.
    fn store_allowance(&mut self, owner: Identity, spender: Identity, allowance: Allowance)
        ensures
            final(self)@ == old(self)@.approve(
                owner,
                spender,
                allowance.amount,
                allowance.live_until,
            ),
    {
        let key = key_of(owner, spender);
        self.allowances.insert(key, allowance);
        assert(self@.allowances =~= old(self)@.allowances.insert((owner, spender), allowance)) by {
            assert forall|pair: (Identity, Identity)|
                pair_key(pair.0, pair.1) == key <==> pair == (owner, spender) by {
                lemma_pair_key_injective(pair.0, pair.1, owner, spender);
            }
        }
    }

    /// Overwrites the allowance of `spender` on `owner`'s balance with exactly
    /// `amount` until `live_until`. An amount of zero revokes it.
    pub fn approve(&mut self, owner: Identity, spender: Identity, amount: i128, live_until: u32)
        requires
            amount >= 0,
        ensures
            final(self)@ == old(self)@.approve(owner, spender, amount, live_until),
            old(self)@.inv() ==> final(self)@.inv(),
    {
        proof {
            if old(self)@.inv() {
                lemma_approve_keeps_invariant(old(self)@, owner, spender, amount, live_until);
            }
        }
        self.store_allowance(owner, spender, Allowance { amount, live_until });
    }

    /// What a spend would leave stored for the pair.
    fn spend_outcome(&self, owner: Identity, spender: Identity, amount: i128, now: u32) -> (outcome:
        Result<Allowance, ExampleContractError>)
        requires
            amount >= 0,
        ensures
            match outcome {
                Ok(left) => {
                    &&& self@.spend(owner, spender, amount, now) is Ok
                    &&& left.amount == self@.allowance(owner, spender).amount - amount
                    &&& left.live_until == self@.allowance(owner, spender).live_until
                },
                Err(e) => self@.spend(owner, spender, amount, now) == Err::<
                    LedgerView,
                    ExampleContractError,
                >(e),
            },
    {
        let stored = self.allowance_data(owner, spender);
        if stored.amount < amount {
            Err(ExampleContractError::InsufficientAllowance)
        } else if amount > 0 && stored.live_until < now {
            Err(ExampleContractError::AllowanceExpired)
        } else {
            Ok(Allowance { amount: stored.amount - amount, live_until: stored.live_until })
        }
    }

    /// Consumes `amount` of the allowance of `spender` on `owner`'s balance
    /// when the sequence counter stands at `now`. Fails with
    /// `InsufficientAllowance` if less is stored, else with `AllowanceExpired`
    /// if something is to be spent and the allowance ended before `now`.
    pub fn spend_allowance(&mut self, owner: Identity, spender: Identity, amount: i128, now: u32)
        -> (result: Result<(), ExampleContractError>)
        requires
            amount >= 0,
        ensures
            follows(
                old(self)@.spend(owner, spender, amount, now),
                result,
                old(self)@,
                final(self)@,
            ),
            old(self)@.inv() ==> final(self)@.inv(),
    {
        let left = match self.spend_outcome(owner, spender, amount, now) {
            Ok(left) => left,
            Err(e) => { return Err(e); },
        };
        proof {
            if old(self)@.inv() {
                lemma_spend_keeps_invariant(old(self)@, owner, spender, amount, now);
            }
        }
        if amount > 0 {
            self.store_allowance(owner, spender, left);
        }
        Ok(())
    }

    /// Spends `amount` of the allowance that `from` gave `spender`, then moves
    /// `amount` from `from` to `to`; both or neither.
    pub fn transfer_from(
        &mut self,
        spender: Identity,
        from: Identity,
        to: Identity,
        amount: i128,
        now: u32,
    ) -> (result: Result<(), ExampleContractError>)
        requires
            amount >= 0,
        ensures
            follows(
                old(self)@.transfer_from(spender, from, to, amount, now),
                result,
                old(self)@,
                final(self)@,
            ),
            old(self)@.inv() ==> final(self)@.inv(),
    {
        let left = match self.spend_outcome(from, spender, amount, now) {
            Ok(left) => left,
            Err(e) => { return Err(e); },
        };
        let (debited, credited) = match self.transfer_outcome(from, to, amount) {
            Ok(balances) => balances,
            Err(e) => { return Err(e); },
        };
        proof {
            if old(self)@.inv() {
                lemma_spend_keeps_invariant(old(self)@, from, spender, amount, now);
                lemma_transfer_keeps_invariant(
                    old(self)@.spend(from, spender, amount, now)->Ok_0,
                    from,
                    to,
                    amount,
                );
            }
        }
        if amount > 0 {
            self.store_allowance(from, spender, left);
        }
        self.balances.insert(from, debited);
        self.balances.insert(to, credited);
        Ok(())
    }

    /// Spends `amount` of the allowance that `from` gave `spender`, then
    /// destroys `amount` of `from`'s units; both or neither.
    pub fn burn_from(&mut self, spender: Identity, from: Identity, amount: i128, now: u32) -> (result:
        Result<(), ExampleContractError>)
        requires
            amount >= 0,
        ensures
            follows(
                old(self)@.burn_from(spender, from, amount, now),
                result,
                old(self)@,
                final(self)@,
            ),
            old(self)@.inv() ==> final(self)@.inv(),
    {
        let left = match self.spend_outcome(from, spender, amount, now) {
            Ok(left) => left,
            Err(e) => { return Err(e); },
        };
        let (debited, supply) = match self.burn_outcome(from, amount) {
            Ok(written) => written,
            Err(e) => { return Err(e); },
        };
        proof {
            if old(self)@.inv() {
                lemma_spend_keeps_invariant(old(self)@, from, spender, amount, now);
                lemma_burn_keeps_invariant(
                    old(self)@.spend(from, spender, amount, now)->Ok_0,
                    from,
                    amount,
                );
            }
        }
        if amount > 0 {
            self.store_allowance(from, spender, left);
        }
        self.balances.insert(from, debited);
        self.supply = supply;
        Ok(())
    }
}

} // verus!
