//! The mathematical model of the ledger: what the state is, and what every
//! entrypoint does to it. Each transition either yields the next state or
//! names the error; a rejected call has no next state, so nothing changes.

use vstd::prelude::*;
use crate::error::ExampleContractError;
use crate::identity::{CodeId, Identity};
use crate::sum::{all_non_negative, amount_of, sum_of};

verus! {

/// A spender's right to move up to `amount` until the sequence counter passes
/// `live_until`.
#[derive(Clone, Copy, Debug, PartialEq, Eq, Structural)]
pub struct Allowance {
    pub amount: i128,
    pub live_until: u32,
}

/// What a pair without a stored allowance is taken to hold.
pub open spec fn no_allowance() -> Allowance {
    Allowance { amount: 0, live_until: 0 }
}

/// The bookkeeping part of the state: supply, balances, allowances and the
/// token's fixed description.
pub struct LedgerView {
    pub supply: int,
    pub balances: Map<Identity, i128>,
    pub allowances: Map<(Identity, Identity), Allowance>,
    pub decimals: u32,
    pub name: Seq<char>,
    pub symbol: Seq<char>,
}

impl LedgerView {
    /// A ledger that holds nothing yet.
    pub open spec fn empty(decimals: u32, name: Seq<char>, symbol: Seq<char>) -> LedgerView {
        LedgerView {
            supply: 0,
            balances: Map::empty(),
            allowances: Map::empty(),
            decimals,
            name,
            symbol,
        }
    }

    /// The bookkeeping invariant: the supply is the sum of all balances, and
    /// no balance or allowance is negative.
    pub open spec fn inv(self) -> bool {
        &&& self.balances.dom().finite()
        &&& all_non_negative(self.balances)
        &&& self.supply == sum_of(self.balances)
        &&& self.supply <= i128::MAX
        &&& forall|pair: (Identity, Identity)| #[trigger]
            self.allowances.contains_key(pair) ==> self.allowances[pair].amount >= 0
    }

    /// What `holder` owns; nothing if it has no entry.
    pub open spec fn balance(self, holder: Identity) -> int {
        amount_of(self.balances, holder)
    }

    /// The stored allowance, whether or not it has expired.
    pub open spec fn allowance(self, owner: Identity, spender: Identity) -> Allowance {
        if self.allowances.contains_key((owner, spender)) {
            self.allowances[(owner, spender)]
        } else {
            no_allowance()
        }
    }

    /// Creates `amount` new units for `to`.
    pub open spec fn mint(self, to: Identity, amount: i128) -> Result<
        LedgerView,
        ExampleContractError,
    > {
        if self.supply + amount > i128::MAX || self.balance(to) + amount > i128::MAX {
            Err(ExampleContractError::ArithmeticOverflow)
        } else {
            Ok(
                LedgerView {
                    supply: self.supply + amount,
                    balances: self.balances.insert(to, (self.balance(to) + amount) as i128),
                    ..self
                },
            )
        }
    }

    /// Takes `amount` out of `from`'s balance.
    pub open spec fn debit(self, from: Identity, amount: i128) -> Result<
        LedgerView,
        ExampleContractError,
    > {
        if self.balance(from) < amount {
            Err(ExampleContractError::InsufficientBalance)
        } else {
            Ok(
                LedgerView {
                    balances: self.balances.insert(from, (self.balance(from) - amount) as i128),
                    ..self
                },
            )
        }
    }

    /// Moves `amount` from `from` to `to`. The supply stays as it is.
    pub open spec fn transfer(self, from: Identity, to: Identity, amount: i128) -> Result<
        LedgerView,
        ExampleContractError,
    > {
        match self.debit(from, amount) {
            Err(e) => Err(e),
            Ok(debited) => if debited.balance(to) + amount > i128::MAX {
                Err(ExampleContractError::ArithmeticOverflow)
            } else {
                Ok(
                    LedgerView {
                        balances: debited.balances.insert(
                            to,
                            (debited.balance(to) + amount) as i128,
                        ),
                        ..debited
                    },
                )
            },
        }
    }

    /// Destroys `amount` of `from`'s units: balance and supply both shrink.
    pub open spec fn burn(self, from: Identity, amount: i128) -> Result<
        LedgerView,
        ExampleContractError,
    > {
        match self.debit(from, amount) {
            Err(e) => Err(e),
            Ok(debited) => if self.supply - amount < i128::MIN {
                Err(ExampleContractError::ArithmeticOverflow)
            } else {
                Ok(LedgerView { supply: self.supply - amount, ..debited })
            },
        }
    }

    /// Overwrites the allowance of `spender` on `owner`'s balance.
    pub open spec fn approve(
        self,
        owner: Identity,
        spender: Identity,
        amount: i128,
        live_until: u32,
    ) -> LedgerView {
        LedgerView {
            allowances: self.allowances.insert((owner, spender), Allowance { amount, live_until }),
            ..self
        }
    }

    /// Consumes `amount` of the allowance of `spender` on `owner`'s balance
    /// when the sequence counter stands at `now`. A stored amount that is too
    /// small is reported before an expiry; spending nothing always succeeds and
    /// stores nothing.
    pub open spec fn spend(self, owner: Identity, spender: Identity, amount: i128, now: u32)
        -> Result<LedgerView, ExampleContractError> {
        let stored = self.allowance(owner, spender);
        if stored.amount < amount {
            Err(ExampleContractError::InsufficientAllowance)
        } else if amount > 0 && stored.live_until < now {
            Err(ExampleContractError::AllowanceExpired)
        } else if amount == 0 {
            Ok(self)
        } else {
            Ok(
                self.approve(
                    owner,
                    spender,
                    (stored.amount - amount) as i128,
                    stored.live_until,
                ),
            )
        }
    }

    /// Spends the allowance, then transfers.
    pub open spec fn transfer_from(
        self,
        spender: Identity,
        from: Identity,
        to: Identity,
        amount: i128,
        now: u32,
    ) -> Result<LedgerView, ExampleContractError> {
        match self.spend(from, spender, amount, now) {
            Err(e) => Err(e),
            Ok(spent) => spent.transfer(from, to, amount),
        }
    }

    /// Spends the allowance, then burns.
    pub open spec fn burn_from(self, spender: Identity, from: Identity, amount: i128, now: u32)
        -> Result<LedgerView, ExampleContractError> {
        match self.spend(from, spender, amount, now) {
            Err(e) => Err(e),
            Ok(spent) => spent.burn(from, amount),
        }
    }
}

/// Whether `claimed` may act as the owner: the oracle must have confirmed
/// control of `claimed`, an owner must be stored, and the two must be equal.
pub open spec fn require_owner(owner: Option<Identity>, auth: Set<Identity>, claimed: Identity)
    -> Result<(), ExampleContractError> {
    if !auth.contains(claimed) {
        Err(ExampleContractError::Unauthorized)
    } else {
        match owner {
            None => Err(ExampleContractError::NotInitialized),
            Some(stored) => if stored == claimed {
                Ok(())
            } else {
                Err(ExampleContractError::Unauthorized)
            },
        }
    }
}

/// Whether the stored owner itself has proven control.
pub open spec fn require_stored_owner(owner: Option<Identity>, auth: Set<Identity>) -> Result<
    (),
    ExampleContractError,
> {
    match owner {
        None => Err(ExampleContractError::NotInitialized),
        Some(stored) => require_owner(owner, auth, stored),
    }
}

/// Whether `identity` has proven control.
pub open spec fn require_proof(auth: Set<Identity>, identity: Identity) -> Result<
    (),
    ExampleContractError,
> {
    if auth.contains(identity) {
        Ok(())
    } else {
        Err(ExampleContractError::Unauthorized)
    }
}

/// The whole persisted state.
pub struct ContractState {
    pub owner: Option<Identity>,
    pub paused: bool,
    pub ledger: LedgerView,
    /// The code that replaced the one deployed with the contract, if any did.
    pub code_version: Option<CodeId>,
}

/// The number of decimals every constructed token has.
pub open spec fn token_decimals() -> u32 {
    18
}

/// The name every constructed token has.
pub open spec fn token_name() -> Seq<char> {
    "JobBoardToken"@
}

/// The symbol every constructed token has.
pub open spec fn token_symbol() -> Seq<char> {
    "JBT"@
}

impl ContractState {
    /// The invariant of the whole state is the ledger's.
    pub open spec fn inv(self) -> bool {
        self.ledger.inv()
    }

    /// The state right after construction: the owner is stored and holds the
    /// whole initial supply, nothing is paused, no code was replaced.
    pub open spec fn construct(owner: Identity, initial_supply: i128) -> ContractState {
        ContractState {
            owner: Some(owner),
            paused: false,
            ledger: LedgerView {
                supply: initial_supply as int,
                balances: Map::empty().insert(owner, initial_supply),
                ..LedgerView::empty(token_decimals(), token_name(), token_symbol())
            },
            code_version: None,
        }
    }

    /// Puts the outcome of a ledger operation back into the whole state.
    pub open spec fn with_ledger(self, outcome: Result<LedgerView, ExampleContractError>)
        -> Result<ContractState, ExampleContractError> {
        match outcome {
            Err(e) => Err(e),
            Ok(ledger) => Ok(ContractState { ledger, ..self }),
        }
    }

    /// Mint: the pause gate first, then the owner's proof, then the ledger.
    pub open spec fn mint(self, auth: Set<Identity>, account: Identity, amount: i128) -> Result<
        ContractState,
        ExampleContractError,
    > {
        if self.paused {
            Err(ExampleContractError::ContractPaused)
        } else {
            match require_stored_owner(self.owner, auth) {
                Err(e) => Err(e),
                Ok(_) => self.with_ledger(self.ledger.mint(account, amount)),
            }
        }
    }

    /// Transfer: the pause gate first, then the sender's proof, then the
    /// ledger.
    pub open spec fn transfer(self, auth: Set<Identity>, from: Identity, to: Identity, amount: i128)
        -> Result<ContractState, ExampleContractError> {
        if self.paused {
            Err(ExampleContractError::ContractPaused)
        } else {
            match require_proof(auth, from) {
                Err(e) => Err(e),
                Ok(_) => self.with_ledger(self.ledger.transfer(from, to, amount)),
            }
        }
    }

    /// Transfer on an allowance: the pause gate first, then the spender's
    /// proof, then the ledger.
    pub open spec fn transfer_from(
        self,
        auth: Set<Identity>,
        spender: Identity,
        from: Identity,
        to: Identity,
        amount: i128,
        now: u32,
    ) -> Result<ContractState, ExampleContractError> {
        if self.paused {
            Err(ExampleContractError::ContractPaused)
        } else {
            match require_proof(auth, spender) {
                Err(e) => Err(e),
                Ok(_) => self.with_ledger(
                    self.ledger.transfer_from(spender, from, to, amount, now),
                ),
            }
        }
    }

    /// Approve: the proof of the owner of the balance, then the ledger. The
    /// pause flag is not consulted.
    pub open spec fn approve(
        self,
        auth: Set<Identity>,
        owner: Identity,
        spender: Identity,
        amount: i128,
        live_until: u32,
    ) -> Result<ContractState, ExampleContractError> {
        match require_proof(auth, owner) {
            Err(e) => Err(e),
            Ok(_) => Ok(
                ContractState {
                    ledger: self.ledger.approve(owner, spender, amount, live_until),
                    ..self
                },
            ),
        }
    }

    /// Burn: the pause gate first, then the holder's proof, then the ledger.
    pub open spec fn burn(self, auth: Set<Identity>, from: Identity, amount: i128) -> Result<
        ContractState,
        ExampleContractError,
    > {
        if self.paused {
            Err(ExampleContractError::ContractPaused)
        } else {
            match require_proof(auth, from) {
                Err(e) => Err(e),
                Ok(_) => self.with_ledger(self.ledger.burn(from, amount)),
            }
        }
    }

    /// Burn on an allowance: the pause gate first, then the spender's proof,
    /// then the ledger.
    pub open spec fn burn_from(
        self,
        auth: Set<Identity>,
        spender: Identity,
        from: Identity,
        amount: i128,
        now: u32,
    ) -> Result<ContractState, ExampleContractError> {
        if self.paused {
            Err(ExampleContractError::ContractPaused)
        } else {
            match require_proof(auth, spender) {
                Err(e) => Err(e),
                Ok(_) => self.with_ledger(self.ledger.burn_from(spender, from, amount, now)),
            }
        }
    }

    /// Pause: the owner check on `caller`, then the flag is set, whatever it
    /// was.
    pub open spec fn pause(self, auth: Set<Identity>, caller: Identity) -> Result<
        ContractState,
        ExampleContractError,
    > {
        match require_owner(self.owner, auth, caller) {
            Err(e) => Err(e),
            Ok(_) => Ok(ContractState { paused: true, ..self }),
        }
    }

    /// Unpause: the owner check on `caller`, then the flag is cleared,
    /// whatever it was.
    pub open spec fn unpause(self, auth: Set<Identity>, caller: Identity) -> Result<
        ContractState,
        ExampleContractError,
    > {
        match require_owner(self.owner, auth, caller) {
            Err(e) => Err(e),
            Ok(_) => Ok(ContractState { paused: false, ..self }),
        }
    }

    /// Upgrade: the owner's proof, then the running code is replaced. Nothing
    /// else changes.
    pub open spec fn upgrade(self, auth: Set<Identity>, new_code_id: CodeId) -> Result<
        ContractState,
        ExampleContractError,
    > {
        match require_stored_owner(self.owner, auth) {
            Err(e) => Err(e),
            Ok(_) => Ok(ContractState { code_version: Some(new_code_id), ..self }),
        }
    }
}

/// One invocation of a mutating entrypoint, with what the authorization
/// oracle confirmed for it and, where the entrypoint reads it, the value of
/// the sequence counter.
pub enum Call {
    Mint { auth: Set<Identity>, account: Identity, amount: i128 },
    Transfer { auth: Set<Identity>, from: Identity, to: Identity, amount: i128 },
    TransferFrom {
        auth: Set<Identity>,
        spender: Identity,
        from: Identity,
        to: Identity,
        amount: i128,
        now: u32,
    },
    Approve {
        auth: Set<Identity>,
        owner: Identity,
        spender: Identity,
        amount: i128,
        live_until: u32,
    },
    Burn { auth: Set<Identity>, from: Identity, amount: i128 },
    BurnFrom { auth: Set<Identity>, spender: Identity, from: Identity, amount: i128, now: u32 },
    Pause { auth: Set<Identity>, caller: Identity },
    Unpause { auth: Set<Identity>, caller: Identity },
    Upgrade { auth: Set<Identity>, new_code_id: CodeId },
}

impl Call {
    /// The amount the call names, if it names one.
    pub open spec fn amount(self) -> int {
        match self {
            Call::Mint { amount, .. } => amount as int,
            Call::Transfer { amount, .. } => amount as int,
            Call::TransferFrom { amount, .. } => amount as int,
            Call::Approve { amount, .. } => amount as int,
            Call::Burn { amount, .. } => amount as int,
            Call::BurnFrom { amount, .. } => amount as int,
            _ => 0,
        }
    }

    /// The entrypoints take no negative amount.
    pub open spec fn admissible(self) -> bool {
        self.amount() >= 0
    }

    /// Whether the pause gate stands before the entrypoint.
    pub open spec fn gated(self) -> bool {
        self is Mint || self is Transfer || self is TransferFrom || self is Burn
            || self is BurnFrom
    }

    /// Whether the entrypoint is reserved to the owner.
    pub open spec fn privileged(self) -> bool {
        self is Mint || self is Pause || self is Unpause || self is Upgrade
    }

    /// Whether the call is made in the name of `identity`: for the
    /// entrypoints that name their caller, the caller is `identity`; for the
    /// others, `identity` has proven control.
    pub open spec fn made_by(self, identity: Identity) -> bool {
        match self {
            Call::Pause { caller, .. } => caller == identity,
            Call::Unpause { caller, .. } => caller == identity,
            Call::Mint { auth, .. } => auth.contains(identity),
            Call::Upgrade { auth, .. } => auth.contains(identity),
            Call::Transfer { auth, .. } => auth.contains(identity),
            Call::TransferFrom { auth, .. } => auth.contains(identity),
            Call::Approve { auth, .. } => auth.contains(identity),
            Call::Burn { auth, .. } => auth.contains(identity),
            Call::BurnFrom { auth, .. } => auth.contains(identity),
        }
    }
}

impl ContractState {
    /// What `call` does in this state: the next state, or the error.
    pub open spec fn step(self, call: Call) -> Result<ContractState, ExampleContractError> {
        match call {
            Call::Mint { auth, account, amount } => self.mint(auth, account, amount),
            Call::Transfer { auth, from, to, amount } => self.transfer(auth, from, to, amount),
            Call::TransferFrom { auth, spender, from, to, amount, now } => self.transfer_from(
                auth,
                spender,
                from,
                to,
                amount,
                now,
            ),
            Call::Approve { auth, owner, spender, amount, live_until } => self.approve(
                auth,
                owner,
                spender,
                amount,
                live_until,
            ),
            Call::Burn { auth, from, amount } => self.burn(auth, from, amount),
            Call::BurnFrom { auth, spender, from, amount, now } => self.burn_from(
                auth,
                spender,
                from,
                amount,
                now,
            ),
            Call::Pause { auth, caller } => self.pause(auth, caller),
            Call::Unpause { auth, caller } => self.unpause(auth, caller),
            Call::Upgrade { auth, new_code_id } => self.upgrade(auth, new_code_id),
        }
    }

    /// The state that is persisted once `call` has ended: the next state if
    /// it succeeded, this state if it was rejected.
    pub open spec fn after(self, call: Call) -> ContractState {
        match self.step(call) {
            Ok(next) => next,
            Err(_) => self,
        }
    }

    /// The state that is persisted after `calls`, made one after the other.
    pub open spec fn run(self, calls: Seq<Call>) -> ContractState
        decreases calls.len(),
    {
        if calls.len() == 0 {
            self
        } else {
            self.run(calls.drop_last()).after(calls.last())
        }
    }
}

/// How a call ends, measured against the model: on `Ok` the state after the
/// call is the model's next state, on `Err` the error is the model's and the
/// state is the one before the call.
pub open spec fn follows<S>(
    expected: Result<S, ExampleContractError>,
    result: Result<(), ExampleContractError>,
    before: S,
    after: S,
) -> bool {
    match expected {
        Ok(next) => result is Ok && after == next,
        Err(e) => result == Err::<(), ExampleContractError>(e) && after == before,
    }
}

} // verus!
