//! What holds of the model as a whole: the bookkeeping invariant survives
//! every operation and therefore holds in every reachable state, the pause
//! switch and the owner check reject exactly what they should, and spending an
//! allowance never exceeds it.

use vstd::prelude::*;
use crate::error::ExampleContractError;
use crate::identity::Identity;
use crate::model::{token_decimals, token_name, token_symbol, Call, ContractState, LedgerView};
use crate::sum::{lemma_amount_at_most_sum, lemma_sum_insert, sum_of};

verus! {

/// Minting keeps the supply equal to the sum of the balances and keeps every
/// balance and allowance non-negative.
pub proof fn lemma_mint_keeps_invariant(ledger: LedgerView, to: Identity, amount: i128)
    requires
        ledger.inv(),
        amount >= 0,
        ledger.mint(to, amount) is Ok,
    ensures
        ledger.mint(to, amount)->Ok_0.inv(),
{
    lemma_amount_at_most_sum(ledger.balances, to);
    lemma_sum_insert(ledger.balances, to, (ledger.balance(to) + amount) as i128);
}

/// Under the invariant a mint fails only when the supply would leave the
/// representable range: no balance can overflow before the supply does.
pub proof fn lemma_mint_fails_only_on_supply_overflow(
    ledger: LedgerView,
    to: Identity,
    amount: i128,
)
    requires
        ledger.inv(),
        amount >= 0,
    ensures
        ledger.mint(to, amount) is Err <==> ledger.supply + amount > i128::MAX,
{
    lemma_amount_at_most_sum(ledger.balances, to);
}

/// A transfer keeps the invariant, and leaves the supply as it is.
pub proof fn lemma_transfer_keeps_invariant(
    ledger: LedgerView,
    from: Identity,
    to: Identity,
    amount: i128,
)
    requires
        ledger.inv(),
        amount >= 0,
        ledger.transfer(from, to, amount) is Ok,
    ensures
        ledger.transfer(from, to, amount)->Ok_0.inv(),
        ledger.transfer(from, to, amount)->Ok_0.supply == ledger.supply,
{
    let debited = ledger.debit(from, amount)->Ok_0;
    lemma_sum_insert(ledger.balances, from, (ledger.balance(from) - amount) as i128);
    lemma_sum_insert(debited.balances, to, (debited.balance(to) + amount) as i128);
}

/// Under the invariant a transfer fails only for want of balance: the
/// recipient's balance cannot overflow, because it stays within the supply.
pub proof fn lemma_transfer_fails_only_on_balance(
    ledger: LedgerView,
    from: Identity,
    to: Identity,
    amount: i128,
)
    requires
        ledger.inv(),
        amount >= 0,
    ensures
        ledger.transfer(from, to, amount) is Err <==> ledger.balance(from) < amount,
        ledger.transfer(from, to, amount) is Err ==> ledger.transfer(from, to, amount)
            == Err::<LedgerView, ExampleContractError>(ExampleContractError::InsufficientBalance),
{
    if ledger.balance(from) >= amount {
        let debited = ledger.debit(from, amount)->Ok_0;
        lemma_sum_insert(ledger.balances, from, (ledger.balance(from) - amount) as i128);
        lemma_amount_at_most_sum(debited.balances, to);
    }
}

/// A burn keeps the invariant: balance and supply shrink by the same amount.
pub proof fn lemma_burn_keeps_invariant(ledger: LedgerView, from: Identity, amount: i128)
    requires
        ledger.inv(),
        amount >= 0,
        ledger.burn(from, amount) is Ok,
    ensures
        ledger.burn(from, amount)->Ok_0.inv(),
{
    lemma_sum_insert(ledger.balances, from, (ledger.balance(from) - amount) as i128);
}

/// Under the invariant a burn fails only for want of balance.
pub proof fn lemma_burn_fails_only_on_balance(ledger: LedgerView, from: Identity, amount: i128)
    requires
        ledger.inv(),
        amount >= 0,
    ensures
        ledger.burn(from, amount) is Err <==> ledger.balance(from) < amount,
        ledger.burn(from, amount) is Err ==> ledger.burn(from, amount) == Err::<
            LedgerView,
            ExampleContractError,
        >(ExampleContractError::InsufficientBalance),
{
    lemma_amount_at_most_sum(ledger.balances, from);
}

/// Approving a non-negative amount keeps the invariant.
pub proof fn lemma_approve_keeps_invariant(
    ledger: LedgerView,
    owner: Identity,
    spender: Identity,
    amount: i128,
    live_until: u32,
)
    requires
        ledger.inv(),
        amount >= 0,
    ensures
        ledger.approve(owner, spender, amount, live_until).inv(),
{
}

/// Spending from an allowance keeps the invariant.
pub proof fn lemma_spend_keeps_invariant(
    ledger: LedgerView,
    owner: Identity,
    spender: Identity,
    amount: i128,
    now: u32,
)
    requires
        ledger.inv(),
        amount >= 0,
        ledger.spend(owner, spender, amount, now) is Ok,
    ensures
        ledger.spend(owner, spender, amount, now)->Ok_0.inv(),
{
}

/// A successful spend lowers the stored allowance by exactly the amount
/// spent, keeps its expiry, touches no other allowance and no balance, and
/// was within the stored amount of an allowance that had not expired.
pub proof fn lemma_spend_is_exact(
    ledger: LedgerView,
    owner: Identity,
    spender: Identity,
    amount: i128,
    now: u32,
)
    requires
        amount >= 0,
        ledger.spend(owner, spender, amount, now) is Ok,
    ensures
        ({
            let before = ledger.allowance(owner, spender);
            let spent = ledger.spend(owner, spender, amount, now)->Ok_0;
            &&& amount <= before.amount
            &&& amount > 0 ==> before.live_until >= now
            &&& spent.allowance(owner, spender).amount == before.amount - amount
            &&& spent.allowance(owner, spender).live_until == before.live_until
            &&& forall|o: Identity, s: Identity|
                (o, s) != (owner, spender) ==> #[trigger] spent.allowance(o, s) == ledger.allowance(
                    o,
                    s,
                )
            &&& spent.balances == ledger.balances
            &&& spent.supply == ledger.supply
        }),
{
}

/// No call breaks the bookkeeping invariant, whether it succeeds or is
/// rejected; nor does any call touch the owner or the token's description.
pub proof fn lemma_step_keeps_invariant(state: ContractState, call: Call)
    requires
        state.inv(),
        call.admissible(),
    ensures
        state.after(call).inv(),
        state.after(call).owner == state.owner,
        state.after(call).ledger.decimals == state.ledger.decimals,
        state.after(call).ledger.name == state.ledger.name,
        state.after(call).ledger.symbol == state.ledger.symbol,
{
    if state.step(call) is Ok {
        let ledger = state.ledger;
        match call {
            Call::Mint { auth, account, amount } => {
                lemma_mint_keeps_invariant(ledger, account, amount);
            },
            Call::Transfer { auth, from, to, amount } => {
                lemma_transfer_keeps_invariant(ledger, from, to, amount);
            },
            Call::TransferFrom { auth, spender, from, to, amount, now } => {
                lemma_spend_keeps_invariant(ledger, from, spender, amount, now);
                lemma_transfer_keeps_invariant(
                    ledger.spend(from, spender, amount, now)->Ok_0,
                    from,
                    to,
                    amount,
                );
            },
            Call::Approve { auth, owner, spender, amount, live_until } => {
                lemma_approve_keeps_invariant(ledger, owner, spender, amount, live_until);
            },
            Call::Burn { auth, from, amount } => {
                lemma_burn_keeps_invariant(ledger, from, amount);
            },
            Call::BurnFrom { auth, spender, from, amount, now } => {
                lemma_spend_keeps_invariant(ledger, from, spender, amount, now);
                lemma_burn_keeps_invariant(
                    ledger.spend(from, spender, amount, now)->Ok_0,
                    from,
                    amount,
                );
            },
            _ => {},
        }
    }
}

/// Construction establishes the invariant: the owner holds the whole supply.
pub proof fn lemma_construct_establishes_invariant(owner: Identity, initial_supply: i128)
    requires
        initial_supply >= 0,
    ensures
        ContractState::construct(owner, initial_supply).inv(),
        ContractState::construct(owner, initial_supply).ledger.balance(owner) == initial_supply,
        ContractState::construct(owner, initial_supply).ledger.supply == initial_supply,
{
    let empty = LedgerView::empty(token_decimals(), token_name(), token_symbol());
    lemma_mint_keeps_invariant(empty, owner, initial_supply);
    assert(empty.mint(owner, initial_supply)->Ok_0 == ContractState::construct(
        owner,
        initial_supply,
    ).ledger);
}

/// In every state that can be reached from construction by any sequence of
/// calls, succeeding or rejected, the total supply is the sum of all
/// balances, no balance and no allowance is negative, the owner is the one
/// stored at construction, and the token's description is the one fixed
/// at construction.
pub proof fn lemma_invariant_in_every_reachable_state(
    owner: Identity,
    initial_supply: i128,
    calls: Seq<Call>,
)
    requires
        initial_supply >= 0,
        forall|i: int| 0 <= i < calls.len() ==> (#[trigger] calls[i]).admissible(),
    ensures
        ({
            let state = ContractState::construct(owner, initial_supply).run(calls);
            &&& state.inv()
            &&& state.ledger.supply == sum_of(state.ledger.balances)
            &&& forall|holder: Identity| 0 <= #[trigger] state.ledger.balance(holder)
            &&& forall|o: Identity, s: Identity| 0 <= (#[trigger] state.ledger.allowance(o, s)).amount
            &&& state.owner == Some(owner)
            &&& state.ledger.decimals == token_decimals()
            &&& state.ledger.name == token_name()
            &&& state.ledger.symbol == token_symbol()
        }),
    decreases calls.len(),
{
    let start = ContractState::construct(owner, initial_supply);
    if calls.len() == 0 {
        lemma_construct_establishes_invariant(owner, initial_supply);
    } else {
        lemma_invariant_in_every_reachable_state(owner, initial_supply, calls.drop_last());
        lemma_step_keeps_invariant(start.run(calls.drop_last()), calls.last());
    }
}

/// While the ledger is paused, every value-moving call is rejected with
/// `ContractPaused`, whoever makes it and whatever it asks for, and the
/// persisted state stays as it is.
pub proof fn lemma_paused_rejects_value_moving_calls(state: ContractState, call: Call)
    requires
        state.paused,
        call.gated(),
    ensures
        state.step(call) == Err::<ContractState, ExampleContractError>(
            ExampleContractError::ContractPaused,
        ),
        state.after(call) == state,
{
}

/// Pausing and unpausing leave nothing behind: a value-moving call that is
/// rejected while paused gives, once the owner has unpaused, exactly what it
/// would have given had the ledger never been paused; in particular it
/// succeeds if it would have succeeded then.
pub proof fn lemma_same_call_after_unpause(
    state: ContractState,
    auth: Set<Identity>,
    owner: Identity,
    call: Call,
)
    requires
        !state.paused,
        state.owner == Some(owner),
        auth.contains(owner),
        call.gated(),
    ensures
        state.pause(auth, owner) is Ok,
        state.pause(auth, owner)->Ok_0.step(call) == Err::<ContractState, ExampleContractError>(
            ExampleContractError::ContractPaused,
        ),
        state.pause(auth, owner)->Ok_0.unpause(auth, owner) == Ok::<
            ContractState,
            ExampleContractError,
        >(state),
        state.pause(auth, owner)->Ok_0.unpause(auth, owner)->Ok_0.step(call) == state.step(call),
{
}

/// Once active, a value-moving call is never rejected for the pause.
pub proof fn lemma_active_never_rejects_for_pause(state: ContractState, call: Call)
    requires
        !state.paused,
    ensures
        state.step(call) != Err::<ContractState, ExampleContractError>(
            ExampleContractError::ContractPaused,
        ),
{
}

/// A call reserved to the owner, made in the name of an identity other than
/// the stored owner, is rejected with `Unauthorized` and changes nothing,
/// even if that identity has proven its own control. (A mint meets the pause
/// gate first: while paused it is rejected for the pause.)
pub proof fn lemma_only_the_owner_is_privileged(
    state: ContractState,
    call: Call,
    owner: Identity,
)
    requires
        call.privileged(),
        state.owner == Some(owner),
        !call.made_by(owner),
        call is Mint ==> !state.paused,
    ensures
        state.step(call) == Err::<ContractState, ExampleContractError>(
            ExampleContractError::Unauthorized,
        ),
        state.after(call) == state,
{
}

/// A successful `transfer_from` lowers the allowance it consumed by exactly
/// the amount moved, strictly if anything was moved; the amount was within
/// the stored allowance, which had not expired; and no other allowance
/// changed.
pub proof fn lemma_transfer_from_spends_exactly(
    state: ContractState,
    auth: Set<Identity>,
    spender: Identity,
    from: Identity,
    to: Identity,
    amount: i128,
    now: u32,
)
    requires
        amount >= 0,
        state.transfer_from(auth, spender, from, to, amount, now) is Ok,
    ensures
        ({
            let before = state.ledger.allowance(from, spender);
            let next = state.transfer_from(auth, spender, from, to, amount, now)->Ok_0;
            let after = next.ledger.allowance(from, spender);
            &&& amount <= before.amount
            &&& amount > 0 ==> before.live_until >= now
            &&& after.amount == before.amount - amount
            &&& amount > 0 ==> after.amount < before.amount
            &&& after.live_until == before.live_until
            &&& forall|o: Identity, s: Identity|
                (o, s) != (from, spender) ==> #[trigger] next.ledger.allowance(o, s)
                    == state.ledger.allowance(o, s)
        }),
{
    lemma_spend_is_exact(state.ledger, from, spender, amount, now);
}

/// A `transfer_from` of more than the stored allowance, or of anything at all
/// from an allowance that has expired, is rejected and changes nothing.
pub proof fn lemma_transfer_from_never_overspends(
    state: ContractState,
    auth: Set<Identity>,
    spender: Identity,
    from: Identity,
    to: Identity,
    amount: i128,
    now: u32,
)
    requires
        amount >= 0,
        ({
            let stored = state.ledger.allowance(from, spender);
            amount > stored.amount || (amount > 0 && stored.live_until < now)
        }),
    ensures
        state.transfer_from(auth, spender, from, to, amount, now) is Err,
        state.after(Call::TransferFrom { auth, spender, from, to, amount, now }) == state,
{
}

} // verus!
