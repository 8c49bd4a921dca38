use vstd::prelude::*;
use crate::identity::Identity;

verus! {

/// The sum of all amounts held in a finite balance table.
pub open spec fn sum_of(balances: Map<Identity, i128>) -> int
    decreases balances.dom().len(),
    when balances.dom().finite()
{
    if balances.dom().is_empty() {
        0
    } else {
        let holder = balances.dom().choose();
        balances[holder] + sum_of(balances.remove(holder))
    }
}

/// The amount a holder owns; an identity without an entry owns nothing.
pub open spec fn amount_of(balances: Map<Identity, i128>, holder: Identity) -> int {
    if balances.contains_key(holder) {
        balances[holder] as int
    } else {
        0
    }
}

/// Every amount in the table is zero or more.
pub open spec fn all_non_negative(balances: Map<Identity, i128>) -> bool {
    forall|holder: Identity| #[trigger]
        balances.contains_key(holder) ==> balances[holder] >= 0
}

/// The sum can be split at any holder, not only at the one the definition
/// happens to pick.
pub proof fn lemma_sum_split(balances: Map<Identity, i128>, holder: Identity)
    requires
        balances.dom().finite(),
        balances.contains_key(holder),
    ensures
        sum_of(balances) == balances[holder] + sum_of(balances.remove(holder)),
    decreases balances.dom().len(),
{
    let picked = balances.dom().choose();
    if picked != holder {
        let without_picked = balances.remove(picked);
        let without_holder = balances.remove(holder);
        lemma_sum_split(without_picked, holder);
        lemma_sum_split(without_holder, picked);
        assert(without_picked.remove(holder) =~= without_holder.remove(picked));
    }
}

/// Writing one entry changes the sum by the difference between the new amount
/// and what the holder owned before.
pub proof fn lemma_sum_insert(balances: Map<Identity, i128>, holder: Identity, amount: i128)
    requires
        balances.dom().finite(),
    ensures
        sum_of(balances.insert(holder, amount)) == sum_of(balances) - amount_of(balances, holder)
            + amount,
{
    let after = balances.insert(holder, amount);
    lemma_sum_split(after, holder);
    assert(after.remove(holder) =~= balances.remove(holder));
    if balances.contains_key(holder) {
        lemma_sum_split(balances, holder);
    } else {
        assert(balances.remove(holder) =~= balances);
    }
}

/// A table of non-negative amounts has a non-negative sum.
pub proof fn lemma_sum_non_negative(balances: Map<Identity, i128>)
    requires
        balances.dom().finite(),
        all_non_negative(balances),
    ensures
        sum_of(balances) >= 0,
    decreases balances.dom().len(),
{
    if !balances.dom().is_empty() {
        let picked = balances.dom().choose();
        lemma_sum_non_negative(balances.remove(picked));
    }
}

/// In a table of non-negative amounts no holder owns more than the sum.
pub proof fn lemma_amount_at_most_sum(balances: Map<Identity, i128>, holder: Identity)
    requires
        balances.dom().finite(),
        all_non_negative(balances),
    ensures
        0 <= amount_of(balances, holder) <= sum_of(balances),
{
    if balances.contains_key(holder) {
        lemma_sum_split(balances, holder);
        lemma_sum_non_negative(balances.remove(holder));
    } else {
        lemma_sum_non_negative(balances);
    }
}

} // verus!
