//! What holds of the ledger across calls, stated over the store as a map.

use vstd::prelude::*;
use crate::batch::{total_demand, validated, Operation, SendError};
use crate::multisender::{credited, debited, funded_from_balance, withdrawable};
use crate::store::balance_in;

verus! {

/// A batch whose total exceeds the available funds is refused, whether the
/// funds are an attached payment or the caller's balance. A refused batch
/// has no transfers and leaves the store as it was.
pub proof fn over_ceiling_is_refused(
    store: Map<Seq<char>, u128>,
    caller: Seq<char>,
    ops: Seq<Operation>,
    attached: u128,
)
    ensures
        total_demand(ops) > attached ==> validated(ops, attached) is Err,
        total_demand(ops) > balance_in(store, caller) ==> funded_from_balance(
            store,
            caller,
            ops,
        ) is Err,
{
}

/// An account without an entry holds zero; so does every account of an
/// empty store.
pub proof fn no_history_reads_zero(store: Map<Seq<char>, u128>, account_id: Seq<char>)
    requires
        !store.dom().contains(account_id),
    ensures
        balance_in(store, account_id) == 0,
        balance_in(Map::<Seq<char>, u128>::empty(), account_id) == 0,
{
}

/// A credit adds exactly its amount to the account it names and leaves every
/// other account as it was, whatever the store held before.
pub proof fn credit_adds_exactly(
    store: Map<Seq<char>, u128>,
    account_id: Seq<char>,
    amount: u128,
    other: Seq<char>,
)
    requires
        balance_in(store, account_id) + amount <= u128::MAX,
        other != account_id,
    ensures
        balance_in(credited(store, account_id, amount), account_id) == balance_in(
            store,
            account_id,
        ) + amount,
        balance_in(credited(store, account_id, amount), other) == balance_in(store, other),
{
}

/// Two credits give the same store in either order, to one account or to
/// two, and one account then holds the sum of both.
pub proof fn credits_commute(
    store: Map<Seq<char>, u128>,
    first: Seq<char>,
    a: u128,
    second: Seq<char>,
    b: u128,
)
    requires
        balance_in(store, first) + a <= u128::MAX,
        balance_in(store, second) + b <= u128::MAX,
        first == second ==> balance_in(store, first) + a + b <= u128::MAX,
    ensures
        credited(credited(store, first, a), second, b) == credited(
            credited(store, second, b),
            first,
            a,
        ),
        first == second ==> balance_in(credited(credited(store, first, a), second, b), first)
            == balance_in(store, first) + a + b,
{
    assert(credited(credited(store, first, a), second, b) =~= credited(
        credited(store, second, b),
        first,
        a,
    ));
}

/// After a first deposit of `a`, more than zero, the account may withdraw
/// exactly `a`, and then holds zero.
pub proof fn deposit_then_withdraw(store: Map<Seq<char>, u128>, caller: Seq<char>, a: u128)
    requires
        balance_in(store, caller) == 0,
        a > 0,
    ensures
        withdrawable(credited(store, caller, a), caller) == Ok::<u128, SendError>(a),
        balance_in(credited(store, caller, a).insert(caller, 0), caller) == 0,
{
}

/// Once a batch's total has left the caller's balance, the credit for a
/// failed transfer of the batch adds exactly its amount to whatever the
/// caller holds by then.
pub proof fn failed_transfer_is_credited_back(
    store: Map<Seq<char>, u128>,
    caller: Seq<char>,
    total: u128,
    amount: u128,
)
    requires
        amount <= total <= balance_in(store, caller),
    ensures
        balance_in(debited(store, caller, total), caller) == balance_in(store, caller) - total,
        balance_in(credited(debited(store, caller, total), caller, amount), caller) == balance_in(
            store,
            caller,
        ) - total + amount,
{
}

} // verus!
