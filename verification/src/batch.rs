//! A batch of operations and its validation.

use vstd::prelude::*;
use vstd::string::StringExecFns;
use crate::account::{is_valid_account_id, valid_account_id};
use crate::amount::{decimal_digits, u128_to_string};

verus! {

/// One requested transfer: who receives, and how much.
#[derive(Clone, Debug)]
pub struct Operation {
    pub account_id: String,
    pub amount: u128,
}

/// Why a call was refused. A refused call changes nothing.
#[derive(Clone, Copy, Debug, PartialEq, Eq, Structural)]
pub enum SendError {
    /// The caller has no entry in the balance store.
    UnknownUser,
    /// The caller's entry holds zero.
    NothingToWithdraw,
    /// The recipient at `index` is the first whose identifier is malformed.
    InvalidAccount { index: usize },
    /// The batch asks for more than is available. `demanded` is the batch's
    /// total, or the largest `u128` where the total is beyond it.
    InsufficientFunds { supplied: u128, demanded: u128 },
}

/// The sum of the amounts of a batch.
pub open spec fn total_demand(ops: Seq<Operation>) -> int
    decreases ops.len(),
{
    if ops.len() == 0 {
        0
    } else {
        total_demand(ops.drop_last()) + ops.last().amount
    }
}

/// Every recipient of the batch has a well-formed identifier.
pub open spec fn all_recipients_valid(ops: Seq<Operation>) -> bool {
    forall|i: int| 0 <= i < ops.len() ==> valid_account_id(#[trigger] ops[i].account_id@)
}

/// The recipient at `i` is malformed, and none before it is.
pub open spec fn is_first_invalid(ops: Seq<Operation>, i: int) -> bool {
    &&& 0 <= i < ops.len()
    &&& !valid_account_id(ops[i].account_id@)
    &&& forall|k: int| 0 <= k < i ==> valid_account_id(#[trigger] ops[k].account_id@)
}

/// The place of the first malformed recipient of a batch that has one.
pub open spec fn first_invalid(ops: Seq<Operation>) -> int {
    choose|i: int| is_first_invalid(ops, i)
}

/// A total as a `u128`, held at the largest value where it is beyond it.
pub open spec fn saturated(total: int) -> u128 {
    if total > u128::MAX {
        u128::MAX
    } else {
        total as u128
    }
}

/// What validating a batch against the available funds gives: the batch's
/// total, or the reason for refusing the whole batch. A malformed recipient
/// is reported before a shortage of funds.
pub open spec fn validated(ops: Seq<Operation>, ceiling: u128) -> Result<u128, SendError> {
    if !all_recipients_valid(ops) {
        Err(SendError::InvalidAccount { index: first_invalid(ops) as usize })
    } else if total_demand(ops) > ceiling {
        Err(
            SendError::InsufficientFunds {
                supplied: ceiling,
                demanded: saturated(total_demand(ops)),
            },
        )
    } else {
        Ok(total_demand(ops) as u128)
    }
}

/// How the report of a shortage begins.
pub open spec fn shortage_opening(attached: bool) -> Seq<char> {
    if attached {
        "Not enough attached tokens to run multisender (Supplied: "@
    } else {
        "Not enough deposited tokens to run multisender (Supplied: "@
    }
}

/// The words in which a refusal is reported to the caller. `attached` tells
/// a batch funded by an attached payment from one funded by the balance.
pub open spec fn refusal_line(error: SendError, ops: Seq<Operation>, attached: bool) -> Seq<char> {
    match error {
        SendError::UnknownUser => "Unknown user"@,
        SendError::NothingToWithdraw => "Nothing to withdraw"@,
        SendError::InvalidAccount { index } => "Account @"@ + ops[index as int].account_id@
            + " is invalid"@,
        SendError::InsufficientFunds { supplied, demanded } => shortage_opening(attached)
            + decimal_digits(supplied as nat) + ". Demand: "@ + decimal_digits(demanded as nat)
            + ")"@,
    }
}

/// Writes the words in which a refusal is reported to the caller.
pub fn write_refusal(error: SendError, ops: &Vec<Operation>, attached: bool) -> (line: String)
    requires
        error matches SendError::InvalidAccount { index } ==> index < ops@.len(),
    ensures
        line@ == refusal_line(error, ops@, attached),
{
    match error {
        SendError::UnknownUser => String::from_str("Unknown user"),
        SendError::NothingToWithdraw => String::from_str("Nothing to withdraw"),
        SendError::InvalidAccount { index } => {
            let mut line = String::from_str("Account @");
            line.append(ops[index].account_id.as_str());
            line.append(" is invalid");
            line
        },
        SendError::InsufficientFunds { supplied, demanded } => {
            let mut line = if attached {
                String::from_str("Not enough attached tokens to run multisender (Supplied: ")
            } else {
                String::from_str("Not enough deposited tokens to run multisender (Supplied: ")
            };
            line.append(u128_to_string(supplied).as_str());
            line.append(". Demand: ");
            line.append(u128_to_string(demanded).as_str());
            line.append(")");
            line
        },
    }
}

/// A total is never negative.
pub proof fn lemma_total_demand_nonnegative(ops: Seq<Operation>)
    ensures
        total_demand(ops) >= 0,
    decreases ops.len(),
{
    if ops.len() > 0 {
        lemma_total_demand_nonnegative(ops.drop_last());
    }
}

/// The total of the first `n + 1` operations is the total of the first `n`
/// plus the amount of the next.
pub proof fn lemma_total_demand_step(ops: Seq<Operation>, n: int)
    requires
        0 <= n < ops.len(),
    ensures
        total_demand(ops.take(n + 1)) == total_demand(ops.take(n)) + ops[n].amount,
{
    assert(ops.take(n + 1).drop_last() =~= ops.take(n));
}

/// The total of a prefix is at most the total of the batch.
pub proof fn lemma_total_demand_prefix(ops: Seq<Operation>, n: int)
    requires
        0 <= n <= ops.len(),
    ensures
        0 <= total_demand(ops.take(n)) <= total_demand(ops),
    decreases ops.len() - n,
{
    lemma_total_demand_nonnegative(ops.take(n));
    if n == ops.len() {
        assert(ops.take(n) =~= ops);
    } else {
        lemma_total_demand_step(ops, n);
        lemma_total_demand_prefix(ops, n + 1);
    }
}

/// Checks a batch against the funds available for it.
///
/// Every recipient must be well-formed and the amounts together must not
/// exceed `ceiling`; a sum beyond the range of `u128` exceeds every ceiling.
/// An empty batch is valid, with total zero.
pub fn validate(ops: &Vec<Operation>, ceiling: u128) -> (checked: Result<u128, SendError>)
    ensures
        checked == validated(ops@, ceiling),
{
    let mut sum: u128 = 0;
    let mut beyond: bool = false;
    let mut i: usize = 0;
    while i < ops.len()
        invariant
            i <= ops@.len(),
            forall|k: int| 0 <= k < i ==> valid_account_id(#[trigger] ops@[k].account_id@),
            !beyond ==> sum == total_demand(ops@.take(i as int)),
            beyond ==> total_demand(ops@.take(i as int)) > u128::MAX,
        decreases ops@.len() - i,
    {
        if !is_valid_account_id(&ops[i].account_id) {
            proof {
                assert(is_first_invalid(ops@, i as int));
                let j = first_invalid(ops@);
                assert(is_first_invalid(ops@, j));
                assert(j == i) by {
                    if j < i {
                    } else if j > i {
                    }
                }
            }
            return Err(SendError::InvalidAccount { index: i });
        }
        proof {
            lemma_total_demand_step(ops@, i as int);
        }
        let amount: u128 = ops[i].amount;
        if !beyond {
            if amount > u128::MAX - sum {
                beyond = true;
            } else {
                sum = sum + amount;
            }
        }
        i += 1;
    }
    proof {
        assert(ops@.take(i as int) =~= ops@);
    }
    if beyond {
        Err(SendError::InsufficientFunds { supplied: ceiling, demanded: u128::MAX })
    } else if sum > ceiling {
        Err(SendError::InsufficientFunds { supplied: ceiling, demanded: sum })
    } else {
        Ok(sum)
    }
}

} // verus!
