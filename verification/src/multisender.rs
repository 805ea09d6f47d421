//! The ledger's entry points.

use vstd::prelude::*;
use vstd::string::StringExecFns;
use crate::amount::{decimal_digits, u128_to_string, yton, yton_spec};
use crate::batch::{
    lemma_total_demand_nonnegative, lemma_total_demand_prefix, lemma_total_demand_step,
    total_demand, validate, validated, Operation, SendError,
};
use crate::dispatch::{
    emit, emitted, sending_lines, texts, transfer_for, transfer_of, transfers_for, transfers_of,
    write_sending_lines, Dispatch, Handler, Transfer,
};
use crate::store::{balance_in, distinct_accounts, entries_map, Deposits, Entry};

verus! {

/// How a dispatched transfer ended, as the host reports it.
#[derive(Clone, Copy, Debug, PartialEq, Eq, Structural)]
pub enum PromiseOutcome {
    NotReady,
    Successful,
    Failed,
}

/// Why a completion handler refused to run. Nothing is changed then.
#[derive(Clone, Copy, Debug, PartialEq, Eq, Structural)]
pub enum CallbackError {
    /// The handler was not invoked by the ledger's own account.
    NotSelf,
    /// The host did not report exactly one outcome.
    UnexpectedResultCount,
}

/// An accepted withdrawal: the transfer of the whole balance back to its
/// owner, and the message to emit.
#[derive(Clone, Debug)]
pub struct Withdrawal {
    pub transfer: Transfer,
    pub log: String,
}

/// The store after `amount` was added to what `account_id` holds.
pub open spec fn credited(store: Map<Seq<char>, u128>, account_id: Seq<char>, amount: u128) -> Map<
    Seq<char>,
    u128,
> {
    store.insert(account_id, (balance_in(store, account_id) + amount) as u128)
}

/// The store after `amount` was taken from what `account_id` holds.
pub open spec fn debited(store: Map<Seq<char>, u128>, account_id: Seq<char>, amount: u128) -> Map<
    Seq<char>,
    u128,
> {
    store.insert(account_id, (balance_in(store, account_id) - amount) as u128)
}

/// What a balance-funded batch of `caller` gives: its total, or the reason
/// for refusing it. The caller must have an entry, and the batch is
/// validated against what that entry holds.
pub open spec fn funded_from_balance(
    store: Map<Seq<char>, u128>,
    caller: Seq<char>,
    ops: Seq<Operation>,
) -> Result<u128, SendError> {
    if !store.dom().contains(caller) {
        Err(SendError::UnknownUser)
    } else {
        validated(ops, store[caller])
    }
}

/// What `caller` may withdraw: the whole balance of an entry that holds
/// more than zero.
pub open spec fn withdrawable(store: Map<Seq<char>, u128>, caller: Seq<char>) -> Result<
    u128,
    SendError,
> {
    if !store.dom().contains(caller) {
        Err(SendError::UnknownUser)
    } else if store[caller] == 0 {
        Err(SendError::NothingToWithdraw)
    } else {
        Ok(store[caller])
    }
}

/// The message of a withdrawal.
pub open spec fn withdrawing_line(caller: Seq<char>, tokens: u128) -> Seq<char> {
    "@"@ + caller + " withdrawing "@ + decimal_digits(tokens as nat)
}

/// The message of a failed transfer. `kept` tells a transfer that was funded
/// from the balance from one funded by an attached payment.
pub open spec fn failure_line(recipient: Seq<char>, amount: u128, kept: bool) -> Seq<char> {
    "Transaction to @"@ + recipient + " failed. "@ + decimal_digits(amount as nat) + " yNEAR (~"@
        + decimal_digits(yton_spec(amount) as nat) + (if kept {
        " NEAR) kept on the app deposit"@
    } else {
        " NEAR) moved to the app deposit"@
    })
}

/// Whether the one reported outcome is a success; an error unless exactly
/// one outcome is reported.
pub open spec fn promise_success(results: Seq<PromiseOutcome>) -> Result<bool, CallbackError> {
    if results.len() != 1 {
        Err(CallbackError::UnexpectedResultCount)
    } else {
        Ok(results[0] == PromiseOutcome::Successful)
    }
}

/// What a completion handler learns before it acts: whether the transfer
/// succeeded, or why the handler must not run.
pub open spec fn completion_outcome(
    predecessor: Seq<char>,
    current: Seq<char>,
    results: Seq<PromiseOutcome>,
) -> Result<bool, CallbackError> {
    if predecessor != current {
        Err(CallbackError::NotSelf)
    } else {
        promise_success(results)
    }
}

/// Whether the invoking account is the ledger's own.
pub fn assert_self(predecessor: &String, current: &String) -> (own: bool)
    ensures
        own == (predecessor@ == current@),
{
    *predecessor == *current
}

/// Reads the outcome of the transfer that a completion handler runs for.
pub fn is_promise_success(results: &Vec<PromiseOutcome>) -> (success: Result<bool, CallbackError>)
    ensures
        success == promise_success(results@),
{
    if results.len() != 1 {
        return Err(CallbackError::UnexpectedResultCount);
    }
    match results[0] {
        PromiseOutcome::Successful => Ok(true),
        _ => Ok(false),
    }
}

/// Writes the message of a failed transfer.
fn write_failure_line(recipient: &String, amount: u128, kept: bool) -> (line: String)
    ensures
        line@ == failure_line(recipient@, amount, kept),
{
    let mut line = String::from_str("Transaction to @");
    line.append(recipient.as_str());
    line.append(" failed. ");
    line.append(u128_to_string(amount).as_str());
    line.append(" yNEAR (~");
    line.append(u128_to_string(yton(amount)).as_str());
    if kept {
        line.append(" NEAR) kept on the app deposit");
    } else {
        line.append(" NEAR) moved to the app deposit");
    }
    line
}

/// The ledger: the balances deposited with it.
pub struct Multisender {
    deposits: Deposits,
}

impl Default for Multisender {
    /// A ledger that holds nothing.
    fn default() -> (ledger: Self)
        ensures
            ledger.wf(),
            ledger@ == Map::<Seq<char>, u128>::empty(),
    {
        Multisender::new()
    }
}

impl Multisender {
    /// The invariant of the ledger's store.
    pub closed spec fn wf(&self) -> bool {
        self.deposits.wf()
    }

    /// The ledger as a map from account identifier to balance.
    pub closed spec fn view(&self) -> Map<Seq<char>, u128> {
        self.deposits@
    }

    /// A ledger that holds nothing.
    pub fn new() -> (ledger: Self)
        ensures
            ledger.wf(),
            ledger@ == Map::<Seq<char>, u128>::empty(),
    {
        Multisender { deposits: Deposits::new() }
    }

    /// The ledger that a list of entries stands for. Where an account occurs
    /// twice, its later entry counts.
    pub fn from_entries(entries: Vec<Entry>) -> (ledger: Self)
        ensures
            ledger.wf(),
            ledger@ == entries_map(entries@),
    {
        Multisender { deposits: Deposits::from_entries(entries) }
    }

    /// The entries of the ledger, each account once.
    pub fn to_entries(&self) -> (entries: Vec<Entry>)
        requires
            self.wf(),
        ensures
            distinct_accounts(entries@),
            entries_map(entries@) == self@,
    {
        self.deposits.to_entries()
    }

    /// Sends the attached payment to the recipients of the batch.
    ///
    /// The batch is validated against `attached`. The store is never changed
    /// here; each transfer carries a completion that credits the caller if
    /// the transfer fails.
    pub fn multisend_attached_tokens(
        &mut self,
        caller: &String,
        attached: u128,
        accounts: Vec<Operation>,
    ) -> (sent: Result<Dispatch, SendError>)
        requires
            old(self).wf(),
        ensures
            final(self).wf(),
            final(self)@ == old(self)@,
            match validated(accounts@, attached) {
                Err(e) => sent == Err::<Dispatch, SendError>(e),
                Ok(_) => match sent {
                    Err(_) => false,
                    Ok(d) => transfers_for(
                        d.transfers@,
                        Some(Handler::OnTransferAttachedTokens),
                        caller@,
                        accounts@,
                    ) && texts(d.logs@) == emitted(sending_lines(accounts@, true)),
                },
            },
    {
        match validate(&accounts, attached) {
            Err(e) => Err(e),
            Ok(_) => {
                let lines = write_sending_lines(&accounts, true);
                let transfers = transfers_of(
                    &accounts,
                    Some(Handler::OnTransferAttachedTokens),
                    caller,
                );
                Ok(Dispatch { transfers, logs: emit(lines) })
            },
        }
    }

    /// Sends from the caller's balance, with compensation for failures.
    ///
    /// The caller needs an entry, and the batch is validated against what it
    /// holds. Each operation's amount leaves the balance before its transfer
    /// is handed out, so that the same funds cannot be spent by a later call
    /// while the transfers are pending; each transfer carries a completion
    /// that credits the amount back if the transfer fails.
    pub fn multisend_from_balance(&mut self, caller: &String, accounts: Vec<Operation>) -> (sent:
        Result<Dispatch, SendError>)
        requires
            old(self).wf(),
        ensures
            final(self).wf(),
            match funded_from_balance(old(self)@, caller@, accounts@) {
                Err(e) => sent == Err::<Dispatch, SendError>(e) && final(self)@ == old(self)@,
                Ok(total) => final(self)@ == debited(old(self)@, caller@, total) && match sent {
                    Err(_) => false,
                    Ok(d) => transfers_for(
                        d.transfers@,
                        Some(Handler::OnTransferFromBalance),
                        caller@,
                        accounts@,
                    ) && texts(d.logs@) == emitted(sending_lines(accounts@, true)),
                },
            },
    {
        let held = match self.deposits.get(caller) {
            None => { return Err(SendError::UnknownUser); },
            Some(tokens) => tokens,
        };
        let total = match validate(&accounts, held) {
            Err(e) => { return Err(e); },
            Ok(total) => total,
        };
        proof {
            lemma_total_demand_nonnegative(accounts@);
        }
        let lines = write_sending_lines(&accounts, true);
        let mut tokens: u128 = held;
        let mut transfers: Vec<Transfer> = Vec::new();
        let mut i: usize = 0;
        while i < accounts.len()
            invariant
                self.deposits.wf(),
                i <= accounts@.len(),
                total == total_demand(accounts@),
                total <= held,
                tokens == held - total_demand(accounts@.take(i as int)),
                self.deposits@ == old(self).deposits@.insert(caller@, tokens),
                transfers@.len() == i,
                forall|k: int|
                    0 <= k < i ==> transfer_for(
                        #[trigger] transfers@[k],
                        Some(Handler::OnTransferFromBalance),
                        caller@,
                        accounts@[k],
                    ),
            decreases accounts@.len() - i,
        {
            proof {
                lemma_total_demand_step(accounts@, i as int);
                lemma_total_demand_prefix(accounts@, i + 1);
            }
            tokens = tokens - accounts[i].amount;
            self.deposits.insert(caller.clone(), tokens);
            transfers.push(transfer_of(&accounts[i], Some(Handler::OnTransferFromBalance), caller));
            i += 1;
        }
        proof {
            assert(accounts@.take(i as int) =~= accounts@);
        }
        Ok(Dispatch { transfers, logs: emit(lines) })
    }

    /// Sends from the caller's balance, without compensation for failures.
    ///
    /// The caller needs an entry, and the batch is validated against what it
    /// holds. The whole total leaves the balance at once, before any
    /// transfer is handed out, and no transfer carries a completion: what a
    /// failed transfer loses is never credited back to the caller.
    pub fn multisend_from_balance_unsafe(
        &mut self,
        caller: &String,
        accounts: Vec<Operation>,
    ) -> (sent: Result<Dispatch, SendError>)
        requires
            old(self).wf(),
        ensures
            final(self).wf(),
            match funded_from_balance(old(self)@, caller@, accounts@) {
                Err(e) => sent == Err::<Dispatch, SendError>(e) && final(self)@ == old(self)@,
                Ok(total) => final(self)@ == debited(old(self)@, caller@, total) && match sent {
                    Err(_) => false,
                    Ok(d) => transfers_for(d.transfers@, None, caller@, accounts@) && texts(d.logs@)
                        == emitted(sending_lines(accounts@, false)),
                },
            },
    {
        let held = match self.deposits.get(caller) {
            None => { return Err(SendError::UnknownUser); },
            Some(tokens) => tokens,
        };
        let total = match validate(&accounts, held) {
            Err(e) => { return Err(e); },
            Ok(total) => total,
        };
        proof {
            lemma_total_demand_nonnegative(accounts@);
        }
        self.deposits.insert(caller.clone(), held - total);
        let lines = write_sending_lines(&accounts, false);
        let transfers = transfers_of(&accounts, None, caller);
        Ok(Dispatch { transfers, logs: emit(lines) })
    }

    /// What both completion handlers do.
    ///
    /// The host is taken to run a handler once for each transfer. Nothing
    /// here remembers which transfers were handled: a second run for the same
    /// failed transfer credits its amount a second time.
    fn on_transfer(
        &mut self,
        predecessor: &String,
        current: &String,
        results: &Vec<PromiseOutcome>,
        account_id: String,
        amount_sent: u128,
        recipient: String,
        kept: bool,
    ) -> (done: Result<Option<String>, CallbackError>)
        requires
            old(self).wf(),
            completion_outcome(predecessor@, current@, results@) == Ok::<bool, CallbackError>(false)
                ==> balance_in(old(self)@, account_id@) + amount_sent <= u128::MAX,
        ensures
            final(self).wf(),
            match completion_outcome(predecessor@, current@, results@) {
                Err(e) => done == Err::<Option<String>, CallbackError>(e) && final(self)@ == old(
                    self,
                )@,
                Ok(true) => done == Ok::<Option<String>, CallbackError>(None) && final(self)@
                    == old(self)@,
                Ok(false) => final(self)@ == credited(old(self)@, account_id@, amount_sent)
                    && match done {
                    Ok(Some(line)) => line@ == failure_line(recipient@, amount_sent, kept),
                    _ => false,
                },
            },
    {
        if !assert_self(predecessor, current) {
            return Err(CallbackError::NotSelf);
        }
        match is_promise_success(results) {
            Err(e) => Err(e),
            Ok(true) => Ok(None),
            Ok(false) => {
                let line = write_failure_line(&recipient, amount_sent, kept);
                let previous_balance: u128 = self.get_deposit(account_id.clone());
                self.deposits.insert(account_id, previous_balance + amount_sent);
                Ok(Some(line))
            },
        }
    }

    /// Runs when a transfer of `multisend_from_balance` has ended.
    ///
    /// Only the ledger's own account may invoke it, and exactly one outcome
    /// must be reported. After a failure, `amount_sent` is added to what
    /// `account_id` holds and the message to emit is returned; after a
    /// success nothing changes.
    pub fn on_transfer_from_balance(
        &mut self,
        predecessor: &String,
        current: &String,
        results: &Vec<PromiseOutcome>,
        account_id: String,
        amount_sent: u128,
        recipient: String,
    ) -> (done: Result<Option<String>, CallbackError>)
        requires
            old(self).wf(),
            completion_outcome(predecessor@, current@, results@) == Ok::<bool, CallbackError>(false)
                ==> balance_in(old(self)@, account_id@) + amount_sent <= u128::MAX,
        ensures
            final(self).wf(),
            match completion_outcome(predecessor@, current@, results@) {
                Err(e) => done == Err::<Option<String>, CallbackError>(e) && final(self)@ == old(
                    self,
                )@,
                Ok(true) => done == Ok::<Option<String>, CallbackError>(None) && final(self)@
                    == old(self)@,
                Ok(false) => final(self)@ == credited(old(self)@, account_id@, amount_sent)
                    && match done {
                    Ok(Some(line)) => line@ == failure_line(recipient@, amount_sent, true),
                    _ => false,
                },
            },
    {
        self.on_transfer(predecessor, current, results, account_id, amount_sent, recipient, true)
    }

    /// Runs when a transfer of `multisend_attached_tokens` has ended.
    ///
    /// Only the ledger's own account may invoke it, and exactly one outcome
    /// must be reported. After a failure, `amount_sent` is added to what
    /// `account_id` holds, as the attached payment cannot be handed back any
    /// other way, and the message to emit is returned; after a success
    /// nothing changes.
    pub fn on_transfer_attached_tokens(
        &mut self,
        predecessor: &String,
        current: &String,
        results: &Vec<PromiseOutcome>,
        account_id: String,
        amount_sent: u128,
        recipient: String,
    ) -> (done: Result<Option<String>, CallbackError>)
        requires
            old(self).wf(),
            completion_outcome(predecessor@, current@, results@) == Ok::<bool, CallbackError>(false)
                ==> balance_in(old(self)@, account_id@) + amount_sent <= u128::MAX,
        ensures
            final(self).wf(),
            match completion_outcome(predecessor@, current@, results@) {
                Err(e) => done == Err::<Option<String>, CallbackError>(e) && final(self)@ == old(
                    self,
                )@,
                Ok(true) => done == Ok::<Option<String>, CallbackError>(None) && final(self)@
                    == old(self)@,
                Ok(false) => final(self)@ == credited(old(self)@, account_id@, amount_sent)
                    && match done {
                    Ok(Some(line)) => line@ == failure_line(recipient@, amount_sent, false),
                    _ => false,
                },
            },
    {
        self.on_transfer(predecessor, current, results, account_id, amount_sent, recipient, false)
    }

    /// Adds the attached payment to what the caller holds.
    pub fn deposit(&mut self, caller: &String, attached: u128)
        requires
            old(self).wf(),
            balance_in(old(self)@, caller@) + attached <= u128::MAX,
        ensures
            final(self).wf(),
            final(self)@ == credited(old(self)@, caller@, attached),
    {
        let previous_balance: u128 = self.get_deposit(caller.clone());
        self.deposits.insert(caller.clone(), previous_balance + attached);
    }

    /// Hands the caller's whole balance back.
    ///
    /// The entry is set to zero before the transfer is handed out, so that a
    /// second withdrawal finds nothing while the first is pending. The
    /// transfer carries no completion: unlike a failed transfer of a
    /// reconciled batch, a failed withdrawal is not credited back, and the
    /// ledger no longer holds its amount.
    pub fn withdraw(&mut self, caller: &String) -> (taken: Result<Withdrawal, SendError>)
        requires
            old(self).wf(),
        ensures
            final(self).wf(),
            match withdrawable(old(self)@, caller@) {
                Err(e) => taken == Err::<Withdrawal, SendError>(e) && final(self)@ == old(self)@,
                Ok(tokens) => final(self)@ == old(self)@.insert(caller@, 0) && match taken {
                    Err(_) => false,
                    Ok(w) => w.transfer.recipient@ == caller@ && w.transfer.amount == tokens
                        && w.transfer.completion is None && w.log@ == withdrawing_line(
                        caller@,
                        tokens,
                    ),
                },
            },
    {
        let tokens = match self.deposits.get(caller) {
            None => { return Err(SendError::UnknownUser); },
            Some(tokens) => tokens,
        };
        if tokens == 0 {
            return Err(SendError::NothingToWithdraw);
        }
        let mut log = String::from_str("@");
        log.append(caller.as_str());
        log.append(" withdrawing ");
        log.append(u128_to_string(tokens).as_str());
        self.deposits.insert(caller.clone(), 0);
        let transfer = Transfer { recipient: caller.clone(), amount: tokens, completion: None };
        Ok(Withdrawal { transfer, log })
    }

    /// What the account holds: zero where it has no entry.
    pub fn get_deposit(&self, account_id: String) -> (balance: u128)
        requires
            self.wf(),
        ensures
            balance == balance_in(self@, account_id@),
    {
        match self.deposits.get(&account_id) {
            Some(deposit) => deposit,
            None => 0,
        }
    }
}

} // verus!
