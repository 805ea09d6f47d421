use multisender::amount::{ntoy, yton};
use multisender::batch::{validate, write_refusal, Operation, SendError};
use multisender::dispatch::{emit, write_sending_line, Handler};
use multisender::multisender::{
    assert_self, is_promise_success, CallbackError, Multisender, PromiseOutcome,
};
use multisender::store::{Deposits, Entry};

fn alice_account() -> String {
    "alice.near".to_string()
}

fn bob_account() -> String {
    "bob.near".to_string()
}

fn carol_account() -> String {
    "carol.near".to_string()
}

fn ledger_account() -> String {
    "multisender.near".to_string()
}

fn op(account_id: &str, amount: u128) -> Operation {
    Operation { account_id: account_id.to_string(), amount }
}

fn failed() -> Vec<PromiseOutcome> {
    vec![PromiseOutcome::Failed]
}

fn succeeded() -> Vec<PromiseOutcome> {
    vec![PromiseOutcome::Successful]
}

#[test]
fn test_deposit() {
    let mut contract = Multisender::default();

    contract.deposit(&alice_account(), ntoy(100));

    assert_eq!(ntoy(100), contract.get_deposit(alice_account()));
}

#[test]
fn test_deposit_withdraw() {
    let mut contract = Multisender::default();

    contract.deposit(&alice_account(), ntoy(100));
    let taken = contract.withdraw(&alice_account()).unwrap();

    assert_eq!(0, contract.get_deposit(alice_account()));
    assert_eq!(taken.transfer.amount, ntoy(100));
    assert_eq!(taken.transfer.recipient, alice_account());
    assert!(taken.transfer.completion.is_none());
    assert_eq!(taken.log, "@alice.near withdrawing 100000000000000000000000000");
}

#[test]
fn get_deposit_without_history_is_zero() {
    let contract = Multisender::new();
    assert_eq!(contract.get_deposit(alice_account()), 0);
    let mut contract = Multisender::new();
    contract.deposit(&bob_account(), 7);
    assert_eq!(contract.get_deposit(alice_account()), 0);
    assert_eq!(contract.get_deposit(bob_account()), 7);
}

#[test]
fn ntoy_and_yton_exact_values() {
    assert_eq!(ntoy(0), 0);
    assert_eq!(ntoy(1), 1_000_000_000_000_000_000_000_000);
    assert_eq!(ntoy(100), 100_000_000_000_000_000_000_000_000);
    assert_eq!(yton(0), 0);
    assert_eq!(yton(499_999_999_999_999_999_999_999), 0);
    assert_eq!(yton(500_000_000_000_000_000_000_000), 1);
    assert_eq!(yton(1_499_999_999_999_999_999_999_999), 1);
    assert_eq!(yton(1_500_000_000_000_000_000_000_000), 2);
    assert_eq!(yton(ntoy(42)), 42);
    assert_eq!(yton(u128::MAX), 340_282_366_920_938);
}

#[test]
fn store_insert_and_get() {
    let mut store = Deposits::new();
    assert!(!store.contains_key(&alice_account()));
    assert_eq!(store.get(&alice_account()), None);
    store.insert(alice_account(), 5);
    store.insert(bob_account(), 6);
    store.insert(alice_account(), 9);
    assert!(store.contains_key(&alice_account()));
    assert_eq!(store.get(&alice_account()), Some(9));
    assert_eq!(store.get(&bob_account()), Some(6));
    assert_eq!(store.get(&carol_account()), None);
    store.insert(bob_account(), 0);
    assert!(store.contains_key(&bob_account()));
    assert_eq!(store.get(&bob_account()), Some(0));
}

#[test]
fn validate_empty_batch_is_zero() {
    assert_eq!(validate(&vec![], 0), Ok(0));
    assert_eq!(validate(&vec![], 17), Ok(17 - 17));
}

#[test]
fn validate_returns_the_total() {
    let ops = vec![op("alice.near", 40), op("bob.near", 60)];
    assert_eq!(validate(&ops, 100), Ok(100));
    assert_eq!(validate(&ops, 101), Ok(100));
    assert_eq!(
        validate(&ops, 99),
        Err(SendError::InsufficientFunds { supplied: 99, demanded: 100 })
    );
}

#[test]
fn validate_refuses_malformed_recipients() {
    for bad in [
        "a", "", "Alice.near", "alice..near", ".alice", "alice.", "alice near", "al!ce", "a_-b",
        "-a", "a-", "ålice.near", "é",
    ] {
        let ops = vec![op("alice.near", 1), op(bad, 1), op("A", 1)];
        assert_eq!(validate(&ops, 100), Err(SendError::InvalidAccount { index: 1 }), "{}", bad);
    }
    let long = "a".repeat(65);
    assert_eq!(validate(&vec![op(&long, 1)], 100), Err(SendError::InvalidAccount { index: 0 }));
}

#[test]
fn validate_accepts_well_formed_recipients() {
    let longest = "a".repeat(64);
    for good in ["aa", "a-a", "a_b.c-d", "100", "alice.near", "0o0ooo00oo00o", &longest] {
        assert_eq!(validate(&vec![op(good, 3)], 3), Ok(3), "{}", good);
    }
}

#[test]
fn validate_reports_a_malformed_recipient_before_a_shortage() {
    let ops = vec![op("alice.near", u128::MAX), op("bob.near", 5), op("Bad", 1)];
    assert_eq!(validate(&ops, 1), Err(SendError::InvalidAccount { index: 2 }));
}

#[test]
fn validate_treats_overflow_as_a_shortage() {
    let ops = vec![op("alice.near", u128::MAX), op("bob.near", 1)];
    assert_eq!(
        validate(&ops, u128::MAX),
        Err(SendError::InsufficientFunds { supplied: u128::MAX, demanded: u128::MAX })
    );
    let ops = vec![op("alice.near", u128::MAX), op("bob.near", 0)];
    assert_eq!(validate(&ops, u128::MAX), Ok(u128::MAX));
    let ops = vec![op("alice.near", u128::MAX - 1), op("bob.near", 2), op("carol.near", 3)];
    assert_eq!(
        validate(&ops, 10),
        Err(SendError::InsufficientFunds { supplied: 10, demanded: u128::MAX })
    );
}

#[test]
fn sending_line_texts() {
    assert_eq!(
        write_sending_line(&op("bob.near", 1_500_000_000_000_000_000_000_000), true),
        "Sending 1500000000000000000000000 yNEAR (~2 NEAR) to account @bob.near"
    );
    assert_eq!(
        write_sending_line(&op("bob.near", 1_500_000_000_000_000_000_000_000), false),
        "Sending 1500000000000000000000000 yNEAR to account @bob.near"
    );
    assert_eq!(
        write_sending_line(&op("carol.near", 0), true),
        "Sending 0 yNEAR (~0 NEAR) to account @carol.near"
    );
    assert_eq!(
        write_sending_line(&op("carol.near", u128::MAX), true),
        "Sending 340282366920938463463374607431768211455 yNEAR (~340282366920938 NEAR) to account @carol.near"
    );
}

#[test]
fn emit_keeps_a_small_batch_line_by_line() {
    let lines: Vec<String> = (0..99).map(|i| format!("line {}", i)).collect();
    assert_eq!(emit(lines.clone()), lines);
    assert_eq!(emit(vec![]), Vec::<String>::new());
}

#[test]
fn emit_combines_a_large_batch() {
    let lines: Vec<String> = (0..100).map(|i| format!("line {}", i)).collect();
    let logs = emit(lines.clone());
    assert_eq!(logs.len(), 1);
    let mut expected = "Done!\n".to_string();
    for line in &lines {
        expected.push_str(line);
        expected.push('\n');
    }
    assert_eq!(logs[0], expected);
    assert!(logs[0].starts_with("Done!\nline 0\nline 1\n"));
    assert!(logs[0].ends_with("line 99\n"));
}

#[test]
fn deposits_add_up_in_either_order() {
    let mut first = Multisender::new();
    first.deposit(&alice_account(), 30);
    first.deposit(&alice_account(), 12);
    let mut second = Multisender::new();
    second.deposit(&alice_account(), 12);
    second.deposit(&alice_account(), 30);
    assert_eq!(first.get_deposit(alice_account()), 42);
    assert_eq!(second.get_deposit(alice_account()), 42);
}

#[test]
fn deposit_reaches_the_top_of_the_range() {
    let mut contract = Multisender::new();
    contract.deposit(&alice_account(), u128::MAX - 1);
    contract.deposit(&alice_account(), 1);
    assert_eq!(contract.get_deposit(alice_account()), u128::MAX);
}

#[test]
fn withdraw_needs_an_entry_that_holds_something() {
    let mut contract = Multisender::new();
    assert_eq!(contract.withdraw(&alice_account()).unwrap_err(), SendError::UnknownUser);
    contract.deposit(&alice_account(), 0);
    assert_eq!(contract.withdraw(&alice_account()).unwrap_err(), SendError::NothingToWithdraw);
    contract.deposit(&alice_account(), 8);
    assert_eq!(contract.withdraw(&alice_account()).unwrap().transfer.amount, 8);
    assert_eq!(contract.withdraw(&alice_account()).unwrap_err(), SendError::NothingToWithdraw);
    assert_eq!(contract.get_deposit(alice_account()), 0);
}

#[test]
fn failed_withdrawal_is_not_credited_back() {
    let mut contract = Multisender::new();
    contract.deposit(&alice_account(), 8);
    let taken = contract.withdraw(&alice_account()).unwrap();
    assert!(taken.transfer.completion.is_none());
    assert_eq!(contract.get_deposit(alice_account()), 0);
}

#[test]
fn reconciled_batch_failure_restores_the_amount() {
    let mut contract = Multisender::new();
    contract.deposit(&alice_account(), 100);
    let sent = contract
        .multisend_from_balance(&alice_account(), vec![op("bob.near", 40), op("carol.near", 60)])
        .unwrap();
    assert_eq!(contract.get_deposit(alice_account()), 0);
    assert_eq!(sent.transfers.len(), 2);
    assert_eq!(sent.transfers[0].recipient, "bob.near");
    assert_eq!(sent.transfers[0].amount, 40);
    assert_eq!(sent.transfers[1].recipient, "carol.near");
    assert_eq!(sent.transfers[1].amount, 60);
    assert_eq!(
        sent.logs,
        vec![
            "Sending 40 yNEAR (~0 NEAR) to account @bob.near".to_string(),
            "Sending 60 yNEAR (~0 NEAR) to account @carol.near".to_string(),
        ]
    );
    let first = sent.transfers[0].completion.clone().unwrap();
    let second = sent.transfers[1].completion.clone().unwrap();
    assert_eq!(first.handler, Handler::OnTransferFromBalance);
    assert_eq!(second.handler, Handler::OnTransferFromBalance);
    assert_eq!(second.account_id, alice_account());
    assert_eq!(second.amount_sent, 60);
    assert_eq!(second.recipient, "carol.near");

    let done = contract.on_transfer_from_balance(
        &ledger_account(),
        &ledger_account(),
        &succeeded(),
        first.account_id,
        first.amount_sent,
        first.recipient,
    );
    assert_eq!(done, Ok(None));
    assert_eq!(contract.get_deposit(alice_account()), 0);

    let done = contract.on_transfer_from_balance(
        &ledger_account(),
        &ledger_account(),
        &failed(),
        second.account_id,
        second.amount_sent,
        second.recipient,
    );
    assert_eq!(
        done,
        Ok(Some(
            "Transaction to @carol.near failed. 60 yNEAR (~0 NEAR) kept on the app deposit"
                .to_string()
        ))
    );
    assert_eq!(contract.get_deposit(alice_account()), 60);
    assert_eq!(contract.get_deposit(carol_account()), 0);
}

#[test]
fn reconciled_batch_success_leaves_zero() {
    let mut contract = Multisender::new();
    contract.deposit(&alice_account(), 100);
    let sent = contract
        .multisend_from_balance(&alice_account(), vec![op("bob.near", 40), op("carol.near", 60)])
        .unwrap();
    for transfer in sent.transfers {
        let context = transfer.completion.unwrap();
        let done = contract.on_transfer_from_balance(
            &ledger_account(),
            &ledger_account(),
            &succeeded(),
            context.account_id,
            context.amount_sent,
            context.recipient,
        );
        assert_eq!(done, Ok(None));
    }
    assert_eq!(contract.get_deposit(alice_account()), 0);
}

#[test]
fn balance_batch_over_the_balance_is_refused() {
    let mut contract = Multisender::new();
    contract.deposit(&alice_account(), 50);
    let refused = contract
        .multisend_from_balance(&alice_account(), vec![op("bob.near", 25), op("carol.near", 35)])
        .unwrap_err();
    assert_eq!(refused, SendError::InsufficientFunds { supplied: 50, demanded: 60 });
    assert_eq!(contract.get_deposit(alice_account()), 50);
    let refused = contract
        .multisend_from_balance_unsafe(
            &alice_account(),
            vec![op("bob.near", 25), op("carol.near", 35)],
        )
        .unwrap_err();
    assert_eq!(refused, SendError::InsufficientFunds { supplied: 50, demanded: 60 });
    assert_eq!(contract.get_deposit(alice_account()), 50);
}

#[test]
fn balance_batch_needs_a_known_user() {
    let mut contract = Multisender::new();
    contract.deposit(&bob_account(), 50);
    assert_eq!(
        contract.multisend_from_balance(&alice_account(), vec![]).unwrap_err(),
        SendError::UnknownUser
    );
    assert_eq!(
        contract.multisend_from_balance_unsafe(&alice_account(), vec![]).unwrap_err(),
        SendError::UnknownUser
    );
    assert_eq!(contract.get_deposit(bob_account()), 50);
    assert_eq!(contract.get_deposit(alice_account()), 0);
}

#[test]
fn balance_batch_with_a_malformed_recipient_changes_nothing() {
    let mut contract = Multisender::new();
    contract.deposit(&alice_account(), 50);
    let refused = contract
        .multisend_from_balance(&alice_account(), vec![op("bob.near", 5), op("Bob", 5)])
        .unwrap_err();
    assert_eq!(refused, SendError::InvalidAccount { index: 1 });
    assert_eq!(contract.get_deposit(alice_account()), 50);
}

#[test]
fn empty_balance_batch_is_a_no_op() {
    let mut contract = Multisender::new();
    contract.deposit(&alice_account(), 50);
    let sent = contract.multisend_from_balance(&alice_account(), vec![]).unwrap();
    assert!(sent.transfers.is_empty());
    assert!(sent.logs.is_empty());
    assert_eq!(contract.get_deposit(alice_account()), 50);
}

#[test]
fn attached_batch_touches_no_balance() {
    let mut contract = Multisender::new();
    contract.deposit(&bob_account(), 5);
    let sent = contract
        .multisend_attached_tokens(
            &alice_account(),
            60,
            vec![op("bob.near", 10), op("carol.near", 20), op("dave.near", 30)],
        )
        .unwrap();
    assert_eq!(sent.transfers.len(), 3);
    assert_eq!(sent.logs.len(), 3);
    assert_eq!(sent.logs[2], "Sending 30 yNEAR (~0 NEAR) to account @dave.near");
    assert_eq!(contract.get_deposit(alice_account()), 0);
    assert_eq!(contract.get_deposit(bob_account()), 5);
    assert_eq!(contract.get_deposit(carol_account()), 0);

    let amounts: Vec<u128> = sent.transfers.iter().map(|t| t.amount).collect();
    assert_eq!(amounts, vec![10, 20, 30]);
    let context = sent.transfers[1].completion.clone().unwrap();
    assert_eq!(context.handler, Handler::OnTransferAttachedTokens);
    assert_eq!(context.account_id, alice_account());
    let done = contract.on_transfer_attached_tokens(
        &ledger_account(),
        &ledger_account(),
        &failed(),
        context.account_id,
        context.amount_sent,
        context.recipient,
    );
    assert_eq!(
        done,
        Ok(Some(
            "Transaction to @carol.near failed. 20 yNEAR (~0 NEAR) moved to the app deposit"
                .to_string()
        ))
    );
    assert_eq!(contract.get_deposit(alice_account()), 20);
    assert_eq!(contract.get_deposit(bob_account()), 5);
    assert_eq!(contract.get_deposit(carol_account()), 0);
}

#[test]
fn attached_batch_over_the_payment_is_refused() {
    let mut contract = Multisender::new();
    contract.deposit(&alice_account(), 500);
    let refused = contract
        .multisend_attached_tokens(&alice_account(), 29, vec![op("bob.near", 10), op("carol.near", 20)])
        .unwrap_err();
    assert_eq!(refused, SendError::InsufficientFunds { supplied: 29, demanded: 30 });
    assert_eq!(contract.get_deposit(alice_account()), 500);
}

#[test]
fn unsafe_batch_deducts_the_total_and_registers_nothing() {
    let mut contract = Multisender::new();
    contract.deposit(&alice_account(), 100);
    let sent = contract
        .multisend_from_balance_unsafe(
            &alice_account(),
            vec![op("bob.near", 10), op("carol.near", 20), op("bob.near", 30)],
        )
        .unwrap();
    assert_eq!(contract.get_deposit(alice_account()), 40);
    assert_eq!(sent.transfers.len(), 3);
    assert!(sent.transfers.iter().all(|t| t.completion.is_none()));
    assert_eq!(sent.transfers[2].recipient, "bob.near");
    assert_eq!(sent.transfers[2].amount, 30);
    assert_eq!(
        sent.logs,
        vec![
            "Sending 10 yNEAR to account @bob.near".to_string(),
            "Sending 20 yNEAR to account @carol.near".to_string(),
            "Sending 30 yNEAR to account @bob.near".to_string(),
        ]
    );
}

#[test]
fn large_batch_emits_one_message() {
    let mut contract = Multisender::new();
    contract.deposit(&alice_account(), 1000);
    let ops: Vec<Operation> = (0..100).map(|_| op("bob.near", 2)).collect();
    let sent = contract.multisend_from_balance(&alice_account(), ops).unwrap();
    assert_eq!(contract.get_deposit(alice_account()), 800);
    assert_eq!(sent.transfers.len(), 100);
    assert_eq!(sent.logs.len(), 1);
    let expected =
        format!("Done!\n{}", "Sending 2 yNEAR (~0 NEAR) to account @bob.near\n".repeat(100));
    assert_eq!(sent.logs[0], expected);

    let ops: Vec<Operation> = (0..99).map(|_| op("bob.near", 2)).collect();
    let sent = contract.multisend_attached_tokens(&alice_account(), 198, ops).unwrap();
    assert_eq!(sent.logs.len(), 99);
}

#[test]
fn completion_handlers_refuse_other_callers() {
    let mut contract = Multisender::new();
    contract.deposit(&alice_account(), 1);
    let done = contract.on_transfer_from_balance(
        &alice_account(),
        &ledger_account(),
        &failed(),
        alice_account(),
        60,
        bob_account(),
    );
    assert_eq!(done, Err(CallbackError::NotSelf));
    let done = contract.on_transfer_attached_tokens(
        &alice_account(),
        &ledger_account(),
        &failed(),
        alice_account(),
        60,
        bob_account(),
    );
    assert_eq!(done, Err(CallbackError::NotSelf));
    assert_eq!(contract.get_deposit(alice_account()), 1);
}

#[test]
fn completion_handlers_need_exactly_one_outcome() {
    let mut contract = Multisender::new();
    let done = contract.on_transfer_from_balance(
        &ledger_account(),
        &ledger_account(),
        &vec![],
        alice_account(),
        60,
        bob_account(),
    );
    assert_eq!(done, Err(CallbackError::UnexpectedResultCount));
    let done = contract.on_transfer_attached_tokens(
        &ledger_account(),
        &ledger_account(),
        &vec![PromiseOutcome::Failed, PromiseOutcome::Failed],
        alice_account(),
        60,
        bob_account(),
    );
    assert_eq!(done, Err(CallbackError::UnexpectedResultCount));
    assert_eq!(contract.get_deposit(alice_account()), 0);
}

#[test]
fn promise_outcomes() {
    assert_eq!(is_promise_success(&succeeded()), Ok(true));
    assert_eq!(is_promise_success(&failed()), Ok(false));
    assert_eq!(is_promise_success(&vec![PromiseOutcome::NotReady]), Ok(false));
    assert_eq!(is_promise_success(&vec![]), Err(CallbackError::UnexpectedResultCount));
    assert_eq!(
        is_promise_success(&vec![PromiseOutcome::Successful, PromiseOutcome::Successful]),
        Err(CallbackError::UnexpectedResultCount)
    );
}

#[test]
fn assert_self_compares_the_two_accounts() {
    assert!(assert_self(&ledger_account(), &ledger_account()));
    assert!(!assert_self(&alice_account(), &ledger_account()));
}

#[test]
fn credit_for_a_failure_creates_the_entry() {
    let mut contract = Multisender::new();
    let done = contract.on_transfer_attached_tokens(
        &ledger_account(),
        &ledger_account(),
        &failed(),
        alice_account(),
        ntoy(3),
        bob_account(),
    );
    assert_eq!(
        done,
        Ok(Some(
            "Transaction to @bob.near failed. 3000000000000000000000000 yNEAR (~3 NEAR) moved to the app deposit"
                .to_string()
        ))
    );
    assert_eq!(contract.get_deposit(alice_account()), ntoy(3));
    assert_eq!(contract.withdraw(&alice_account()).unwrap().transfer.amount, ntoy(3));
}

#[test]
fn failures_are_credited_in_any_order() {
    let mut contract = Multisender::new();
    contract.deposit(&alice_account(), 100);
    let first = contract
        .multisend_from_balance(&alice_account(), vec![op("bob.near", 10), op("carol.near", 20)])
        .unwrap();
    let second = contract
        .multisend_from_balance(&alice_account(), vec![op("bob.near", 30)])
        .unwrap();
    assert_eq!(contract.get_deposit(alice_account()), 40);
    let late = first.transfers[1].completion.clone().unwrap();
    let early = second.transfers[0].completion.clone().unwrap();
    let after_dispatch = contract.get_deposit(alice_account());
    contract
        .on_transfer_from_balance(
            &ledger_account(),
            &ledger_account(),
            &failed(),
            early.account_id,
            early.amount_sent,
            early.recipient,
        )
        .unwrap();
    let before = contract.get_deposit(alice_account());
    assert_eq!(before, after_dispatch + 30);
    contract
        .on_transfer_from_balance(
            &ledger_account(),
            &ledger_account(),
            &failed(),
            late.account_id,
            late.amount_sent,
            late.recipient,
        )
        .unwrap();
    assert_eq!(contract.get_deposit(alice_account()), before + 20);
    assert_eq!(contract.get_deposit(alice_account()), 90);
}

#[test]
fn refusals_in_words() {
    let ops = vec![op("bob.near", 5), op("Bob", 5)];
    assert_eq!(write_refusal(SendError::UnknownUser, &ops, false), "Unknown user");
    assert_eq!(write_refusal(SendError::NothingToWithdraw, &vec![], false), "Nothing to withdraw");
    assert_eq!(
        write_refusal(SendError::InvalidAccount { index: 1 }, &ops, true),
        "Account @Bob is invalid"
    );
    assert_eq!(
        write_refusal(SendError::InsufficientFunds { supplied: 29, demanded: 30 }, &ops, true),
        "Not enough attached tokens to run multisender (Supplied: 29. Demand: 30)"
    );
    assert_eq!(
        write_refusal(SendError::InsufficientFunds { supplied: 0, demanded: 10 }, &ops, false),
        "Not enough deposited tokens to run multisender (Supplied: 0. Demand: 10)"
    );
}

#[test]
fn entries_round_trip() {
    let entry = |account_id: &str, balance: u128| Entry { account_id: account_id.to_string(), balance };
    let contract = Multisender::from_entries(vec![
        entry("alice.near", 1),
        entry("bob.near", 2),
        entry("alice.near", 3),
    ]);
    assert_eq!(contract.get_deposit(alice_account()), 3);
    assert_eq!(contract.get_deposit(bob_account()), 2);
    assert_eq!(contract.get_deposit(carol_account()), 0);
    let mut entries: Vec<(String, u128)> =
        contract.to_entries().into_iter().map(|e| (e.account_id, e.balance)).collect();
    entries.sort();
    assert_eq!(entries, vec![(alice_account(), 3), (bob_account(), 2)]);

    let store = Deposits::from_entries(vec![entry("carol.near", 0)]);
    assert!(store.contains_key(&carol_account()));
    assert_eq!(store.to_entries().len(), 1);
    assert!(Deposits::from_entries(vec![]).to_entries().is_empty());
}

#[test]
fn default_ledger_holds_nothing() {
    let contract = Multisender::default();
    assert!(contract.to_entries().is_empty());
    assert_eq!(contract.get_deposit(alice_account()), 0);
}

#[test]
fn repeated_completion_credits_twice() {
    let mut contract = Multisender::new();
    contract.deposit(&alice_account(), 10);
    let sent = contract.multisend_from_balance(&alice_account(), vec![op("bob.near", 10)]).unwrap();
    let context = sent.transfers[0].completion.clone().unwrap();
    for expected in [10, 20] {
        contract
            .on_transfer_from_balance(
                &ledger_account(),
                &ledger_account(),
                &failed(),
                context.account_id.clone(),
                context.amount_sent,
                context.recipient.clone(),
            )
            .unwrap();
        assert_eq!(contract.get_deposit(alice_account()), expected);
    }
}

#[test]
fn deposits_to_two_accounts_commute() {
    let mut first = Multisender::new();
    first.deposit(&alice_account(), 30);
    first.deposit(&bob_account(), 12);
    let mut second = Multisender::new();
    second.deposit(&bob_account(), 12);
    second.deposit(&alice_account(), 30);
    for account in [alice_account(), bob_account(), carol_account()] {
        assert_eq!(first.get_deposit(account.clone()), second.get_deposit(account));
    }
}
