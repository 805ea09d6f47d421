//! What a call hands to the host: transfers to issue and messages to emit.

use vstd::prelude::*;
use vstd::string::StringExecFns;
use crate::amount::{decimal_digits, u128_to_string, yton, yton_spec};
use crate::batch::Operation;

verus! {

/// The entry point that the host calls once a transfer's outcome is known.
#[derive(Clone, Copy, Debug, PartialEq, Eq, Structural)]
pub enum Handler {
    OnTransferAttachedTokens,
    OnTransferFromBalance,
}

/// What is handed through to the completion handler of one transfer.
#[derive(Clone, Debug)]
pub struct Completion {
    pub handler: Handler,
    /// The sender, whose balance is credited if the transfer fails.
    pub account_id: String,
    pub amount_sent: u128,
    pub recipient: String,
}

/// One transfer for the host to issue. Without a completion nothing is
/// credited back if it fails.
#[derive(Clone, Debug)]
pub struct Transfer {
    pub recipient: String,
    pub amount: u128,
    pub completion: Option<Completion>,
}

/// The outcome of an accepted batch: its transfers in the order of the
/// batch, and the messages to emit.
#[derive(Clone, Debug)]
pub struct Dispatch {
    pub transfers: Vec<Transfer>,
    pub logs: Vec<String>,
}

/// The completion of a transfer is the one that `handler` asks for: none, or
/// that handler with the sender, the amount and the recipient of `op`.
pub open spec fn completion_for(
    completion: Option<Completion>,
    handler: Option<Handler>,
    sender: Seq<char>,
    op: Operation,
) -> bool {
    match handler {
        None => completion is None,
        Some(h) => match completion {
            None => false,
            Some(c) => c.handler == h && c.account_id@ == sender && c.amount_sent == op.amount
                && c.recipient@ == op.account_id@,
        },
    }
}

/// The transfer carries out `op` on behalf of `sender`.
pub open spec fn transfer_for(
    transfer: Transfer,
    handler: Option<Handler>,
    sender: Seq<char>,
    op: Operation,
) -> bool {
    &&& transfer.recipient@ == op.account_id@
    &&& transfer.amount == op.amount
    &&& completion_for(transfer.completion, handler, sender, op)
}

/// One transfer for each operation of the batch, in its order.
pub open spec fn transfers_for(
    transfers: Seq<Transfer>,
    handler: Option<Handler>,
    sender: Seq<char>,
    ops: Seq<Operation>,
) -> bool {
    &&& transfers.len() == ops.len()
    &&& forall|i: int|
        0 <= i < ops.len() ==> transfer_for(#[trigger] transfers[i], handler, sender, ops[i])
}

/// The message for one operation. Where `rounded`, it also gives the amount
/// in whole units.
pub open spec fn sending_line(op: Operation, rounded: bool) -> Seq<char> {
    if rounded {
        "Sending "@ + decimal_digits(op.amount as nat) + " yNEAR (~"@ + decimal_digits(
            yton_spec(op.amount) as nat,
        ) + " NEAR) to account @"@ + op.account_id@
    } else {
        "Sending "@ + decimal_digits(op.amount as nat) + " yNEAR to account @"@ + op.account_id@
    }
}

/// The messages of a batch, one for each operation.
pub open spec fn sending_lines(ops: Seq<Operation>, rounded: bool) -> Seq<Seq<char>> {
    Seq::new(ops.len(), |i: int| sending_line(ops[i], rounded))
}

/// Lines in one text, each followed by a line feed.
pub open spec fn joined(lines: Seq<Seq<char>>) -> Seq<char>
    decreases lines.len(),
{
    if lines.len() == 0 {
        Seq::empty()
    } else {
        joined(lines.drop_last()) + lines.last() + "\n"@
    }
}

/// The number of lines from which a batch's messages are emitted as one.
pub const COMBINED_FROM: usize = 100;

/// What is emitted for the lines of a batch: each line by itself for a
/// small batch, one combined message for a large one.
pub open spec fn emitted(lines: Seq<Seq<char>>) -> Seq<Seq<char>> {
    if lines.len() < COMBINED_FROM {
        lines
    } else {
        seq!["Done!\n"@ + joined(lines)]
    }
}

/// The texts of a list of strings.
pub open spec fn texts(logs: Seq<String>) -> Seq<Seq<char>> {
    Seq::new(logs.len(), |i: int| logs[i]@)
}

/// Writes the message for one operation.
pub fn write_sending_line(op: &Operation, rounded: bool) -> (line: String)
    ensures
        line@ == sending_line(*op, rounded),
{
    let mut line = String::from_str("Sending ");
    line.append(u128_to_string(op.amount).as_str());
    if rounded {
        line.append(" yNEAR (~");
        line.append(u128_to_string(yton(op.amount)).as_str());
        line.append(" NEAR) to account @");
    } else {
        line.append(" yNEAR to account @");
    }
    line.append(op.account_id.as_str());
    line
}

/// Writes the messages of a batch, one for each operation.
pub fn write_sending_lines(ops: &Vec<Operation>, rounded: bool) -> (lines: Vec<String>)
    ensures
        texts(lines@) == sending_lines(ops@, rounded),
{
    let mut lines: Vec<String> = Vec::new();
    let mut i: usize = 0;
    while i < ops.len()
        invariant
            i <= ops@.len(),
            lines@.len() == i,
            forall|k: int| 0 <= k < i ==> (#[trigger] lines@[k])@ == sending_line(ops@[k], rounded),
        decreases ops@.len() - i,
    {
        lines.push(write_sending_line(&ops[i], rounded));
        i += 1;
    }
    assert(texts(lines@) =~= sending_lines(ops@, rounded));
    lines
}

/// Turns the lines of a batch into the messages to emit: the lines
/// themselves where there are fewer than a hundred, else one message that
/// holds them all.
pub fn emit(lines: Vec<String>) -> (logs: Vec<String>)
    ensures
        texts(logs@) == emitted(texts(lines@)),
{
    if lines.len() < COMBINED_FROM {
        return lines;
    }
    let mut all = String::from_str("Done!\n");
    let mut i: usize = 0;
    while i < lines.len()
        invariant
            i <= lines@.len(),
            all@ == "Done!\n"@ + joined(texts(lines@).take(i as int)),
        decreases lines@.len() - i,
    {
        proof {
            let t = texts(lines@);
            assert(t.take(i + 1).drop_last() =~= t.take(i as int));
            assert(t.take(i + 1).last() == lines@[i as int]@);
            assert(("Done!\n"@ + joined(t.take(i as int))) + lines@[i as int]@ + "\n"@ =~= "Done!\n"@
                + joined(t.take(i + 1)));
        }
        all.append(lines[i].as_str());
        all.append("\n");
        i += 1;
    }
    proof {
        assert(texts(lines@).take(i as int) =~= texts(lines@));
    }
    let mut logs: Vec<String> = Vec::new();
    logs.push(all);
    assert(texts(logs@) =~= emitted(texts(lines@)));
    logs
}

/// Builds the transfer for one operation.
pub fn transfer_of(op: &Operation, handler: Option<Handler>, sender: &String) -> (transfer:
    Transfer)
    ensures
        transfer_for(transfer, handler, sender@, *op),
{
    let completion = match handler {
        None => None,
        Some(h) => Some(
            Completion {
                handler: h,
                account_id: sender.clone(),
                amount_sent: op.amount,
                recipient: op.account_id.clone(),
            },
        ),
    };
    Transfer { recipient: op.account_id.clone(), amount: op.amount, completion }
}

/// Builds the transfers of a batch, one for each operation, in its order.
pub fn transfers_of(ops: &Vec<Operation>, handler: Option<Handler>, sender: &String) -> (transfers:
    Vec<Transfer>)
    ensures
        transfers_for(transfers@, handler, sender@, ops@),
{
    let mut transfers: Vec<Transfer> = Vec::new();
    let mut i: usize = 0;
    while i < ops.len()
        invariant
            i <= ops@.len(),
            transfers@.len() == i,
            forall|k: int|
                0 <= k < i ==> transfer_for(#[trigger] transfers@[k], handler, sender@, ops@[k]),
        decreases ops@.len() - i,
    {
        transfers.push(transfer_of(&ops[i], handler, sender));
        i += 1;
    }
    transfers
}

} // verus!
