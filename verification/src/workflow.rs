//! The order of a run on the network, as a state machine: each state
//! waits for the outcome of one call, and each outcome decides what is
//! called next.
//!
//! The machine makes no call itself. Its driver performs the command of the
//! current state, reports what came of it as an event, and goes on with the
//! state that `step` returns.

use vstd::prelude::*;
use vstd::string::*;
use crate::address::Address;
use crate::chain::{running_notice, running_notice_text};
use crate::error::TransferError;
use crate::options::TransferPlan;
use crate::hash::{sent_notice_text, TxHash};
use crate::report::{BalanceSnapshot, TransferReport};
use crate::request::TransferRequest;
use crate::text::optional_text;
use crate::wei::Wei;

verus! {

/// The transfer that a run carries out.
#[derive(Clone, Copy, Debug, PartialEq, Eq)]
pub struct Transfer {
    pub owner: Address,
    pub destination: Address,
    pub amount_wei: u64,
}

/// What came of the call that the driver was told to make.
#[derive(Clone, Copy, Debug, PartialEq, Eq)]
pub enum Event {
    /// The endpoint reported the identifier of its chain.
    ChainId(u64),
    /// The endpoint reported the balance that was asked for.
    Balance(Wei),
    /// The network accepted the transaction.
    Broadcast,
    /// The transaction was included in the chain.
    Confirmed(TxHash),
    /// The call failed.
    Failure,
}

/// What the driver does next.
#[derive(Clone, Copy, Debug, PartialEq, Eq)]
pub enum Command {
    /// Ask the endpoint for the identifier of its chain.
    QueryChainId,
    /// Ask the endpoint for the balance of the account.
    QueryBalance(Address),
    /// Sign the request and send it to the network.
    Submit(TransferRequest),
    /// Wait until the transaction that was sent is included in the chain.
    AwaitConfirmation,
    /// Show the report and end the run.
    Finish(TransferReport),
    /// End the run with the error.
    Abort(TransferError),
}

impl Command {
    /// Whether carrying out the command means a call to the network.
    pub open spec fn touches_network(self) -> bool {
        !(self is Finish) && !(self is Abort)
    }
}

/// The state of a run: which outcome it waits for, and what it has
/// learned so far.
#[derive(Clone, Copy, Debug, PartialEq, Eq)]
pub enum Workflow {
    AwaitingChainId { transfer: Transfer },
    AwaitingOwnerBefore { transfer: Transfer, chain_id: u64 },
    AwaitingDestinationBefore { transfer: Transfer, chain_id: u64, owner_before: Wei },
    AwaitingBroadcast {
        transfer: Transfer,
        chain_id: u64,
        owner_before: Wei,
        destination_before: Wei,
    },
    AwaitingConfirmation {
        transfer: Transfer,
        chain_id: u64,
        owner_before: Wei,
        destination_before: Wei,
    },
    AwaitingOwnerAfter {
        transfer: Transfer,
        chain_id: u64,
        owner_before: Wei,
        destination_before: Wei,
        tx_hash: TxHash,
    },
    AwaitingDestinationAfter {
        transfer: Transfer,
        chain_id: u64,
        owner_before: Wei,
        destination_before: Wei,
        tx_hash: TxHash,
        owner_after: Wei,
    },
    /// The transfer is confirmed and both balances were read again.
    Finished { tx_hash: TxHash, report: TransferReport },
    /// A call failed: the run is over and has no report.
    Failed { error: TransferError },
}

/// A state after an event, with the line to print on the way there.
#[derive(Clone, Debug, PartialEq, Eq)]
pub struct Step {
    pub next: Workflow,
    pub notice: Option<String>,
}

impl Workflow {
    /// The state in which a run begins.
    pub open spec fn spec_start(transfer: Transfer) -> Workflow {
        Workflow::AwaitingChainId { transfer }
    }

    /// Whether the run is over.
    pub open spec fn is_terminal(self) -> bool {
        self is Finished || self is Failed
    }

    /// The command of a state: the call whose outcome it waits for, or the
    /// way in which the run ends.
    pub open spec fn spec_command(self) -> Command {
        match self {
            Workflow::AwaitingChainId { .. } => Command::QueryChainId,
            Workflow::AwaitingOwnerBefore { transfer, .. } => Command::QueryBalance(transfer.owner),
            Workflow::AwaitingDestinationBefore { transfer, .. } => Command::QueryBalance(
                transfer.destination,
            ),
            Workflow::AwaitingBroadcast { transfer, .. } => Command::Submit(
                TransferRequest::spec_transfer(transfer.destination, transfer.amount_wei),
            ),
            Workflow::AwaitingConfirmation { .. } => Command::AwaitConfirmation,
            Workflow::AwaitingOwnerAfter { transfer, .. } => Command::QueryBalance(transfer.owner),
            Workflow::AwaitingDestinationAfter { transfer, .. } => Command::QueryBalance(
                transfer.destination,
            ),
            Workflow::Finished { report, .. } => Command::Finish(report),
            Workflow::Failed { error } => Command::Abort(error),
        }
    }

    /// The error that a run ends with when the call of this state fails: a
    /// rejected broadcast is a submission error, a failed watch is a
    /// confirmation error, and a failed read is a query error.
    pub open spec fn spec_failure(self) -> TransferError {
        match self {
            Workflow::AwaitingBroadcast { .. } => TransferError::Submission,
            Workflow::AwaitingConfirmation { .. } => TransferError::Confirmation,
            Workflow::Failed { error } => error,
            _ => TransferError::Query,
        }
    }

    /// The state that follows on `event`.
    ///
    /// The outcome that a state waits for leads to the next state. Any
    /// other event fails the run. A run that is over stays as it is.
    pub open spec fn spec_step(self, event: Event) -> Workflow {
        match (self, event) {
            (Workflow::Finished { .. }, _) => self,
            (Workflow::Failed { .. }, _) => self,
            (Workflow::AwaitingChainId { transfer }, Event::ChainId(chain_id)) => {
                Workflow::AwaitingOwnerBefore { transfer, chain_id }
            },
            (
                Workflow::AwaitingOwnerBefore { transfer, chain_id },
                Event::Balance(owner_before),
            ) => Workflow::AwaitingDestinationBefore { transfer, chain_id, owner_before },
            (
                Workflow::AwaitingDestinationBefore { transfer, chain_id, owner_before },
                Event::Balance(destination_before),
            ) => Workflow::AwaitingBroadcast {
                transfer,
                chain_id,
                owner_before,
                destination_before,
            },
            (
                Workflow::AwaitingBroadcast { transfer, chain_id, owner_before, destination_before },
                Event::Broadcast,
            ) => Workflow::AwaitingConfirmation {
                transfer,
                chain_id,
                owner_before,
                destination_before,
            },
            (
                Workflow::AwaitingConfirmation {
                    transfer,
                    chain_id,
                    owner_before,
                    destination_before,
                },
                Event::Confirmed(tx_hash),
            ) => Workflow::AwaitingOwnerAfter {
                transfer,
                chain_id,
                owner_before,
                destination_before,
                tx_hash,
            },
            (
                Workflow::AwaitingOwnerAfter {
                    transfer,
                    chain_id,
                    owner_before,
                    destination_before,
                    tx_hash,
                },
                Event::Balance(owner_after),
            ) => Workflow::AwaitingDestinationAfter {
                transfer,
                chain_id,
                owner_before,
                destination_before,
                tx_hash,
                owner_after,
            },
            (
                Workflow::AwaitingDestinationAfter {
                    transfer,
                    owner_before,
                    destination_before,
                    tx_hash,
                    owner_after,
                    ..
                },
                Event::Balance(destination_after),
            ) => Workflow::Finished {
                tx_hash,
                report: TransferReport {
                    owner: BalanceSnapshot {
                        address: transfer.owner,
                        before: owner_before,
                        after: owner_after,
                    },
                    destination: BalanceSnapshot {
                        address: transfer.destination,
                        before: destination_before,
                        after: destination_after,
                    },
                },
            },
            _ => Workflow::Failed { error: self.spec_failure() },
        }
    }

    /// The line that is printed on the way to the next state: the chain,
    /// when the last balance before the transfer has come in and the
    /// request is about to be sent, and the transaction, when it is
    /// confirmed.
    pub open spec fn spec_notice(self, event: Event) -> Option<Seq<char>> {
        match (self, event) {
            (Workflow::AwaitingDestinationBefore { chain_id, .. }, Event::Balance(_)) => Some(
                running_notice_text(chain_id),
            ),
            (Workflow::AwaitingConfirmation { .. }, Event::Confirmed(tx_hash)) => Some(
                sent_notice_text(tx_hash@),
            ),
            _ => None,
        }
    }

    /// The state after all of `events`, taken in their order.
    pub open spec fn spec_run(self, events: Seq<Event>) -> Workflow
        decreases events.len(),
    {
        if events.len() == 0 {
            self
        } else {
            self.spec_run(events.drop_last()).spec_step(events.last())
        }
    }

    /// The state in which a run begins after its setup: a setup that
    /// failed leaves nothing to run.
    pub open spec fn spec_launch(failure: Option<TransferError>, transfer: Transfer) -> Workflow {
        match failure {
            Some(error) => Workflow::Failed { error },
            None => Self::spec_start(transfer),
        }
    }

    /// Begins a run with what its setup came to: with the transfer of the
    /// plan, or over before it began where the setup failed.
    pub fn launch(prepared: &Result<TransferPlan, TransferError>) -> (state: Workflow)
        ensures
            state == match *prepared {
                Ok(plan) => Self::spec_start(plan.spec_transfer()),
                Err(error) => Workflow::Failed { error },
            },
    {
        match prepared {
            Ok(plan) => Workflow::start(plan.transfer()),
            Err(error) => Workflow::Failed { error: *error },
        }
    }

    /// Begins a run: nothing has been asked of the network yet.
    pub fn start(transfer: Transfer) -> (state: Workflow)
        ensures
            state == Self::spec_start(transfer),
            state.spec_command() == Command::QueryChainId,
    {
        Workflow::AwaitingChainId { transfer }
    }

    /// What the driver does in this state.
    pub fn command(&self) -> (command: Command)
        ensures
            command == self.spec_command(),
    {
        match self {
            Workflow::AwaitingChainId { .. } => Command::QueryChainId,
            Workflow::AwaitingOwnerBefore { transfer, .. } => Command::QueryBalance(transfer.owner),
            Workflow::AwaitingDestinationBefore { transfer, .. } => Command::QueryBalance(
                transfer.destination,
            ),
            Workflow::AwaitingBroadcast { transfer, .. } => Command::Submit(
                TransferRequest::transfer(transfer.destination, transfer.amount_wei),
            ),
            Workflow::AwaitingConfirmation { .. } => Command::AwaitConfirmation,
            Workflow::AwaitingOwnerAfter { transfer, .. } => Command::QueryBalance(transfer.owner),
            Workflow::AwaitingDestinationAfter { transfer, .. } => Command::QueryBalance(
                transfer.destination,
            ),
            Workflow::Finished { report, .. } => Command::Finish(*report),
            Workflow::Failed { error } => Command::Abort(*error),
        }
    }

    /// The error that the run ends with when the call of this state fails.
    pub fn failure(&self) -> (error: TransferError)
        ensures
            error == self.spec_failure(),
    {
        match self {
            Workflow::AwaitingBroadcast { .. } => TransferError::Submission,
            Workflow::AwaitingConfirmation { .. } => TransferError::Confirmation,
            Workflow::Failed { error } => *error,
            _ => TransferError::Query,
        }
    }

    /// Takes in what came of the call of this state.
    ///
    /// Returns the state that follows, and the line to print before its
    /// command is carried out, if there is one.
    pub fn step(self, event: Event) -> (step: Step)
        ensures
            step.next == self.spec_step(event),
            optional_text(step.notice) == self.spec_notice(event),
    {
        match (self, event) {
            (Workflow::Finished { .. }, _) => Step { next: self, notice: None },
            (Workflow::Failed { .. }, _) => Step { next: self, notice: None },
            (Workflow::AwaitingChainId { transfer }, Event::ChainId(chain_id)) => Step {
                next: Workflow::AwaitingOwnerBefore { transfer, chain_id },
                notice: None,
            },
            (
                Workflow::AwaitingOwnerBefore { transfer, chain_id },
                Event::Balance(owner_before),
            ) => Step {
                next: Workflow::AwaitingDestinationBefore { transfer, chain_id, owner_before },
                notice: None,
            },
            (
                Workflow::AwaitingDestinationBefore { transfer, chain_id, owner_before },
                Event::Balance(destination_before),
            ) => Step {
                next: Workflow::AwaitingBroadcast {
                    transfer,
                    chain_id,
                    owner_before,
                    destination_before,
                },
                notice: Some(running_notice(chain_id)),
            },
            (
                Workflow::AwaitingBroadcast { transfer, chain_id, owner_before, destination_before },
                Event::Broadcast,
            ) => Step {
                next: Workflow::AwaitingConfirmation {
                    transfer,
                    chain_id,
                    owner_before,
                    destination_before,
                },
                notice: None,
            },
            (
                Workflow::AwaitingConfirmation {
                    transfer,
                    chain_id,
                    owner_before,
                    destination_before,
                },
                Event::Confirmed(tx_hash),
            ) => Step {
                next: Workflow::AwaitingOwnerAfter {
                    transfer,
                    chain_id,
                    owner_before,
                    destination_before,
                    tx_hash,
                },
                notice: Some(tx_hash.sent_notice()),
            },
            (
                Workflow::AwaitingOwnerAfter {
                    transfer,
                    chain_id,
                    owner_before,
                    destination_before,
                    tx_hash,
                },
                Event::Balance(owner_after),
            ) => Step {
                next: Workflow::AwaitingDestinationAfter {
                    transfer,
                    chain_id,
                    owner_before,
                    destination_before,
                    tx_hash,
                    owner_after,
                },
                notice: None,
            },
            (
                Workflow::AwaitingDestinationAfter {
                    transfer,
                    owner_before,
                    destination_before,
                    tx_hash,
                    owner_after,
                    ..
                },
                Event::Balance(destination_after),
            ) => Step {
                next: Workflow::Finished {
                    tx_hash,
                    report: TransferReport {
                        owner: BalanceSnapshot::new(transfer.owner, owner_before, owner_after),
                        destination: BalanceSnapshot::new(
                            transfer.destination,
                            destination_before,
                            destination_after,
                        ),
                    },
                },
                notice: None,
            },
            (state, _) => Step { next: Workflow::Failed { error: state.failure() }, notice: None },
        }
    }
}

/// How many of `events`, from the first on, are the outcomes that a run
/// waits for in turn: the chain identifier, the two balances before the
/// transfer, the broadcast, the confirmation, and the two balances after
/// it. The count stops at the first event that is none of its turn.
pub open spec fn accepted(events: Seq<Event>) -> nat {
    if !(events.len() > 0 && events[0] is ChainId) {
        0
    } else if !(events.len() > 1 && events[1] is Balance) {
        1
    } else if !(events.len() > 2 && events[2] is Balance) {
        2
    } else if !(events.len() > 3 && events[3] is Broadcast) {
        3
    } else if !(events.len() > 4 && events[4] is Confirmed) {
        4
    } else if !(events.len() > 5 && events[5] is Balance) {
        5
    } else if !(events.len() > 6 && events[6] is Balance) {
        6
    } else {
        7
    }
}

/// The state of a run of `transfer` that has taken in the first `stage`
/// of `events`, all of them accepted.
pub open spec fn state_at(transfer: Transfer, events: Seq<Event>, stage: nat) -> Workflow {
    let chain_id = events[0]->ChainId_0;
    let owner_before = events[1]->Balance_0;
    let destination_before = events[2]->Balance_0;
    let tx_hash = events[4]->Confirmed_0;
    let owner_after = events[5]->Balance_0;
    let destination_after = events[6]->Balance_0;
    if stage == 0 {
        Workflow::AwaitingChainId { transfer }
    } else if stage == 1 {
        Workflow::AwaitingOwnerBefore { transfer, chain_id }
    } else if stage == 2 {
        Workflow::AwaitingDestinationBefore { transfer, chain_id, owner_before }
    } else if stage == 3 {
        Workflow::AwaitingBroadcast { transfer, chain_id, owner_before, destination_before }
    } else if stage == 4 {
        Workflow::AwaitingConfirmation { transfer, chain_id, owner_before, destination_before }
    } else if stage == 5 {
        Workflow::AwaitingOwnerAfter {
            transfer,
            chain_id,
            owner_before,
            destination_before,
            tx_hash,
        }
    } else if stage == 6 {
        Workflow::AwaitingDestinationAfter {
            transfer,
            chain_id,
            owner_before,
            destination_before,
            tx_hash,
            owner_after,
        }
    } else {
        Workflow::Finished {
            tx_hash,
            report: TransferReport {
                owner: BalanceSnapshot {
                    address: transfer.owner,
                    before: owner_before,
                    after: owner_after,
                },
                destination: BalanceSnapshot {
                    address: transfer.destination,
                    before: destination_before,
                    after: destination_after,
                },
            },
        }
    }
}

/// The error of a run that fails after `stage` accepted events.
pub open spec fn stage_error(stage: nat) -> TransferError {
    if stage == 3 {
        TransferError::Submission
    } else if stage == 4 {
        TransferError::Confirmation
    } else {
        TransferError::Query
    }
}

/// A run that is over stays as it is, whatever is reported to it.
pub proof fn lemma_terminal_state_is_final(state: Workflow, events: Seq<Event>)
    requires
        state.is_terminal(),
    ensures
        state.spec_run(events) == state,
    decreases events.len(),
{
    if events.len() > 0 {
        lemma_terminal_state_is_final(state, events.drop_last());
    }
}

/// The state of a run is decided by its history alone. While every event
/// is the outcome that the run waited for, the run stands at the stage that
/// the number of events gives, and it is finished after the seventh. From
/// the first event that is not, the run has failed, with the error of the
/// call that was under way.
pub proof fn lemma_run_follows_history(transfer: Transfer, events: Seq<Event>)
    ensures
        Workflow::spec_start(transfer).spec_run(events) == (if accepted(events) == 7 || accepted(
            events,
        ) == events.len() {
            state_at(transfer, events, accepted(events))
        } else {
            Workflow::Failed { error: stage_error(accepted(events)) }
        }),
    decreases events.len(),
{
    if events.len() > 0 {
        let earlier = events.drop_last();
        lemma_run_follows_history(transfer, earlier);
        assert(forall|i: int| 0 <= i < earlier.len() ==> earlier[i] == events[i]);
    }
}

/// A run ends with a report only where the transaction was broadcast and
/// confirmed: the report appears with the seventh accepted event and not
/// before, it holds the balances that were read before the broadcast and
/// after the confirmation, and the run names the confirmed transaction.
pub proof fn lemma_report_needs_confirmation(transfer: Transfer, events: Seq<Event>)
    requires
        Workflow::spec_start(transfer).spec_run(events) is Finished,
    ensures
        events.len() >= 7,
        events[0] is ChainId,
        events[3] is Broadcast,
        Workflow::spec_start(transfer).spec_run(events) == (Workflow::Finished {
            tx_hash: events[4]->Confirmed_0,
            report: TransferReport {
                owner: BalanceSnapshot {
                    address: transfer.owner,
                    before: events[1]->Balance_0,
                    after: events[5]->Balance_0,
                },
                destination: BalanceSnapshot {
                    address: transfer.destination,
                    before: events[2]->Balance_0,
                    after: events[6]->Balance_0,
                },
            },
        }),
        events[1] is Balance && events[2] is Balance && events[4] is Confirmed,
        events[5] is Balance && events[6] is Balance,
{
    lemma_run_follows_history(transfer, events);
}

/// The transaction is submitted once, and only after both balances have
/// been read: the run commands a submission exactly when three events have
/// come in, the chain identifier and the two balances, and the request it
/// hands out is the transfer of the run.
pub proof fn lemma_submission_follows_reads(transfer: Transfer, events: Seq<Event>)
    ensures
        Workflow::spec_start(transfer).spec_run(events).spec_command() is Submit <==> events.len()
            == 3 && events[0] is ChainId && events[1] is Balance && events[2] is Balance,
        Workflow::spec_start(transfer).spec_run(events).spec_command() is Submit
            ==> Workflow::spec_start(transfer).spec_run(events).spec_command() == Command::Submit(
            TransferRequest::spec_transfer(transfer.destination, transfer.amount_wei),
        ),
{
    lemma_run_follows_history(transfer, events);
}

/// The balances are read again only after the confirmation: a run that
/// waits for one of them has seen the broadcast accepted and the
/// transaction confirmed.
pub proof fn lemma_after_reads_follow_confirmation(transfer: Transfer, events: Seq<Event>)
    requires
        Workflow::spec_start(transfer).spec_run(events) is AwaitingOwnerAfter
            || Workflow::spec_start(transfer).spec_run(events) is AwaitingDestinationAfter,
    ensures
        events.len() >= 5,
        events[3] is Broadcast,
        events[4] is Confirmed,
{
    lemma_run_follows_history(transfer, events);
}

/// A run that has failed names the call that failed: a submission error
/// means that the broadcast was refused, a confirmation error that the
/// watch failed after an accepted broadcast, and a query error that a read
/// failed.
pub proof fn lemma_failure_names_the_call(transfer: Transfer, events: Seq<Event>)
    requires
        Workflow::spec_start(transfer).spec_run(events) is Failed,
    ensures
        accepted(events) < 7,
        accepted(events) < events.len(),
        Workflow::spec_start(transfer).spec_run(events) == (Workflow::Failed {
            error: stage_error(accepted(events)),
        }),
        !Workflow::spec_start(transfer).spec_run(events).spec_command().touches_network(),
{
    lemma_run_follows_history(transfer, events);
}

/// A run whose setup failed never reaches the network: whatever is
/// reported to it, its command is to end with the error of the setup.
pub proof fn lemma_failed_setup_reaches_no_network(
    error: TransferError,
    transfer: Transfer,
    events: Seq<Event>,
)
    ensures
        Workflow::spec_launch(Some(error), transfer).spec_run(events).spec_command()
            == Command::Abort(error),
        !Workflow::spec_launch(Some(error), transfer).spec_run(
            events,
        ).spec_command().touches_network(),
{
    lemma_terminal_state_is_final(Workflow::Failed { error }, events);
}

} // verus!
