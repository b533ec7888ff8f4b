use eth_transfer::address::Address;
use eth_transfer::error::TransferError;
use eth_transfer::hash::TxHash;
use eth_transfer::report::{BalanceSnapshot, TransferReport};
use eth_transfer::request::TransferRequest;
use eth_transfer::wei::Wei;
use eth_transfer::workflow::{Command, Event, Transfer, Workflow};

const ONE_ETHER: u64 = 1_000_000_000_000_000_000;
const FEE: u64 = 21_000 * 1_000_000_000;

fn transfer() -> Transfer {
    Transfer {
        owner: Address::from_str("0xf39Fd6e51aad88F6F4ce6aB8827279cffFb92266").unwrap(),
        destination: Address::from_str("0xd8dA6BF26964aF9D7eEd9e03E53415D37aA96045").unwrap(),
        amount_wei: ONE_ETHER,
    }
}

fn hash() -> TxHash {
    TxHash::from_bytes([0xab; 32])
}

fn successful_events() -> Vec<Event> {
    vec![
        Event::ChainId(11155111),
        Event::Balance(Wei::from_u64(5 * ONE_ETHER)),
        Event::Balance(Wei::zero()),
        Event::Broadcast,
        Event::Confirmed(hash()),
        Event::Balance(Wei::from_u64(4 * ONE_ETHER - FEE)),
        Event::Balance(Wei::from_u64(ONE_ETHER)),
    ]
}

fn run(events: &[Event]) -> (Workflow, Vec<Command>, Vec<Option<String>>) {
    let mut state = Workflow::start(transfer());
    let mut commands = vec![state.command()];
    let mut notices = Vec::new();
    for event in events {
        let step = state.step(*event);
        state = step.next;
        commands.push(state.command());
        notices.push(step.notice);
    }
    (state, commands, notices)
}

fn expected_report() -> TransferReport {
    TransferReport {
        owner: BalanceSnapshot::new(
            transfer().owner,
            Wei::from_u64(5 * ONE_ETHER),
            Wei::from_u64(4 * ONE_ETHER - FEE),
        ),
        destination: BalanceSnapshot::new(
            transfer().destination,
            Wei::zero(),
            Wei::from_u64(ONE_ETHER),
        ),
    }
}

#[test]
fn successful_run_issues_the_calls_in_order() {
    let (state, commands, notices) = run(&successful_events());
    assert_eq!(
        commands,
        vec![
            Command::QueryChainId,
            Command::QueryBalance(transfer().owner),
            Command::QueryBalance(transfer().destination),
            Command::Submit(TransferRequest::transfer(transfer().destination, ONE_ETHER)),
            Command::AwaitConfirmation,
            Command::QueryBalance(transfer().owner),
            Command::QueryBalance(transfer().destination),
            Command::Finish(expected_report()),
        ]
    );
    assert_eq!(state, Workflow::Finished { tx_hash: hash(), report: expected_report() });
    assert_eq!(
        notices,
        vec![
            None,
            None,
            Some("Running transactions on sepolia".to_string()),
            None,
            Some(format!("Sent transaction: 0x{}", "ab".repeat(32))),
            None,
            None,
        ]
    );
}

#[test]
fn successful_run_reports_the_transfer() {
    let (state, _, _) = run(&successful_events());
    let report = match state {
        Workflow::Finished { report, .. } => report,
        other => panic!("not finished: {other:?}"),
    };
    assert_eq!(report.destination.delta().to_decimal_string(), "1000000000000000000");
    assert_eq!(report.owner.delta().to_decimal_string(), "-1000021000000000000");
    let rows = report.rows();
    assert_eq!(rows[0].address, "0xf39...92266");
    assert_eq!(rows[0].balance_before, "5.000000000000000000");
    assert_eq!(rows[0].balance_after, "3.999979000000000000");
    assert_eq!(rows[1].address, "0xd8d...96045");
    assert_eq!(rows[1].balance_before, "0.000000000000000000");
    assert_eq!(rows[1].balance_after, "1.000000000000000000");
}

#[test]
fn a_failure_at_each_stage_names_the_failed_call() {
    let events = successful_events();
    let expected = [
        TransferError::Query,
        TransferError::Query,
        TransferError::Query,
        TransferError::Submission,
        TransferError::Confirmation,
        TransferError::Query,
        TransferError::Query,
    ];
    for (stage, error) in expected.iter().enumerate() {
        let mut history = events[..stage].to_vec();
        history.push(Event::Failure);
        let (state, commands, _) = run(&history);
        assert_eq!(state, Workflow::Failed { error: *error }, "stage {stage}");
        assert_eq!(commands.last(), Some(&Command::Abort(*error)));
        assert!(!commands.iter().any(|c| matches!(c, Command::Finish(_))));
        assert_eq!(state.failure(), *error);
    }
}

#[test]
fn failure_names_the_call_of_each_state() {
    let (broadcasting, _, _) = run(&successful_events()[..3]);
    assert_eq!(broadcasting.failure(), TransferError::Submission);
    let (confirming, _, _) = run(&successful_events()[..4]);
    assert_eq!(confirming.failure(), TransferError::Confirmation);
    for reads in [0, 1, 2, 5, 6] {
        let (reading, _, _) = run(&successful_events()[..reads]);
        assert_eq!(reading.failure(), TransferError::Query);
    }
}

#[test]
fn rejected_broadcast_is_never_watched() {
    let mut history = successful_events()[..3].to_vec();
    history.push(Event::Failure);
    history.push(Event::Confirmed(hash()));
    history.push(Event::Balance(Wei::zero()));
    let (state, commands, notices) = run(&history);
    assert_eq!(state, Workflow::Failed { error: TransferError::Submission });
    assert!(!commands.contains(&Command::AwaitConfirmation));
    assert_eq!(commands[4..], [Command::Abort(TransferError::Submission); 3]);
    assert_eq!(notices[3..], [None, None, None]);
}

#[test]
fn failed_watch_leaves_no_report() {
    let mut history = successful_events()[..4].to_vec();
    history.push(Event::Failure);
    history.extend_from_slice(&successful_events()[4..]);
    let (state, commands, notices) = run(&history);
    assert_eq!(state, Workflow::Failed { error: TransferError::Confirmation });
    assert!(!commands.iter().any(|c| matches!(c, Command::Finish(_))));
    assert!(notices[4..].iter().all(|n| n.is_none()));
}

#[test]
fn unexpected_event_fails_the_run() {
    let (state, _, _) = run(&[Event::Balance(Wei::zero())]);
    assert_eq!(state, Workflow::Failed { error: TransferError::Query });
    let (state, _, _) = run(&[Event::ChainId(1), Event::ChainId(1)]);
    assert_eq!(state, Workflow::Failed { error: TransferError::Query });
    let mut history = successful_events()[..3].to_vec();
    history.push(Event::Confirmed(hash()));
    let (state, _, _) = run(&history);
    assert_eq!(state, Workflow::Failed { error: TransferError::Submission });
    let mut history = successful_events()[..4].to_vec();
    history.push(Event::Broadcast);
    let (state, _, _) = run(&history);
    assert_eq!(state, Workflow::Failed { error: TransferError::Confirmation });
}

#[test]
fn the_request_is_submitted_once() {
    let mut history = successful_events();
    history.extend_from_slice(&successful_events());
    let (_, commands, _) = run(&history);
    let submissions = commands.iter().filter(|c| matches!(c, Command::Submit(_))).count();
    assert_eq!(submissions, 1);
    assert!(matches!(commands[3], Command::Submit(_)));
}

#[test]
fn finished_run_stays_finished() {
    let mut history = successful_events();
    history.push(Event::Failure);
    history.push(Event::ChainId(1));
    let (state, commands, notices) = run(&history);
    assert_eq!(state, Workflow::Finished { tx_hash: hash(), report: expected_report() });
    assert_eq!(commands[7..], [Command::Finish(expected_report()); 3]);
    assert_eq!(notices[7..], [None, None]);
}

#[test]
fn notice_names_the_chain_that_the_endpoint_reports() {
    let mut history = successful_events();
    history[0] = Event::ChainId(1);
    let (_, _, notices) = run(&history[..3]);
    assert_eq!(notices[2], Some("Running transactions on mainnet".to_string()));
}

#[test]
fn transfer_to_oneself_reads_the_same_account_twice() {
    let owner = transfer().owner;
    let same = Transfer { owner, destination: owner, amount_wei: ONE_ETHER };
    let balance = Wei::from_u64(5 * ONE_ETHER);
    let events = [
        Event::ChainId(11155111),
        Event::Balance(balance),
        Event::Balance(balance),
        Event::Broadcast,
        Event::Confirmed(hash()),
        Event::Balance(balance),
        Event::Balance(balance),
    ];
    let mut state = Workflow::start(same);
    for event in events {
        assert!(!matches!(state.command(), Command::Finish(_) | Command::Abort(_)));
        state = state.step(event).next;
    }
    let report = match state.command() {
        Command::Finish(report) => report,
        other => panic!("not finished: {other:?}"),
    };
    assert_eq!(report.owner, report.destination);
    assert!(report.owner.delta().is_zero());
    assert_eq!(report.rows()[0].difference, "0");
    assert_eq!(report.rows()[1].difference, "0");
}
