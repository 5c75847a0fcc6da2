use rgb_stress_test::opts::{Command, Opts};
use rgb_stress_test::report::{report_header, ReportRow};
use rgb_stress_test::scenarios::{
    merge_histories, merge_utxos, random_transfers, random_transfers_from_draws, random_wallets,
    random_wallets_from_draws, send_loop, PlanError, Step,
};
use rgb_stress_test::transfer::{Event, TransferRun, TransferStatus};
use rgb_stress_test::wallet::TestMode;

fn opts(command: Command) -> Opts {
    Opts {
        force: false,
        data_dir: "data".to_string(),
        allocation_utxos: 5,
        utxo_size: 1294,
        send_amount: 10,
        output: "report.csv".to_string(),
        verbose: false,
        witness: false,
        command,
    }
}

fn t(sender: usize, receiver: usize, asset: usize, amount: u64) -> Step {
    Step::Transfer { sender, receiver, first_asset: asset, asset_count: 1, amount, witness: false }
}

fn setup(index: u8, utxo_num: u8, size: u32) -> Step {
    Step::SetupWallet {
        wallet_index: index,
        utxo_num,
        utxo_size: size,
        funding: utxo_num as u64 * size as u64 + utxo_num as u64 * 200,
        max_allocations_per_utxo: 5,
    }
}

/// Carries out one settled transfer through the state machine and renders
/// its report line.
fn report_line(sender: &str, receiver: &str, start: u64) -> String {
    let mut run = TransferRun::start(1, start).unwrap();
    run.record(Event::ReceiveReady { recipient_id: "utxob:x".to_string() }, start).unwrap();
    run.record(Event::Sent { txid: "txid".to_string() }, start + 1).unwrap();
    for k in 2..4 {
        run.record(Event::Refreshed, start + k).unwrap();
    }
    run.record(Event::Mined, start + 4).unwrap();
    for k in 5..7 {
        run.record(Event::Refreshed, start + k).unwrap();
    }
    run.record(Event::ConsignmentMeasured { size: 500 }, start + 7).unwrap();
    for _ in 0..2 {
        run.record(Event::StatusReported { status: Some(TransferStatus::Settled) }, start + 7).unwrap();
    }
    let outcome = run.outcome().unwrap();
    ReportRow::from_transfer(sender, receiver, false, &vec!["T001001".to_string()], &outcome).line()
}

#[test]
fn send_loop_once_end_to_end() {
    let o = opts(Command::SendLoop { loops: 1 });
    let plan = send_loop(&o, 1).unwrap();
    assert_eq!(plan.mode, TestMode::NoErrorHandling);
    assert_eq!(
        plan.steps,
        vec![
            setup(1, 5, 1294),
            setup(2, 5, 1294),
            Step::Issue { wallet: 0, amount: 10, allocations: 1 },
            t(0, 1, 0, 10),
            t(1, 0, 0, 10),
        ]
    );
    let mut report = report_header();
    let mut start = 0;
    for step in &plan.steps {
        if let Step::Transfer { sender, receiver, .. } = step {
            report.push_str(&report_line(&format!("w{sender}"), &format!("w{receiver}"), start));
            start += 10;
        }
    }
    assert_eq!(report.lines().count(), 3);
}

#[test]
fn send_loop_scales_utxo_size() {
    let o = opts(Command::SendLoop { loops: 3 });
    let plan = send_loop(&o, 3).unwrap();
    assert_eq!(plan.steps[0], setup(1, 5, 3 * 1294));
    assert_eq!(plan.steps.len(), 3 + 6);
    let mut big = opts(Command::SendLoop { loops: 65535 });
    big.utxo_size = u32::MAX / 2;
    assert_eq!(send_loop(&big, 65535).err(), Some(PlanError::UtxoSizeTooLarge));
}

#[test]
fn merge_histories_plan() {
    let mut o = opts(Command::MergeHistories { loops: 1 });
    o.verbose = true;
    let plan = merge_histories(&o, 1).unwrap();
    let mut expected: Vec<Step> = (0..6).map(|i| setup(i, 5, 1294)).collect();
    expected.extend([
        Step::Issue { wallet: 0, amount: 10, allocations: 2 },
        t(0, 1, 0, 10),
        t(0, 2, 0, 10),
        t(1, 3, 0, 10),
        t(3, 1, 0, 10),
        t(2, 4, 0, 10),
        t(4, 2, 0, 10),
        t(1, 0, 0, 10),
        t(2, 0, 0, 10),
        t(0, 5, 0, 20),
        t(5, 0, 0, 20),
        Step::ShowUnspents { wallet: 0 },
    ]);
    assert_eq!(plan.steps, expected);
    let mut huge = opts(Command::MergeHistories { loops: 1 });
    huge.send_amount = u64::MAX;
    assert_eq!(merge_histories(&huge, 1).err(), Some(PlanError::AmountTooLarge));
}

#[test]
fn merge_utxos_plan() {
    let o = opts(Command::MergeUtxos { assets: 2, loops: 1 });
    let plan = merge_utxos(&o, 2, 1).unwrap();
    let expected = vec![
        setup(0, 5, 1294),
        Step::Issue { wallet: 0, amount: 10, allocations: 1 },
        setup(1, 5, 1294),
        Step::Issue { wallet: 1, amount: 10, allocations: 1 },
        setup(3, 5, 2 * 1294),
        t(0, 2, 0, 10),
        t(2, 0, 0, 10),
        t(1, 2, 1, 10),
        t(2, 1, 1, 10),
        setup(4, 1, 1294),
        t(0, 3, 0, 10),
        t(1, 3, 1, 10),
        Step::Transfer {
            sender: 3,
            receiver: 2,
            first_asset: 0,
            asset_count: 2,
            amount: 10,
            witness: false,
        },
    ];
    assert_eq!(plan.steps, expected);
}

#[test]
fn random_wallets_from_fixed_draws() {
    let o = opts(Command::RandomWallets { loops: 4, wallets: 3 });
    let plan = random_wallets_from_draws(&o, 4, 3, &vec![0, 0, 1, 1], &vec![true; 4]).unwrap();
    let transfers: Vec<Step> = plan.steps[4..].to_vec();
    assert_eq!(transfers, vec![t(0, 1, 0, 10), t(1, 0, 0, 10), t(0, 2, 0, 10), t(2, 1, 0, 10)]);
}

#[test]
fn random_wallets_never_repeat_a_sender() {
    let o = opts(Command::RandomWallets { loops: 200, wallets: 4 });
    let plan = random_wallets(&o, 200, 4).unwrap();
    let mut senders = vec![];
    let mut last_receiver = 0;
    for step in &plan.steps[5..] {
        match step {
            Step::Transfer { sender, receiver, .. } => {
                assert!(*sender < 4 && *receiver < 4);
                assert_ne!(sender, receiver);
                assert_eq!(*sender, last_receiver);
                last_receiver = *receiver;
                senders.push(*sender);
            }
            other => panic!("unexpected step {other:?}"),
        }
    }
    assert_eq!(senders.len(), 200);
    for k in 1..senders.len() {
        assert_ne!(senders[k], senders[k - 1]);
    }
}

#[test]
fn random_transfers_plan() {
    let mut o = opts(Command::RandomTransfers {
        assets: 2,
        max_allocations_per_utxo: 3,
        loops: 2,
        wallets: 3,
    });
    o.witness = true;
    let plan = random_transfers_from_draws(&o, 3, 3, &vec![2, 0], &vec![true, false]);
    assert_eq!(plan.mode, TestMode::HandleUtxoErrors { utxos: 5, utxo_size: 1294 });
    let s = |i: u8| Step::SetupWallet {
        wallet_index: i,
        utxo_num: 5,
        utxo_size: 1294,
        funding: 5 * 1294 + 5 * 200,
        max_allocations_per_utxo: 3,
    };
    assert_eq!(
        plan.steps,
        vec![
            s(0),
            s(1),
            s(2),
            Step::Issue { wallet: 2, amount: 10, allocations: 1 },
            Step::Issue { wallet: 0, amount: 10, allocations: 1 },
            Step::RandomTransfer { witness: true },
            Step::RandomTransfer { witness: false },
        ]
    );
    let drawn = random_transfers(&o, 3, 4, 3, 6);
    assert_eq!(drawn.steps.len(), 3 + 4 + 6);
    for step in &drawn.steps[3..7] {
        assert!(matches!(step, Step::Issue { wallet, .. } if *wallet < 3));
    }
}
