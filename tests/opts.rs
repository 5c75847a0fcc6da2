use rgb_stress_test::opts::{Command, OptName, Opts, OptsError};

fn opts(command: Command) -> Opts {
    Opts {
        force: false,
        data_dir: "data".to_string(),
        allocation_utxos: 5,
        utxo_size: 1294,
        send_amount: 10,
        output: "report.csv".to_string(),
        verbose: false,
        witness: false,
        command,
    }
}

fn invalid(option: OptName) -> Result<(), OptsError> {
    Err(OptsError::InvalidValue { option })
}

#[test]
fn valid_options_pass() {
    assert_eq!(opts(Command::SendLoop { loops: 4 }).validate(false), Ok(()));
    assert_eq!(opts(Command::MergeUtxos { assets: 5, loops: 4 }).validate(false), Ok(()));
}

#[test]
fn single_allocation_utxo_only_for_random_transfers() {
    let mut o = opts(Command::SendLoop { loops: 1 });
    o.allocation_utxos = 1;
    assert_eq!(o.validate(false), invalid(OptName::AllocationUtxos));
    o.command = Command::RandomTransfers { assets: 1, max_allocations_per_utxo: 1, loops: 1, wallets: 2 };
    assert_eq!(o.validate(false), Ok(()));
}

#[test]
fn ranges_are_checked() {
    let mut o = opts(Command::SendLoop { loops: 0 });
    assert_eq!(o.validate(false), invalid(OptName::Loops));
    o.command = Command::MergeUtxos { assets: 6, loops: 1 };
    assert_eq!(o.validate(false), invalid(OptName::Assets));
    o.command = Command::RandomWallets { loops: 1, wallets: 1 };
    assert_eq!(o.validate(false), invalid(OptName::Wallets));
    o.command = Command::RandomTransfers { assets: 1, max_allocations_per_utxo: 0, loops: 1, wallets: 2 };
    assert_eq!(o.validate(false), invalid(OptName::MaxAllocationsPerUtxo));
    o.utxo_size = 293;
    assert_eq!(o.validate(false), invalid(OptName::UtxoSize));
    o.utxo_size = 294;
    o.send_amount = 0;
    assert_eq!(o.validate(false), invalid(OptName::SendAmount));
    o.allocation_utxos = 0;
    assert_eq!(o.validate(false), invalid(OptName::AllocationUtxos));
}

#[test]
fn existing_report_needs_force() {
    let mut o = opts(Command::MergeHistories { loops: 2 });
    assert_eq!(o.validate(true), Err(OptsError::ReportExists));
    o.force = true;
    assert_eq!(o.validate(true), Ok(()));
}
