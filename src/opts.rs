//! The run's options and their validation.

use vstd::prelude::*;

verus! {

/// The smallest allocation UTXO: dust limit plus witness allowance.
pub const MIN_UTXO_SIZE: u32 = 294;

/// The most assets the merge-UTXOs scenario issues.
pub const MAX_MERGE_ASSETS: u8 = 5;

/// Options common to all scenarios.
#[derive(Clone, PartialEq, Eq, Debug)]
pub struct Opts {
    /// Overwrite an existing report.
    pub force: bool,
    /// Directory where wallet data is stored.
    pub data_dir: String,
    /// Number of allocation UTXOs each wallet creates.
    pub allocation_utxos: u8,
    /// Size in satoshis of each allocation UTXO.
    pub utxo_size: u32,
    /// Amount of asset sent per transfer.
    pub send_amount: u64,
    /// Path of the CSV report.
    pub output: String,
    /// Print wallet details along the way.
    pub verbose: bool,
    /// Let receivers take transfers via witness.
    pub witness: bool,
    pub command: Command,
}

/// The scenario to run.
#[derive(Clone, Copy, PartialEq, Eq, Debug, Structural)]
pub enum Command {
    /// Send assets back and forth between two wallets `loops` times.
    SendLoop { loops: u16 },
    /// Issue one asset with two allocations, send them to two wallets, bounce
    /// each `loops` times, send both back to the issuer, spend the merged
    /// histories and spend the result once more.
    MergeHistories { loops: u16 },
    /// Issue `assets` assets from different wallets, bounce each `loops`
    /// times, gather all of them on one UTXO of one wallet and spend them in
    /// one transfer.
    MergeUtxos { assets: u8, loops: u16 },
    /// Send one asset `loops` times, each time to a randomly chosen other
    /// wallet among `wallets`.
    RandomWallets { loops: u16, wallets: u8 },
    /// Issue `assets` assets from random wallets and make `loops` transfers
    /// of random amounts between random wallets.
    RandomTransfers { assets: u8, max_allocations_per_utxo: u32, loops: u16, wallets: u8 },
}

/// An option whose value is out of its range.
#[derive(Clone, Copy, PartialEq, Eq, Debug, Structural)]
pub enum OptName {
    AllocationUtxos,
    UtxoSize,
    SendAmount,
    Loops,
    Assets,
    Wallets,
    MaxAllocationsPerUtxo,
}

/// Why a run is refused before anything is set up.
#[derive(Clone, Copy, PartialEq, Eq, Debug, Structural)]
pub enum OptsError {
    /// An option is out of its range.
    InvalidValue { option: OptName },
    /// The report file exists and `force` is not set.
    ReportExists,
}

/// The first option of the scenario's own that is out of its range.
pub open spec fn command_error(command: Command) -> Option<OptName> {
    match command {
        Command::SendLoop { loops } | Command::MergeHistories { loops } => if loops < 1 {
            Some(OptName::Loops)
        } else {
            None
        },
        Command::MergeUtxos { assets, loops } => if assets < 1 || assets > MAX_MERGE_ASSETS {
            Some(OptName::Assets)
        } else if loops < 1 {
            Some(OptName::Loops)
        } else {
            None
        },
        Command::RandomWallets { loops, wallets } => if loops < 1 {
            Some(OptName::Loops)
        } else if wallets < 2 {
            Some(OptName::Wallets)
        } else {
            None
        },
        Command::RandomTransfers { assets, max_allocations_per_utxo, loops, wallets } => if assets
            < 1 {
            Some(OptName::Assets)
        } else if max_allocations_per_utxo < 1 {
            Some(OptName::MaxAllocationsPerUtxo)
        } else if loops < 1 {
            Some(OptName::Loops)
        } else if wallets < 2 {
            Some(OptName::Wallets)
        } else {
            None
        },
    }
}

/// The first option out of its range. One allocation UTXO is too few but for
/// random transfers, which add UTXOs as they need them.
pub open spec fn opts_error(opts: Opts) -> Option<OptName> {
    if opts.allocation_utxos < 1 {
        Some(OptName::AllocationUtxos)
    } else if opts.utxo_size < MIN_UTXO_SIZE {
        Some(OptName::UtxoSize)
    } else if opts.send_amount < 1 {
        Some(OptName::SendAmount)
    } else if command_error(opts.command) is Some {
        command_error(opts.command)
    } else if !(opts.command is RandomTransfers) && opts.allocation_utxos == 1 {
        Some(OptName::AllocationUtxos)
    } else {
        None
    }
}

fn check_command(command: Command) -> (r: Option<OptName>)
    ensures
        r == command_error(command),
{
    match command {
        Command::SendLoop { loops } | Command::MergeHistories { loops } => if loops < 1 {
            Some(OptName::Loops)
        } else {
            None
        },
        Command::MergeUtxos { assets, loops } => if assets < 1 || assets > MAX_MERGE_ASSETS {
            Some(OptName::Assets)
        } else if loops < 1 {
            Some(OptName::Loops)
        } else {
            None
        },
        Command::RandomWallets { loops, wallets } => if loops < 1 {
            Some(OptName::Loops)
        } else if wallets < 2 {
            Some(OptName::Wallets)
        } else {
            None
        },
        Command::RandomTransfers { assets, max_allocations_per_utxo, loops, wallets } => if assets
            < 1 {
            Some(OptName::Assets)
        } else if max_allocations_per_utxo < 1 {
            Some(OptName::MaxAllocationsPerUtxo)
        } else if loops < 1 {
            Some(OptName::Loops)
        } else if wallets < 2 {
            Some(OptName::Wallets)
        } else {
            None
        },
    }
}

impl Opts {
    /// Checks the options before anything is set up: each value in its
    /// range, then the report guard (`output_exists` tells whether the
    /// report file is already there).
    pub fn validate(&self, output_exists: bool) -> (r: Result<(), OptsError>)
        ensures
            opts_error(*self) matches Some(o) ==> r == Err::<(), OptsError>(
                OptsError::InvalidValue { option: o },
            ),
            opts_error(*self) is None && output_exists && !self.force ==> r == Err::<
                (),
                OptsError,
            >(OptsError::ReportExists),
            opts_error(*self) is None && (!output_exists || self.force) ==> r is Ok,
    {
        let invalid = if self.allocation_utxos < 1 {
            Some(OptName::AllocationUtxos)
        } else if self.utxo_size < MIN_UTXO_SIZE {
            Some(OptName::UtxoSize)
        } else if self.send_amount < 1 {
            Some(OptName::SendAmount)
        } else {
            match check_command(self.command) {
                Some(o) => Some(o),
                None => {
                    let random_transfers = match self.command {
                        Command::RandomTransfers { .. } => true,
                        _ => false,
                    };
                    if !random_transfers && self.allocation_utxos == 1 {
                        Some(OptName::AllocationUtxos)
                    } else {
                        None
                    }
                },
            }
        };
        match invalid {
            Some(o) => Err(OptsError::InvalidValue { option: o }),
            None => if output_exists && !self.force {
                Err(OptsError::ReportExists)
            } else {
                Ok(())
            },
        }
    }
}

} // verus!
