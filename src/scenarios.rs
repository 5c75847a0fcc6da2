//! The five workloads as plans: the wallet setups, issues and transfers each
//! makes, in order. The caller carries a plan out step by step, running each
//! transfer through a [`crate::transfer::TransferRun`] and each wallet
//! operation through a [`crate::wallet::Provisioner`].

use vstd::prelude::*;

use crate::opts::Opts;
use crate::selection::{random_bool, random_below, receiver_for, receiver_from_draw};
use crate::wallet::{setup_funding, wallet_funding, TestMode};

verus! {

/// The allocations a wallet allows on one UTXO unless a scenario says
/// otherwise.
pub const DEFAULT_MAX_ALLOCATIONS_PER_UTXO: u32 = 5;

/// One step of a scenario. Wallets are numbered by the order in which they
/// are set up, assets by the order in which they are issued.
#[derive(Clone, Copy, PartialEq, Eq, Debug, Structural)]
pub enum Step {
    /// Set up the next wallet: fresh keys, `funding` satoshis, then allocation
    /// UTXOs created up to `utxo_num` of `utxo_size` satoshis.
    SetupWallet {
        wallet_index: u8,
        utxo_num: u8,
        utxo_size: u32,
        funding: u64,
        max_allocations_per_utxo: u32,
    },
    /// `wallet` issues the next asset, in `allocations` allocations of
    /// `amount` each.
    Issue { wallet: usize, amount: u64, allocations: u8 },
    /// One transfer of `amount` of each asset from `first_asset` to
    /// `first_asset + asset_count`, in one transaction.
    Transfer {
        sender: usize,
        receiver: usize,
        first_asset: usize,
        asset_count: usize,
        amount: u64,
        witness: bool,
    },
    /// One transfer whose parties, asset and amount are drawn when the step
    /// is carried out (see [`crate::selection::random_transfer`]).
    RandomTransfer { witness: bool },
    /// Print the unspents of `wallet` and the allocations on them.
    ShowUnspents { wallet: usize },
}

/// A scenario ready to be carried out.
#[derive(Clone, Debug)]
pub struct ScenarioPlan {
    /// How the wallet operations treat resource exhaustion.
    pub mode: TestMode,
    pub steps: Vec<Step>,
}

/// Why a scenario cannot be planned.
#[derive(Clone, Copy, PartialEq, Eq, Debug, Structural)]
pub enum PlanError {
    /// The allocation UTXOs a wallet needs exceed `u32::MAX` satoshis each.
    UtxoSizeTooLarge,
    /// A transfer amount exceeds `u64::MAX`.
    AmountTooLarge,
}

/// The setup of wallet `index`.
pub open spec fn setup(index: int, utxo_num: u8, utxo_size: u32, max_alloc: u32) -> Step {
    Step::SetupWallet {
        wallet_index: index as u8,
        utxo_num,
        utxo_size,
        funding: setup_funding(utxo_num as nat, utxo_size as nat) as u64,
        max_allocations_per_utxo: max_alloc,
    }
}

/// The setups of wallets `first .. first + count`.
pub open spec fn setups(first: int, count: int, utxo_num: u8, utxo_size: u32, max_alloc: u32) -> Seq<
    Step,
> {
    Seq::new(count as nat, |i: int| setup(first + i, utxo_num, utxo_size, max_alloc))
}

/// A transfer of one asset.
pub open spec fn send(sender: int, receiver: int, asset: int, amount: u64, witness: bool) -> Step {
    Step::Transfer {
        sender: sender as usize,
        receiver: receiver as usize,
        first_asset: asset as usize,
        asset_count: 1,
        amount,
        witness,
    }
}

/// `a` sends the asset to `b`, and `b` sends it back.
pub open spec fn bounce(a: int, b: int, asset: int, amount: u64, witness: bool) -> Seq<Step> {
    seq![send(a, b, asset, amount, witness), send(b, a, asset, amount, witness)]
}

/// `block` repeated `k` times.
pub open spec fn repeat(block: Seq<Step>, k: nat) -> Seq<Step>
    decreases k,
{
    if k == 0 {
        seq![]
    } else {
        repeat(block, (k - 1) as nat) + block
    }
}

/// `utxo_size` times `factor`, if the product fits a `u32`.
pub open spec fn scaled(utxo_size: u32, factor: nat) -> Option<u32> {
    if utxo_size * factor <= u32::MAX {
        Some((utxo_size * factor) as u32)
    } else {
        None
    }
}

fn scale(utxo_size: u32, factor: u32) -> (r: Result<u32, PlanError>)
    ensures
        scaled(utxo_size, factor as nat) matches Some(s) ==> r == Ok::<u32, PlanError>(s),
        scaled(utxo_size, factor as nat) is None ==> r == Err::<u32, PlanError>(
            PlanError::UtxoSizeTooLarge,
        ),
{
    match utxo_size.checked_mul(factor) {
        Some(s) => Ok(s),
        None => Err(PlanError::UtxoSizeTooLarge),
    }
}

fn push_setups(
    steps: &mut Vec<Step>,
    first: u8,
    count: u8,
    utxo_num: u8,
    utxo_size: u32,
    max_alloc: u32,
)
    requires
        first + count <= 256,
    ensures
        final(steps)@ == old(steps)@ + setups(first as int, count as int, utxo_num, utxo_size, max_alloc),
{
    let mut i: u8 = 0;
    while i < count
        invariant
            i <= count,
            first + count <= 256,
            steps@ == old(steps)@ + setups(first as int, i as int, utxo_num, utxo_size, max_alloc),
        decreases count - i,
    {
        let funding = wallet_funding(utxo_num, utxo_size);
        steps.push(
            Step::SetupWallet {
                wallet_index: (first as u16 + i as u16) as u8,
                utxo_num,
                utxo_size,
                funding,
                max_allocations_per_utxo: max_alloc,
            },
        );
        assert(steps@ =~= old(steps)@ + setups(first as int, i + 1, utxo_num, utxo_size, max_alloc));
        i = i + 1;
    }
}

fn push_all(steps: &mut Vec<Step>, block: &Vec<Step>)
    ensures
        final(steps)@ == old(steps)@ + block@,
{
    let mut i: usize = 0;
    while i < block.len()
        invariant
            i <= block.len(),
            steps@ == old(steps)@ + block@.take(i as int),
        decreases block.len() - i,
    {
        steps.push(block[i]);
        assert(block@.take(i + 1) == block@.take(i as int).push(block[i as int]));
        assert(steps@ =~= old(steps)@ + block@.take(i + 1));
        i = i + 1;
    }
    assert(block@.take(block.len() as int) == block@);
}

fn push_repeated(steps: &mut Vec<Step>, block: &Vec<Step>, k: u16)
    ensures
        final(steps)@ == old(steps)@ + repeat(block@, k as nat),
{
    let mut i: u16 = 0;
    while i < k
        invariant
            i <= k,
            steps@ == old(steps)@ + repeat(block@, i as nat),
        decreases k - i,
    {
        push_all(steps, block);
        assert(steps@ =~= old(steps)@ + repeat(block@, (i + 1) as nat));
        i = i + 1;
    }
}

fn push_bounce(block: &mut Vec<Step>, a: usize, b: usize, asset: usize, amount: u64, witness: bool)
    ensures
        final(block)@ == old(block)@ + bounce(a as int, b as int, asset as int, amount, witness),
{
    block.push(
        Step::Transfer { sender: a, receiver: b, first_asset: asset, asset_count: 1, amount, witness },
    );
    block.push(
        Step::Transfer { sender: b, receiver: a, first_asset: asset, asset_count: 1, amount, witness },
    );
    assert(block@ =~= old(block)@ + bounce(a as int, b as int, asset as int, amount, witness));
}

/// The send-loop scenario: wallets 1 and 2, one asset of `send_amount`
/// issued by the first, sent to the second and back `loops` times.
pub open spec fn send_loop_steps(opts: Opts, loops: u16, size: u32) -> Seq<Step> {
    let a = opts.send_amount;
    let w = opts.witness;
    setups(1, 2, opts.allocation_utxos, size, DEFAULT_MAX_ALLOCATIONS_PER_UTXO) + seq![
        Step::Issue { wallet: 0, amount: a, allocations: 1 },
    ] + repeat(bounce(0, 1, 0, a, w), loops as nat)
}

/// Plans the send-loop scenario. Each wallet's allocation UTXOs are
/// `loops` times the configured size.
pub fn send_loop(opts: &Opts, loops: u16) -> (r: Result<ScenarioPlan, PlanError>)
    ensures
        scaled(opts.utxo_size, loops as nat) is None ==> r == Err::<ScenarioPlan, PlanError>(
            PlanError::UtxoSizeTooLarge,
        ),
        scaled(opts.utxo_size, loops as nat) matches Some(size) ==> r matches Ok(p) && p.mode
            == TestMode::NoErrorHandling && p.steps@ == send_loop_steps(*opts, loops, size),
{
    let size = match scale(opts.utxo_size, loops as u32) {
        Ok(s) => s,
        Err(e) => {
            return Err(e);
        },
    };
    let mut steps: Vec<Step> = Vec::new();
    push_setups(&mut steps, 1, 2, opts.allocation_utxos, size, DEFAULT_MAX_ALLOCATIONS_PER_UTXO);
    steps.push(Step::Issue { wallet: 0, amount: opts.send_amount, allocations: 1 });
    let mut block: Vec<Step> = Vec::new();
    push_bounce(&mut block, 0, 1, 0, opts.send_amount, opts.witness);
    assert(block@ =~= bounce(0, 1, 0, opts.send_amount, opts.witness));
    push_repeated(&mut steps, &block, loops);
    Ok(ScenarioPlan { mode: TestMode::NoErrorHandling, steps })
}

/// A step list that is `steps` when `cond` holds, and empty otherwise.
pub open spec fn only_if(cond: bool, steps: Seq<Step>) -> Seq<Step> {
    if cond {
        steps
    } else {
        seq![]
    }
}

/// The merge-histories scenario: six wallets; wallet 0 issues one asset in
/// two allocations and sends one to wallet 1 and one to wallet 2; each of
/// those bounces its allocation with wallet 3 and wallet 4 respectively
/// `loops` times; both send back to wallet 0, which spends the merged
/// histories to wallet 5, which sends them back.
pub open spec fn merge_histories_steps(opts: Opts, loops: u16, size: u32, merged: u64) -> Seq<Step> {
    let a = opts.send_amount;
    let w = opts.witness;
    setups(0, 6, opts.allocation_utxos, size, DEFAULT_MAX_ALLOCATIONS_PER_UTXO) + seq![
        Step::Issue { wallet: 0, amount: a, allocations: 2 },
        send(0, 1, 0, a, w),
        send(0, 2, 0, a, w),
    ] + repeat(bounce(1, 3, 0, a, w) + bounce(2, 4, 0, a, w), loops as nat) + seq![
        send(1, 0, 0, a, w),
        send(2, 0, 0, a, w),
        send(0, 5, 0, merged, w),
        send(5, 0, 0, merged, w),
    ] + only_if(opts.verbose, seq![Step::ShowUnspents { wallet: 0 }])
}

fn push_send(steps: &mut Vec<Step>, a: usize, b: usize, asset: usize, amount: u64, witness: bool)
    ensures
        final(steps)@ == old(steps)@.push(send(a as int, b as int, asset as int, amount, witness)),
{
    steps.push(
        Step::Transfer { sender: a, receiver: b, first_asset: asset, asset_count: 1, amount, witness },
    );
}

/// Plans the merge-histories scenario. Each wallet's allocation UTXOs are
/// `loops` times the configured size; the merged spends move twice the send
/// amount.
pub fn merge_histories(opts: &Opts, loops: u16) -> (r: Result<ScenarioPlan, PlanError>)
    ensures
        scaled(opts.utxo_size, loops as nat) is None ==> r == Err::<ScenarioPlan, PlanError>(
            PlanError::UtxoSizeTooLarge,
        ),
        scaled(opts.utxo_size, loops as nat) is Some && 2 * opts.send_amount > u64::MAX ==> r
            == Err::<ScenarioPlan, PlanError>(PlanError::AmountTooLarge),
        scaled(opts.utxo_size, loops as nat) matches Some(size) ==> (2 * opts.send_amount
            <= u64::MAX ==> (r matches Ok(p) && p.mode == TestMode::NoErrorHandling && p.steps@
            == merge_histories_steps(*opts, loops, size, (2 * opts.send_amount) as u64))),
{
    let size = match scale(opts.utxo_size, loops as u32) {
        Ok(s) => s,
        Err(e) => {
            return Err(e);
        },
    };
    let merged = match opts.send_amount.checked_mul(2) {
        Some(m) => m,
        None => {
            return Err(PlanError::AmountTooLarge);
        },
    };
    let a = opts.send_amount;
    let w = opts.witness;
    let mut steps: Vec<Step> = Vec::new();
    push_setups(&mut steps, 0, 6, opts.allocation_utxos, size, DEFAULT_MAX_ALLOCATIONS_PER_UTXO);
    steps.push(Step::Issue { wallet: 0, amount: a, allocations: 2 });
    push_send(&mut steps, 0, 1, 0, a, w);
    push_send(&mut steps, 0, 2, 0, a, w);
    let mut block: Vec<Step> = Vec::new();
    push_bounce(&mut block, 1, 3, 0, a, w);
    push_bounce(&mut block, 2, 4, 0, a, w);
    assert(block@ =~= bounce(1, 3, 0, a, w) + bounce(2, 4, 0, a, w));
    push_repeated(&mut steps, &block, loops);
    push_send(&mut steps, 1, 0, 0, a, w);
    push_send(&mut steps, 2, 0, 0, a, w);
    push_send(&mut steps, 0, 5, 0, merged, w);
    push_send(&mut steps, 5, 0, 0, merged, w);
    if opts.verbose {
        steps.push(Step::ShowUnspents { wallet: 0 });
    }
    assert(steps@ =~= merge_histories_steps(*opts, loops, size, merged));
    Ok(ScenarioPlan { mode: TestMode::NoErrorHandling, steps })
}

/// Wallets `0 .. k`, each set up and issuing one asset of `amount`.
pub open spec fn issuers(k: nat, utxo_num: u8, utxo_size: u32, amount: u64) -> Seq<Step>
    decreases k,
{
    if k == 0 {
        seq![]
    } else {
        issuers((k - 1) as nat, utxo_num, utxo_size, amount) + seq![
            setup(k - 1, utxo_num, utxo_size, DEFAULT_MAX_ALLOCATIONS_PER_UTXO),
            Step::Issue { wallet: (k - 1) as usize, amount, allocations: 1 },
        ]
    }
}

/// Issuers `0 .. k` each bounce their asset with wallet `hub`.
pub open spec fn hub_round(k: nat, hub: int, amount: u64, witness: bool) -> Seq<Step>
    decreases k,
{
    if k == 0 {
        seq![]
    } else {
        hub_round((k - 1) as nat, hub, amount, witness) + bounce(
            k - 1,
            hub,
            k - 1,
            amount,
            witness,
        )
    }
}

/// Issuers `0 .. k` each send their asset to wallet `to`.
pub open spec fn gather(k: nat, to: int, amount: u64, witness: bool) -> Seq<Step>
    decreases k,
{
    if k == 0 {
        seq![]
    } else {
        gather((k - 1) as nat, to, amount, witness).push(send(k - 1, to, k - 1, amount, witness))
    }
}

/// The merge-UTXOs scenario for `n` assets: wallets `0 .. n` each set up
/// and issue one asset; wallet `n` (index `n + 1`) is set up and bounces
/// each asset with its issuer `loops` times; wallet `n + 1` (index `n + 2`)
/// is set up with a single allocation UTXO and receives every asset from its
/// issuer; it then spends all of them to wallet `n` in one transfer.
pub open spec fn merge_utxos_steps(
    opts: Opts,
    n: u8,
    loops: u16,
    size: u32,
    hub_size: u32,
) -> Seq<Step> {
    let a = opts.send_amount;
    let w = opts.witness;
    let u = opts.allocation_utxos;
    let hub = n as int;
    let merger = n + 1;
    issuers(n as nat, u, size, a) + seq![setup(n + 1, u, hub_size, DEFAULT_MAX_ALLOCATIONS_PER_UTXO)]
        + repeat(hub_round(n as nat, hub, a, w), loops as nat) + seq![
        setup(n + 2, 1, opts.utxo_size, DEFAULT_MAX_ALLOCATIONS_PER_UTXO),
    ] + gather(n as nat, merger, a, w) + only_if(
        opts.verbose,
        seq![Step::ShowUnspents { wallet: merger as usize }],
    ) + seq![
        Step::Transfer {
            sender: merger as usize,
            receiver: hub as usize,
            first_asset: 0,
            asset_count: n as usize,
            amount: a,
            witness: w,
        },
    ] + only_if(opts.verbose, seq![Step::ShowUnspents { wallet: hub as usize }])
}

/// Plans the merge-UTXOs scenario for `assets` assets. The issuers'
/// allocation UTXOs are `loops` times the configured size, those of the
/// wallet they bounce with `assets * loops` times.
pub fn merge_utxos(opts: &Opts, assets: u8, loops: u16) -> (r: Result<ScenarioPlan, PlanError>)
    requires
        1 <= assets <= 5,
    ensures
        scaled(opts.utxo_size, loops as nat) is None || scaled(
            opts.utxo_size,
            (assets * loops) as nat,
        ) is None ==> r == Err::<ScenarioPlan, PlanError>(PlanError::UtxoSizeTooLarge),
        scaled(opts.utxo_size, loops as nat) matches Some(size) ==> (scaled(
            opts.utxo_size,
            (assets * loops) as nat,
        ) matches Some(hub_size) ==> (r matches Ok(p) && p.mode == TestMode::NoErrorHandling
            && p.steps@ == merge_utxos_steps(*opts, assets, loops, size, hub_size))),
{
    let size = match scale(opts.utxo_size, loops as u32) {
        Ok(s) => s,
        Err(e) => {
            return Err(e);
        },
    };
    assert(assets as u32 * loops as u32 <= 5 * 0xffff) by (nonlinear_arith)
        requires
            assets <= 5,
            loops <= 0xffff,
    ;
    let hub_size = match scale(opts.utxo_size, assets as u32 * loops as u32) {
        Ok(s) => s,
        Err(e) => {
            return Err(e);
        },
    };
    let a = opts.send_amount;
    let w = opts.witness;
    let u = opts.allocation_utxos;
    let n = assets as usize;
    let mut steps: Vec<Step> = Vec::new();
    let mut i: u8 = 0;
    while i < assets
        invariant
            i <= assets <= 5,
            steps@ == issuers(i as nat, u, size, a),
        decreases assets - i,
    {
        let funding = wallet_funding(u, size);
        steps.push(
            Step::SetupWallet {
                wallet_index: i,
                utxo_num: u,
                utxo_size: size,
                funding,
                max_allocations_per_utxo: DEFAULT_MAX_ALLOCATIONS_PER_UTXO,
            },
        );
        steps.push(Step::Issue { wallet: i as usize, amount: a, allocations: 1 });
        assert(steps@ =~= issuers((i + 1) as nat, u, size, a));
        i = i + 1;
    }
    push_setups(&mut steps, assets + 1, 1, u, hub_size, DEFAULT_MAX_ALLOCATIONS_PER_UTXO);
    assert(setups(assets + 1, 1, u, hub_size, DEFAULT_MAX_ALLOCATIONS_PER_UTXO) =~= seq![
        setup(assets + 1, u, hub_size, DEFAULT_MAX_ALLOCATIONS_PER_UTXO),
    ]);
    let mut block: Vec<Step> = Vec::new();
    let mut j: usize = 0;
    while j < n
        invariant
            j <= n <= 5,
            block@ == hub_round(j as nat, n as int, a, w),
        decreases n - j,
    {
        push_bounce(&mut block, j, n, j, a, w);
        j = j + 1;
    }
    push_repeated(&mut steps, &block, loops);
    push_setups(&mut steps, assets + 2, 1, 1, opts.utxo_size, DEFAULT_MAX_ALLOCATIONS_PER_UTXO);
    assert(setups(assets + 2, 1, 1, opts.utxo_size, DEFAULT_MAX_ALLOCATIONS_PER_UTXO) =~= seq![
        setup(assets + 2, 1, opts.utxo_size, DEFAULT_MAX_ALLOCATIONS_PER_UTXO),
    ]);
    let ghost s3 = steps@;
    let mut k: usize = 0;
    while k < n
        invariant
            k <= n <= 5,
            steps@ == s3 + gather(k as nat, n + 1, a, w),
        decreases n - k,
    {
        push_send(&mut steps, k, n + 1, k, a, w);
        assert(steps@ =~= s3 + gather((k + 1) as nat, n + 1, a, w));
        k = k + 1;
    }
    if opts.verbose {
        steps.push(Step::ShowUnspents { wallet: n + 1 });
    }
    steps.push(
        Step::Transfer {
            sender: n + 1,
            receiver: n,
            first_asset: 0,
            asset_count: n,
            amount: a,
            witness: w,
        },
    );
    if opts.verbose {
        steps.push(Step::ShowUnspents { wallet: n });
    }
    assert(steps@ =~= merge_utxos_steps(*opts, assets, loops, size, hub_size));
    Ok(ScenarioPlan { mode: TestMode::NoErrorHandling, steps })
}

/// The wallet that holds the asset after the first `k` transfers of a
/// random walk that starts at wallet 0 and moves by the draws `draws`.
pub open spec fn walk_pos(draws: Seq<usize>, k: nat) -> int
    decreases k,
{
    if k == 0 {
        0
    } else {
        receiver_for(walk_pos(draws, (k - 1) as nat), draws[k - 1] as int)
    }
}

/// The transfers of a random walk: each goes from where the asset is to
/// another wallet, and the next starts where it ended.
pub open spec fn is_walk(transfers: Seq<Step>, wallets: nat) -> bool {
    forall|k: int|
        0 <= k < transfers.len() ==> {
            &&& #[trigger] transfers[k] is Transfer
            &&& transfers[k]->sender < wallets
            &&& transfers[k]->receiver < wallets
            &&& transfers[k]->sender != transfers[k]->receiver
            &&& k == 0 ==> transfers[k]->sender == 0
            &&& k > 0 ==> transfers[k]->sender == transfers[k - 1]->receiver
        }
}

/// In a random walk no two consecutive transfers have the same sender.
pub proof fn lemma_walk_senders_differ(transfers: Seq<Step>, wallets: nat)
    requires
        is_walk(transfers, wallets),
    ensures
        forall|k: int|
            0 < k < transfers.len() ==> (#[trigger] transfers[k])->sender != transfers[k
                - 1]->sender,
{
    assert forall|k: int| 0 < k < transfers.len() implies (#[trigger] transfers[k])->sender
        != transfers[k - 1]->sender by {
        assert(transfers[k] is Transfer);
        assert(transfers[k - 1] is Transfer);
    }
}

proof fn lemma_walk_pos_bound(draws: Seq<usize>, k: nat, wallets: int)
    requires
        wallets >= 2,
        k <= draws.len(),
        forall|i: int| 0 <= i < draws.len() ==> draws[i] < wallets - 1,
    ensures
        0 <= walk_pos(draws, k) < wallets,
    decreases k,
{
    if k > 0 {
        lemma_walk_pos_bound(draws, (k - 1) as nat, wallets);
    }
}

/// The random-wallets scenario for the draws `draws` (receivers) and
/// `coins` (whether a receiver takes the transfer via witness, where that is
/// enabled): `wallets` wallets; wallet 0 issues one asset, which then moves
/// `loops` times to another wallet.
pub open spec fn random_wallets_steps(
    opts: Opts,
    wallets: u8,
    size: u32,
    draws: Seq<usize>,
    coins: Seq<bool>,
) -> Seq<Step> {
    let a = opts.send_amount;
    setups(0, wallets as int, opts.allocation_utxos, size, DEFAULT_MAX_ALLOCATIONS_PER_UTXO) + seq![
        Step::Issue { wallet: 0, amount: a, allocations: 1 },
    ] + Seq::new(
        draws.len(),
        |k: int|
            send(
                walk_pos(draws, k as nat),
                walk_pos(draws, (k + 1) as nat),
                0,
                a,
                opts.witness && coins[k],
            ),
    )
}

/// Plans the random-wallets scenario for given draws: transfer `k` goes to
/// the wallet that draw `draws[k]` picks among those other than the current
/// holder (see [`crate::selection::receiver_from_draw`]).
pub fn random_wallets_from_draws(
    opts: &Opts,
    loops: u16,
    wallets: u8,
    draws: &Vec<usize>,
    coins: &Vec<bool>,
) -> (r: Result<ScenarioPlan, PlanError>)
    requires
        wallets >= 2,
        draws.len() == loops,
        coins.len() == loops,
        forall|i: int| 0 <= i < draws.len() ==> draws[i] < wallets - 1,
    ensures
        scaled(opts.utxo_size, loops as nat) is None ==> r == Err::<ScenarioPlan, PlanError>(
            PlanError::UtxoSizeTooLarge,
        ),
        scaled(opts.utxo_size, loops as nat) matches Some(size) ==> (r matches Ok(p) && p.mode
            == TestMode::NoErrorHandling && p.steps@ == random_wallets_steps(
            *opts,
            wallets,
            size,
            draws@,
            coins@,
        ) && is_walk(p.steps@.skip(wallets + 1), wallets as nat)),
{
    let size = match scale(opts.utxo_size, loops as u32) {
        Ok(s) => s,
        Err(e) => {
            return Err(e);
        },
    };
    let a = opts.send_amount;
    let n = wallets as usize;
    let mut steps: Vec<Step> = Vec::new();
    push_setups(&mut steps, 0, wallets, opts.allocation_utxos, size, DEFAULT_MAX_ALLOCATIONS_PER_UTXO);
    steps.push(Step::Issue { wallet: 0, amount: a, allocations: 1 });
    let ghost s0 = steps@;
    let ghost walk = Seq::new(
        draws@.len(),
        |k: int|
            send(
                walk_pos(draws@, k as nat),
                walk_pos(draws@, (k + 1) as nat),
                0,
                a,
                opts.witness && coins@[k],
            ),
    );
    let mut last: usize = 0;
    let mut k: usize = 0;
    while k < draws.len()
        invariant
            wallets >= 2,
            n == wallets,
            draws.len() == coins.len(),
            forall|i: int| 0 <= i < draws.len() ==> draws[i] < wallets - 1,
            k <= draws.len(),
            last == walk_pos(draws@, k as nat),
            last < n,
            s0.len() == n + 1,
            walk.len() == draws.len(),
            forall|i: int|
                0 <= i < walk.len() ==> walk[i] == send(
                    walk_pos(draws@, i as nat),
                    walk_pos(draws@, (i + 1) as nat),
                    0,
                    a,
                    opts.witness && coins@[i],
                ),
            steps@ == s0 + walk.take(k as int),
        decreases draws.len() - k,
    {
        let next = receiver_from_draw(last, draws[k], n);
        let witness = opts.witness && coins[k];
        push_send(&mut steps, last, next, 0, a, witness);
        assert(walk.take(k + 1) == walk.take(k as int).push(walk[k as int]));
        last = next;
        k = k + 1;
    }
    assert(walk.take(draws.len() as int) == walk);
    assert(steps@ =~= random_wallets_steps(*opts, wallets, size, draws@, coins@));
    assert(steps@.skip(wallets + 1) == walk);
    assert forall|i: int| 0 <= i < walk.len() implies {
        &&& #[trigger] walk[i] is Transfer
        &&& walk[i]->sender < wallets
        &&& walk[i]->receiver < wallets
        &&& walk[i]->sender != walk[i]->receiver
        &&& i == 0 ==> walk[i]->sender == 0
        &&& i > 0 ==> walk[i]->sender == walk[i - 1]->receiver
    } by {
        lemma_walk_pos_bound(draws@, i as nat, wallets as int);
        lemma_walk_pos_bound(draws@, (i + 1) as nat, wallets as int);
    }
    Ok(ScenarioPlan { mode: TestMode::NoErrorHandling, steps })
}

/// Plans the random-wallets scenario: `wallets` wallets; wallet 0 issues
/// one asset, which then moves `loops` times to a wallet drawn uniformly
/// among those other than the current holder. Where witness receiving is
/// enabled, each receiver takes the transfer via witness with even odds.
pub fn random_wallets(opts: &Opts, loops: u16, wallets: u8) -> (r: Result<ScenarioPlan, PlanError>)
    requires
        wallets >= 2,
    ensures
        scaled(opts.utxo_size, loops as nat) is None ==> r == Err::<ScenarioPlan, PlanError>(
            PlanError::UtxoSizeTooLarge,
        ),
        scaled(opts.utxo_size, loops as nat) matches Some(size) ==> (r matches Ok(p) && p.mode
            == TestMode::NoErrorHandling && p.steps@.len() == wallets + 1 + loops
            && p.steps@.take(wallets + 1) == setups(
            0,
            wallets as int,
            opts.allocation_utxos,
            size,
            DEFAULT_MAX_ALLOCATIONS_PER_UTXO,
        ).push(Step::Issue { wallet: 0, amount: opts.send_amount, allocations: 1 }) && is_walk(
            p.steps@.skip(wallets + 1),
            wallets as nat,
        ) && exists|draws: Seq<usize>, coins: Seq<bool>|
            draws.len() == loops && coins.len() == loops && (forall|i: int|
                0 <= i < draws.len() ==> draws[i] < wallets - 1) && p.steps@
                == #[trigger] random_wallets_steps(*opts, wallets, size, draws, coins)),
{
    let mut draws: Vec<usize> = Vec::new();
    let mut coins: Vec<bool> = Vec::new();
    let mut k: u16 = 0;
    while k < loops
        invariant
            wallets >= 2,
            k <= loops,
            draws.len() == k,
            coins.len() == k,
            forall|i: int| 0 <= i < draws.len() ==> draws[i] < wallets - 1,
        decreases loops - k,
    {
        draws.push(random_below(wallets as usize - 1));
        coins.push(random_bool());
        k = k + 1;
    }
    let r = random_wallets_from_draws(opts, loops, wallets, &draws, &coins);
    proof {
        if let Some(size) = scaled(opts.utxo_size, loops as nat) {
            let steps = random_wallets_steps(*opts, wallets, size, draws@, coins@);
            assert(steps.take(wallets + 1) =~= setups(
                0,
                wallets as int,
                opts.allocation_utxos,
                size,
                DEFAULT_MAX_ALLOCATIONS_PER_UTXO,
            ).push(Step::Issue { wallet: 0, amount: opts.send_amount, allocations: 1 }));
            if r is Ok {
                assert(r->Ok_0.steps@ == random_wallets_steps(
                    *opts,
                    wallets,
                    size,
                    draws@,
                    coins@,
                ));
            }
        }
    }
    r
}

/// The random-transfers scenario for the draws `issuers` (which wallet
/// issues each asset) and `coins` (whether a receiver takes the transfer
/// via witness, where that is enabled): `wallets` wallets with the
/// configured allocation UTXOs, one asset of the send amount issued by each
/// drawn wallet, then `coins.len()` random transfers.
pub open spec fn random_transfers_steps(
    opts: Opts,
    wallets: u8,
    max_allocations_per_utxo: u32,
    issuers: Seq<usize>,
    coins: Seq<bool>,
) -> Seq<Step> {
    setups(0, wallets as int, opts.allocation_utxos, opts.utxo_size, max_allocations_per_utxo)
        + Seq::new(
        issuers.len(),
        |k: int| Step::Issue { wallet: issuers[k], amount: opts.send_amount, allocations: 1 },
    ) + Seq::new(coins.len(), |k: int| Step::RandomTransfer { witness: opts.witness && coins[k] })
}

/// Plans the random-transfers scenario for given draws. Resource exhaustion
/// is corrected with allocation UTXOs of the configured count and size.
pub fn random_transfers_from_draws(
    opts: &Opts,
    wallets: u8,
    max_allocations_per_utxo: u32,
    issuers: &Vec<usize>,
    coins: &Vec<bool>,
) -> (r: ScenarioPlan)
    ensures
        r.mode == (TestMode::HandleUtxoErrors {
            utxos: opts.allocation_utxos,
            utxo_size: opts.utxo_size,
        }),
        r.steps@ == random_transfers_steps(
            *opts,
            wallets,
            max_allocations_per_utxo,
            issuers@,
            coins@,
        ),
{
    let mut steps: Vec<Step> = Vec::new();
    push_setups(
        &mut steps,
        0,
        wallets,
        opts.allocation_utxos,
        opts.utxo_size,
        max_allocations_per_utxo,
    );
    let ghost s0 = steps@;
    let ghost issues = Seq::new(
        issuers@.len(),
        |k: int| Step::Issue { wallet: issuers@[k], amount: opts.send_amount, allocations: 1 },
    );
    let mut k: usize = 0;
    while k < issuers.len()
        invariant
            k <= issuers.len(),
            issues.len() == issuers.len(),
            forall|i: int|
                0 <= i < issues.len() ==> issues[i] == (Step::Issue {
                    wallet: issuers@[i],
                    amount: opts.send_amount,
                    allocations: 1,
                }),
            steps@ == s0 + issues.take(k as int),
        decreases issuers.len() - k,
    {
        steps.push(Step::Issue { wallet: issuers[k], amount: opts.send_amount, allocations: 1 });
        assert(issues.take(k + 1) == issues.take(k as int).push(issues[k as int]));
        k = k + 1;
    }
    assert(issues.take(issuers.len() as int) == issues);
    let ghost s1 = steps@;
    let ghost randoms = Seq::new(
        coins@.len(),
        |k: int| Step::RandomTransfer { witness: opts.witness && coins@[k] },
    );
    let mut j: usize = 0;
    while j < coins.len()
        invariant
            j <= coins.len(),
            randoms.len() == coins.len(),
            forall|i: int|
                0 <= i < randoms.len() ==> randoms[i] == (Step::RandomTransfer {
                    witness: opts.witness && coins@[i],
                }),
            steps@ == s1 + randoms.take(j as int),
        decreases coins.len() - j,
    {
        steps.push(Step::RandomTransfer { witness: opts.witness && coins[j] });
        assert(randoms.take(j + 1) == randoms.take(j as int).push(randoms[j as int]));
        j = j + 1;
    }
    assert(randoms.take(coins.len() as int) == randoms);
    assert(steps@ =~= random_transfers_steps(
        *opts,
        wallets,
        max_allocations_per_utxo,
        issuers@,
        coins@,
    ));
    ScenarioPlan {
        mode: TestMode::HandleUtxoErrors { utxos: opts.allocation_utxos, utxo_size: opts.utxo_size },
        steps,
    }
}

/// Plans the random-transfers scenario: `wallets` wallets, `assets` assets
/// each issued by a wallet drawn at random, then `loops` random transfers
/// (see [`crate::selection::random_transfer`]).
pub fn random_transfers(
    opts: &Opts,
    wallets: u8,
    assets: u8,
    max_allocations_per_utxo: u32,
    loops: u16,
) -> (r: ScenarioPlan)
    requires
        wallets >= 1,
    ensures
        r.mode == (TestMode::HandleUtxoErrors {
            utxos: opts.allocation_utxos,
            utxo_size: opts.utxo_size,
        }),
        exists|issuers: Seq<usize>, coins: Seq<bool>|
            issuers.len() == assets && coins.len() == loops && (forall|i: int|
                0 <= i < issuers.len() ==> issuers[i] < wallets) && r.steps@
                == #[trigger] random_transfers_steps(
                *opts,
                wallets,
                max_allocations_per_utxo,
                issuers,
                coins,
            ),
{
    let mut issuers: Vec<usize> = Vec::new();
    let mut i: u8 = 0;
    while i < assets
        invariant
            wallets >= 1,
            i <= assets,
            issuers.len() == i,
            forall|k: int| 0 <= k < issuers.len() ==> issuers[k] < wallets,
        decreases assets - i,
    {
        issuers.push(random_below(wallets as usize));
        i = i + 1;
    }
    let mut coins: Vec<bool> = Vec::new();
    let mut k: u16 = 0;
    while k < loops
        invariant
            k <= loops,
            coins.len() == k,
        decreases loops - k,
    {
        coins.push(random_bool());
        k = k + 1;
    }
    random_transfers_from_draws(opts, wallets, max_allocations_per_utxo, &issuers, &coins)
}

} // verus!
