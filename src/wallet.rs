//! The wallet actor's own state and the resource-provisioning retry machine.

use vstd::prelude::*;

use crate::text::{chars_of, decimal, decimal_string, digit_char, digit_str};

verus! {

/// The satoshis set aside for fees per allocation UTXO at wallet setup.
pub const FEE_AMT: u64 = 200;

/// Headroom factor applied to a funding shortfall.
pub const FUNDING_HEADROOM: u64 = 5;

/// Satoshis per bitcoin.
pub const SATS_PER_BTC: u64 = 100_000_000;

/// The three-digit decimal form of `n`, with leading zeros.
pub open spec fn three_digits(n: int) -> Seq<char> {
    seq![digit_char(n / 100), digit_char((n / 10) % 10), digit_char(n % 10)]
}

/// The ticker of the `counter`-th asset issued by the wallet at `index`.
pub open spec fn ticker_of(index: int, counter: int) -> Seq<char> {
    seq!['T'] + three_digits(index) + three_digits(counter)
}

/// Renders `n` (below 1000) with exactly three digits.
fn three_digit_string(n: u64) -> (r: String)
    requires
        n < 1000,
    ensures
        r@ == three_digits(n as int),
{
    let mut s = String::from_str(digit_str(n / 100));
    s.append(digit_str((n / 10) % 10));
    s.append(digit_str(n % 10));
    s
}

/// The ticker of the `counter`-th asset issued by the wallet at `index`.
pub fn ticker(index: u8, counter: u8) -> (r: String)
    ensures
        r@ == ticker_of(index as int, counter as int),
{
    proof {
        reveal_strlit("T");
    }
    let mut s = String::from_str("T");
    let a = three_digit_string(index as u64);
    let b = three_digit_string(counter as u64);
    s.append(a.as_str());
    s.append(b.as_str());
    s
}

proof fn lemma_digit_char_injective(a: int, b: int)
    requires
        0 <= a < 10,
        0 <= b < 10,
        digit_char(a) == digit_char(b),
    ensures
        a == b,
{
}

proof fn lemma_three_digits_injective(a: int, b: int)
    requires
        0 <= a < 1000,
        0 <= b < 1000,
        three_digits(a) == three_digits(b),
    ensures
        a == b,
{
    assert(three_digits(a)[0] == three_digits(b)[0]);
    assert(three_digits(a)[1] == three_digits(b)[1]);
    assert(three_digits(a)[2] == three_digits(b)[2]);
    lemma_digit_char_injective(a / 100, b / 100);
    lemma_digit_char_injective((a / 10) % 10, (b / 10) % 10);
    lemma_digit_char_injective(a % 10, b % 10);
    assert(a == (a / 100) * 100 + ((a / 10) % 10) * 10 + a % 10) by (nonlinear_arith)
        requires
            0 <= a < 1000,
    ;
    assert(b == (b / 100) * 100 + ((b / 10) % 10) * 10 + b % 10) by (nonlinear_arith)
        requires
            0 <= b < 1000,
    ;
}

/// Two assets get the same ticker only when they are the same issue of the
/// same wallet: tickers never collide across wallets or within one.
pub proof fn lemma_tickers_unique(index1: u8, counter1: u8, index2: u8, counter2: u8)
    requires
        ticker_of(index1 as int, counter1 as int) == ticker_of(index2 as int, counter2 as int),
    ensures
        index1 == index2,
        counter1 == counter2,
{
    let t1 = ticker_of(index1 as int, counter1 as int);
    let t2 = ticker_of(index2 as int, counter2 as int);
    assert(three_digits(index1 as int) == t1.subrange(1, 4));
    assert(three_digits(index2 as int) == t2.subrange(1, 4));
    assert(three_digits(counter1 as int) == t1.subrange(4, 7));
    assert(three_digits(counter2 as int) == t2.subrange(4, 7));
    lemma_three_digits_injective(index1 as int, index2 as int);
    lemma_three_digits_injective(counter1 as int, counter2 as int);
}

/// The identity of one wallet and its count of issued assets.
pub struct WalletActor {
    pub fingerprint: String,
    pub wallet_index: u8,
    /// How many assets this wallet has issued; only ever increases.
    pub asset_counter: u8,
}

impl WalletActor {
    /// A wallet that has issued nothing yet.
    pub fn new(fingerprint: String, wallet_index: u8) -> (r: WalletActor)
        ensures
            r.fingerprint@ == fingerprint@,
            r.wallet_index == wallet_index,
            r.asset_counter == 0,
    {
        WalletActor { fingerprint, wallet_index, asset_counter: 0 }
    }

    /// Counts one more issue and returns its ticker; `None`, with nothing
    /// changed, once the wallet has issued 255 assets.
    pub fn next_ticker(&mut self) -> (r: Option<String>)
        ensures
            final(self).fingerprint@ == old(self).fingerprint@,
            final(self).wallet_index == old(self).wallet_index,
            old(self).asset_counter == 255 ==> r is None && final(self).asset_counter == 255,
            old(self).asset_counter < 255 ==> {
                &&& final(self).asset_counter == old(self).asset_counter + 1
                &&& r matches Some(t) && t@ == ticker_of(
                    old(self).wallet_index as int,
                    final(self).asset_counter as int,
                )
            },
    {
        if self.asset_counter == 255 {
            return None;
        }
        self.asset_counter = self.asset_counter + 1;
        Some(ticker(self.wallet_index, self.asset_counter))
    }
}

/// The exactly `width` last decimal digits of `n`, with leading zeros.
pub open spec fn fixed_digits(n: nat, width: nat) -> Seq<char>
    decreases width,
{
    if width == 0 {
        seq![]
    } else {
        fixed_digits(n / 10, (width - 1) as nat).push(digit_char((n % 10) as int))
    }
}

fn fixed_digit_string(n: u64, width: u64) -> (r: String)
    ensures
        r@ == fixed_digits(n as nat, width as nat),
    decreases width,
{
    if width == 0 {
        String::new()
    } else {
        let mut s = fixed_digit_string(n / 10, width - 1);
        s.append(digit_str(n % 10));
        s
    }
}

/// An amount of satoshis written in bitcoins with eight decimals.
pub open spec fn btc_text(sats: nat) -> Seq<char> {
    decimal(sats / SATS_PER_BTC as nat) + seq!['.'] + fixed_digits(sats % SATS_PER_BTC as nat, 8)
}

/// Writes an amount of satoshis in bitcoins, as the node's command line
/// takes it (`1494` gives `0.00001494`).
pub fn btc_amount(sats: u64) -> (r: String)
    ensures
        r@ == btc_text(sats as nat),
{
    proof {
        reveal_strlit(".");
    }
    let mut s = decimal_string(sats / SATS_PER_BTC);
    s.append(".");
    let frac = fixed_digit_string(sats % SATS_PER_BTC, 8);
    s.append(frac.as_str());
    s
}

/// The funding a new wallet receives: each of its `utxo_num` allocation
/// UTXOs of `utxo_size` satoshis, plus the fee allowance for each.
pub open spec fn setup_funding(utxo_num: nat, utxo_size: nat) -> nat {
    utxo_num * utxo_size + utxo_num * (FEE_AMT as nat)
}

/// The funding a new wallet receives.
pub fn wallet_funding(utxo_num: u8, utxo_size: u32) -> (r: u64)
    ensures
        r == setup_funding(utxo_num as nat, utxo_size as nat),
{
    assert(utxo_num as u64 * utxo_size as u64 <= 255 * 0xffff_ffff) by (nonlinear_arith)
        requires
            utxo_num <= 255,
            utxo_size <= 0xffff_ffff,
    ;
    utxo_num as u64 * utxo_size as u64 + utxo_num as u64 * FEE_AMT
}

/// How a wallet operation treats a failure.
#[derive(Clone, Copy, Debug, PartialEq, Eq, Structural)]
pub enum TestMode {
    /// Resource exhaustion is corrected and the operation retried; new
    /// allocation UTXOs come `utxos` at a time, of `utxo_size` satoshis.
    HandleUtxoErrors { utxos: u8, utxo_size: u32 },
    /// Every failure is fatal.
    NoErrorHandling,
}

/// A failure of a wallet operation, as far as provisioning tells them apart.
#[derive(Clone, Copy, Debug, PartialEq, Eq, Structural)]
pub enum RetryableError {
    /// The wallet lacks `needed` satoshis.
    InsufficientFunds { needed: u64 },
    /// The wallet has no free allocation slot.
    InsufficientAllocationSlots,
    /// Anything else.
    Other,
}

/// Why a wallet operation is given up.
#[derive(Clone, Copy, Debug, PartialEq, Eq, Structural)]
pub enum ProvisionFailure {
    /// The operation failed under [`TestMode::NoErrorHandling`].
    Unhandled { error: RetryableError },
    /// The failure is not one of resource exhaustion.
    Unexpected,
    /// The bound on attempts was reached.
    TooManyAttempts { attempts: u32 },
}

/// What the caller does after an attempt.
#[derive(Clone, Copy, Debug, PartialEq, Eq, Structural)]
pub enum Decision {
    /// The operation succeeded.
    Done,
    /// Send `sats` satoshis to the wallet, mine one block, let it settle,
    /// re-sync the wallet's unspents, then attempt again.
    Fund { sats: u64 },
    /// Create allocation UTXOs, then attempt again.
    CreateUtxos { count: u8, size: u32, up_to: bool },
    /// Abort the run.
    Fatal { failure: ProvisionFailure },
}

/// The funding requested for a shortfall of `needed` satoshis: five times
/// the shortfall, which absorbs fee variance; capped at `u64::MAX`.
pub open spec fn funding_for(needed: nat) -> nat {
    if needed * FUNDING_HEADROOM <= u64::MAX {
        needed * (FUNDING_HEADROOM as nat)
    } else {
        u64::MAX as nat
    }
}

/// The retry loop of one wallet operation.
#[derive(Clone, Copy, Debug)]
pub struct Provisioner {
    pub mode: TestMode,
    /// Whether new allocation UTXOs top the wallet up to the count rather
    /// than add that many.
    pub up_to: bool,
    /// The bound on failed attempts; `None` retries without bound.
    pub max_attempts: Option<u32>,
    /// Failed attempts so far.
    pub attempts: u32,
    /// Satoshis requested so far, capped at `u64::MAX`.
    pub funded: u64,
}

/// The decision after an attempt with result `result`, taken by a
/// provisioner in state `p`.
pub open spec fn decide(p: Provisioner, result: Result<(), RetryableError>) -> Decision {
    match result {
        Ok(()) => Decision::Done,
        Err(e) => match p.mode {
            TestMode::NoErrorHandling => Decision::Fatal {
                failure: ProvisionFailure::Unhandled { error: e },
            },
            TestMode::HandleUtxoErrors { utxos, utxo_size } => {
                if p.max_attempts matches Some(m) && p.attempts + 1 >= m {
                    Decision::Fatal {
                        failure: ProvisionFailure::TooManyAttempts { attempts: (p.attempts + 1) as u32 },
                    }
                } else {
                    match e {
                        RetryableError::InsufficientFunds { needed } => Decision::Fund {
                            sats: funding_for(needed as nat) as u64,
                        },
                        RetryableError::InsufficientAllocationSlots => Decision::CreateUtxos {
                            count: utxos,
                            size: utxo_size,
                            up_to: p.up_to,
                        },
                        RetryableError::Other => Decision::Fatal {
                            failure: ProvisionFailure::Unexpected,
                        },
                    }
                }
            },
        },
    }
}

impl Provisioner {
    /// A retry loop that has made no attempt yet.
    pub fn new(mode: TestMode, up_to: bool, max_attempts: Option<u32>) -> (r: Provisioner)
        ensures
            r == (Provisioner { mode, up_to, max_attempts, attempts: 0, funded: 0 }),
    {
        Provisioner { mode, up_to, max_attempts, attempts: 0, funded: 0 }
    }

    /// Takes the result of one attempt and says what to do next. A failed
    /// attempt counts towards the bound; a funding request adds to `funded`.
    pub fn on_attempt(&mut self, result: Result<(), RetryableError>) -> (r: Decision)
        requires
            old(self).attempts < u32::MAX,
        ensures
            r == decide(*old(self), result),
            final(self).mode == old(self).mode,
            final(self).up_to == old(self).up_to,
            final(self).max_attempts == old(self).max_attempts,
            final(self).attempts == if result is Ok {
                old(self).attempts
            } else {
                (old(self).attempts + 1) as u32
            },
            final(self).funded == if r is Fund {
                if old(self).funded + r->sats <= u64::MAX {
                    (old(self).funded + r->sats) as u64
                } else {
                    u64::MAX
                }
            } else {
                old(self).funded
            },
    {
        let e = match result {
            Ok(()) => {
                return Decision::Done;
            },
            Err(e) => e,
        };
        let attempts = self.attempts;
        self.attempts = self.attempts + 1;
        match self.mode {
            TestMode::NoErrorHandling => Decision::Fatal {
                failure: ProvisionFailure::Unhandled { error: e },
            },
            TestMode::HandleUtxoErrors { utxos, utxo_size } => {
                if let Some(m) = self.max_attempts {
                    if attempts + 1 >= m {
                        return Decision::Fatal {
                            failure: ProvisionFailure::TooManyAttempts { attempts: attempts + 1 },
                        };
                    }
                }
                match e {
                    RetryableError::InsufficientFunds { needed } => {
                        let sats = needed.checked_mul(FUNDING_HEADROOM).unwrap_or(u64::MAX);
                        self.funded = self.funded.checked_add(sats).unwrap_or(u64::MAX);
                        Decision::Fund { sats }
                    },
                    RetryableError::InsufficientAllocationSlots => Decision::CreateUtxos {
                        count: utxos,
                        size: utxo_size,
                        up_to: self.up_to,
                    },
                    RetryableError::Other => Decision::Fatal { failure: ProvisionFailure::Unexpected },
                }
            },
        }
    }
}

/// A funding shortfall is answered by a request for at least the shortfall,
/// and for five times it where that fits in a `u64`, so that the attempt
/// after the funding does not lack the same amount again; every such request
/// adds at least the shortfall to what was requested so far, unless that
/// total is already at `u64::MAX`.
pub proof fn lemma_funding_covers_shortfall(p: Provisioner, needed: u64)
    requires
        p.mode is HandleUtxoErrors,
        !(p.max_attempts matches Some(m) && p.attempts + 1 >= m),
    ensures
        decide(p, Err(RetryableError::InsufficientFunds { needed })) == (Decision::Fund {
            sats: funding_for(needed as nat) as u64,
        }),
        funding_for(needed as nat) >= needed,
        needed * FUNDING_HEADROOM <= u64::MAX ==> funding_for(needed as nat) == needed * 5,
        p.funded + funding_for(needed as nat) <= u64::MAX ==> p.funded + funding_for(needed as nat)
            >= p.funded + needed,
{
}

/// One asset allocation on an unspent output.
#[derive(Clone, Debug)]
pub struct AllocationInfo {
    pub amount: u64,
    pub asset_id: Option<String>,
}

/// One unspent output of a wallet and the allocations on it.
#[derive(Clone, Debug)]
pub struct UnspentInfo {
    pub outpoint: String,
    pub btc_amount: u64,
    /// Whether the output can carry allocations.
    pub colorable: bool,
    pub allocations: Vec<AllocationInfo>,
}

/// `s` right-aligned in four columns.
pub open spec fn padded4(s: Seq<char>) -> Seq<char> {
    if s.len() >= 4 {
        s
    } else {
        Seq::new((4 - s.len()) as nat, |i: int| ' ') + s
    }
}

/// The line of one allocation.
pub open spec fn allocation_line(a: AllocationInfo) -> Seq<char> {
    "    amount: "@ + padded4(decimal(a.amount as nat)) + ", asset ID: "@ + match a.asset_id {
        Some(id) => id@,
        None => seq![],
    }
}

/// The line of one unspent output.
pub open spec fn unspent_line(u: UnspentInfo) -> Seq<char> {
    "- outpoint: "@ + u.outpoint@ + ", amount: "@ + decimal(u.btc_amount as nat) + " sats"@
}

/// The lines of one unspent output and its allocations.
pub open spec fn unspent_block(u: UnspentInfo) -> Seq<Seq<char>> {
    seq![unspent_line(u)] + u.allocations@.map_values(|a: AllocationInfo| allocation_line(a))
}

/// The listing of the colorable ones among `unspents`, each followed by its
/// allocations.
pub open spec fn unspent_listing(unspents: Seq<UnspentInfo>) -> Seq<Seq<char>>
    decreases unspents.len(),
{
    if unspents.len() == 0 {
        seq![]
    } else {
        unspent_listing(unspents.drop_last()) + if unspents.last().colorable {
            unspent_block(unspents.last())
        } else {
            seq![]
        }
    }
}

fn pad4(s: String) -> (r: String)
    ensures
        r@ == padded4(s@),
{
    let n = chars_of(s.as_str()).len();
    if n >= 4 {
        return s;
    }
    let mut out = String::new();
    let mut k: usize = 0;
    while k < 4 - n
        invariant
            n < 4,
            k <= 4 - n,
            out@ == Seq::new(k as nat, |i: int| ' '),
        decreases 4 - n - k,
    {
        proof {
            reveal_strlit(" ");
        }
        out.append(" ");
        assert(out@ =~= Seq::new((k + 1) as nat, |i: int| ' '));
        k = k + 1;
    }
    out.append(s.as_str());
    out
}

fn allocation_text(a: &AllocationInfo) -> (r: String)
    ensures
        r@ == allocation_line(*a),
{
    let mut line = String::from_str("    amount: ");
    let amount = pad4(decimal_string(a.amount));
    line.append(amount.as_str());
    line.append(", asset ID: ");
    match &a.asset_id {
        Some(id) => line.append(id.as_str()),
        None => {},
    }
    assert(line@ =~= allocation_line(*a));
    line
}

fn unspent_text(u: &UnspentInfo) -> (r: String)
    ensures
        r@ == unspent_line(*u),
{
    let mut line = String::from_str("- outpoint: ");
    line.append(u.outpoint.as_str());
    line.append(", amount: ");
    let sats = decimal_string(u.btc_amount);
    line.append(sats.as_str());
    line.append(" sats");
    line
}

/// The listing of a wallet's colorable unspent outputs, each followed by the
/// allocations on it.
pub fn unspent_lines(unspents: &Vec<UnspentInfo>) -> (r: Vec<String>)
    ensures
        r@.map_values(|l: String| l@) == unspent_listing(unspents@),
{
    let mut out: Vec<String> = Vec::new();
    let mut i: usize = 0;
    while i < unspents.len()
        invariant
            i <= unspents.len(),
            out@.map_values(|l: String| l@) == unspent_listing(unspents@.take(i as int)),
        decreases unspents.len() - i,
    {
        let u = &unspents[i];
        let ghost before = out@.map_values(|l: String| l@);
        proof {
            assert(unspents@.take(i + 1).drop_last() == unspents@.take(i as int));
            assert(unspents@.take(i + 1).last() == *u);
        }
        if u.colorable {
            out.push(unspent_text(u));
            let mut j: usize = 0;
            while j < u.allocations.len()
                invariant
                    j <= u.allocations.len(),
                    out@.map_values(|l: String| l@) == before + seq![unspent_line(*u)]
                        + u.allocations@.take(j as int).map_values(
                        |a: AllocationInfo| allocation_line(a),
                    ),
                decreases u.allocations.len() - j,
            {
                let ghost prev = out@.map_values(|l: String| l@);
                out.push(allocation_text(&u.allocations[j]));
                proof {
                    assert(u.allocations@.take(j + 1) == u.allocations@.take(j as int).push(
                        u.allocations@[j as int],
                    ));
                    assert(out@.map_values(|l: String| l@) =~= prev.push(
                        allocation_line(u.allocations@[j as int]),
                    ));
                    assert(u.allocations@.take(j + 1).map_values(
                        |a: AllocationInfo| allocation_line(a),
                    ) =~= u.allocations@.take(j as int).map_values(
                        |a: AllocationInfo| allocation_line(a),
                    ).push(allocation_line(u.allocations@[j as int])));
                }
                j = j + 1;
            }
            proof {
                assert(u.allocations@.take(u.allocations.len() as int) == u.allocations@);
            }
        }
        assert(out@.map_values(|l: String| l@) =~= unspent_listing(unspents@.take(i + 1)));
        i = i + 1;
    }
    assert(unspents@.take(unspents.len() as int) == unspents@);
    out
}

} // verus!
