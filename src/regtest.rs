//! Command lines for the regtest services and the bitcoin node that the
//! caller runs.

use vstd::prelude::*;

use crate::wallet::{btc_amount, btc_text};

verus! {

/// The views of a list of strings.
pub open spec fn views(items: Seq<String>) -> Seq<Seq<char>> {
    items.map_values(|s: String| s@)
}

/// The arguments, after `docker compose`, that run the node's command-line
/// client against the regtest chain.
pub open spec fn bitcoin_cli_args() -> Seq<Seq<char>> {
    seq!["exec"@, "-T"@, "-u"@, "blits"@, "bitcoind"@, "bitcoin-cli"@, "-regtest"@]
}

/// The arguments, after `docker compose`, that run the node's command-line
/// client against the regtest chain.
pub fn _bitcoin_cli() -> (r: Vec<String>)
    ensures
        views(r@) == bitcoin_cli_args(),
{
    let r = vec![
        String::from_str("exec"),
        String::from_str("-T"),
        String::from_str("-u"),
        String::from_str("blits"),
        String::from_str("bitcoind"),
        String::from_str("bitcoin-cli"),
        String::from_str("-regtest"),
    ];
    assert(views(r@) =~= bitcoin_cli_args());
    r
}

/// `compose` followed by the client's arguments.
fn compose_cli() -> (r: Vec<String>)
    ensures
        views(r@) == seq!["compose"@] + bitcoin_cli_args(),
{
    let r = vec![
        String::from_str("compose"),
        String::from_str("exec"),
        String::from_str("-T"),
        String::from_str("-u"),
        String::from_str("blits"),
        String::from_str("bitcoind"),
        String::from_str("bitcoin-cli"),
        String::from_str("-regtest"),
    ];
    assert(views(r@) =~= seq!["compose"@] + bitcoin_cli_args());
    r
}

/// The `docker` arguments that send `sats` satoshis from the miner's wallet
/// to `address`.
pub open spec fn fund_args(address: Seq<char>, sats: nat) -> Seq<Seq<char>> {
    seq!["compose"@] + bitcoin_cli_args() + seq![
        "-rpcwallet=miner"@,
        "sendtoaddress"@,
        address,
        btc_text(sats),
    ]
}

/// The `docker` arguments that mine one block to the miner's wallet.
pub open spec fn mine_args() -> Seq<Seq<char>> {
    seq!["compose"@] + bitcoin_cli_args() + seq!["-rpcwallet=miner"@, "-generate"@, "1"@]
}

/// The `docker` arguments that send `sats` satoshis from the miner's wallet
/// to `address`.
pub fn fund_wallet_args(address: &str, sats: u64) -> (r: Vec<String>)
    ensures
        views(r@) == fund_args(address@, sats as nat),
{
    let mut r = compose_cli();
    r.push(String::from_str("-rpcwallet=miner"));
    r.push(String::from_str("sendtoaddress"));
    r.push(String::from_str(address));
    r.push(btc_amount(sats));
    assert(views(r@) =~= fund_args(address@, sats as nat));
    r
}

/// The `docker` arguments that mine one block to the miner's wallet.
pub fn mine_block_args() -> (r: Vec<String>)
    ensures
        views(r@) == mine_args(),
{
    let mut r = compose_cli();
    r.push(String::from_str("-rpcwallet=miner"));
    r.push(String::from_str("-generate"));
    r.push(String::from_str("1"));
    assert(views(r@) =~= mine_args());
    r
}

} // verus!
