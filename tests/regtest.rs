use rgb_stress_test::regtest::{_bitcoin_cli, fund_wallet_args, mine_block_args};
use rgb_stress_test::text::{chars_of, decimal_string};

#[test]
fn node_client_arguments() {
    assert_eq!(_bitcoin_cli(), vec!["exec", "-T", "-u", "blits", "bitcoind", "bitcoin-cli", "-regtest"]);
    assert_eq!(
        fund_wallet_args("bcrt1qaddr", 7470),
        vec![
            "compose", "exec", "-T", "-u", "blits", "bitcoind", "bitcoin-cli", "-regtest",
            "-rpcwallet=miner", "sendtoaddress", "bcrt1qaddr", "0.00007470",
        ]
    );
    assert_eq!(
        mine_block_args(),
        vec![
            "compose", "exec", "-T", "-u", "blits", "bitcoind", "bitcoin-cli", "-regtest",
            "-rpcwallet=miner", "-generate", "1",
        ]
    );
}

#[test]
fn decimals_and_chars() {
    assert_eq!(decimal_string(0), "0");
    assert_eq!(decimal_string(1_234_567_890), "1234567890");
    assert_eq!(decimal_string(u64::MAX), u64::MAX.to_string());
    assert_eq!(chars_of("héllo"), vec!['h', 'é', 'l', 'l', 'o']);
}
