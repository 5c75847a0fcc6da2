use rgb_stress_test::wallet::{unspent_lines, AllocationInfo, UnspentInfo};
use rgb_stress_test::wallet::{
    btc_amount, ticker, wallet_funding, Decision, ProvisionFailure, Provisioner, RetryableError,
    TestMode, WalletActor,
};

fn handling() -> TestMode {
    TestMode::HandleUtxoErrors { utxos: 3, utxo_size: 1294 }
}

#[test]
fn funding_covers_the_shortfall() {
    let mut p = Provisioner::new(handling(), false, None);
    let d = p.on_attempt(Err(RetryableError::InsufficientFunds { needed: 1000 }));
    assert_eq!(d, Decision::Fund { sats: 5000 });
    assert_eq!(p.funded, 5000);
    let d = p.on_attempt(Err(RetryableError::InsufficientFunds { needed: 1000 }));
    assert_eq!(d, Decision::Fund { sats: 5000 });
    assert_eq!(p.funded, 10000);
    assert_eq!(p.attempts, 2);
    assert_eq!(p.on_attempt(Ok(())), Decision::Done);
    assert_eq!(p.attempts, 2);
}

#[test]
fn funding_saturates() {
    let mut p = Provisioner::new(handling(), true, None);
    let d = p.on_attempt(Err(RetryableError::InsufficientFunds { needed: u64::MAX / 2 }));
    assert_eq!(d, Decision::Fund { sats: u64::MAX });
    assert_eq!(p.funded, u64::MAX);
}

#[test]
fn slots_create_utxos_with_callers_intent() {
    let mut p = Provisioner::new(handling(), true, Some(10));
    assert_eq!(
        p.on_attempt(Err(RetryableError::InsufficientAllocationSlots)),
        Decision::CreateUtxos { count: 3, size: 1294, up_to: true }
    );
    let mut q = Provisioner::new(handling(), false, Some(10));
    assert_eq!(
        q.on_attempt(Err(RetryableError::InsufficientAllocationSlots)),
        Decision::CreateUtxos { count: 3, size: 1294, up_to: false }
    );
}

#[test]
fn other_errors_are_fatal() {
    let mut p = Provisioner::new(handling(), true, None);
    assert_eq!(
        p.on_attempt(Err(RetryableError::Other)),
        Decision::Fatal { failure: ProvisionFailure::Unexpected }
    );
    let mut q = Provisioner::new(TestMode::NoErrorHandling, true, None);
    let e = RetryableError::InsufficientAllocationSlots;
    assert_eq!(q.on_attempt(Err(e)), Decision::Fatal { failure: ProvisionFailure::Unhandled { error: e } });
    assert_eq!(q.on_attempt(Ok(())), Decision::Done);
}

#[test]
fn attempts_are_bounded() {
    let mut p = Provisioner::new(handling(), true, Some(2));
    assert!(matches!(
        p.on_attempt(Err(RetryableError::InsufficientAllocationSlots)),
        Decision::CreateUtxos { .. }
    ));
    assert_eq!(
        p.on_attempt(Err(RetryableError::InsufficientAllocationSlots)),
        Decision::Fatal { failure: ProvisionFailure::TooManyAttempts { attempts: 2 } }
    );
}

#[test]
fn tickers_are_fixed_width_and_distinct() {
    assert_eq!(ticker(1, 11), "T001011");
    assert_eq!(ticker(11, 1), "T011001");
    assert_eq!(ticker(255, 255), "T255255");
    assert_eq!(ticker(0, 1), "T000001");
}

#[test]
fn asset_counter_only_increases() {
    let mut w = WalletActor::new("fp".to_string(), 7);
    assert_eq!(w.next_ticker(), Some("T007001".to_string()));
    assert_eq!(w.next_ticker(), Some("T007002".to_string()));
    assert_eq!(w.asset_counter, 2);
    w.asset_counter = 255;
    assert_eq!(w.next_ticker(), None);
    assert_eq!(w.asset_counter, 255);
}

#[test]
fn btc_amounts() {
    assert_eq!(btc_amount(1494), "0.00001494");
    assert_eq!(btc_amount(150_000_000), "1.50000000");
    assert_eq!(btc_amount(0), "0.00000000");
}

#[test]
fn setup_funding_amount() {
    assert_eq!(wallet_funding(5, 1294), 5 * 1294 + 5 * 200);
    assert_eq!(wallet_funding(255, u32::MAX), 255 * u32::MAX as u64 + 255 * 200);
}

#[test]
fn unspent_listing_keeps_colorable_outputs() {
    let unspents = vec![
        UnspentInfo {
            outpoint: "aa:0".to_string(),
            btc_amount: 1000,
            colorable: true,
            allocations: vec![
                AllocationInfo { amount: 7, asset_id: Some("rgb:x".to_string()) },
                AllocationInfo { amount: 12345, asset_id: None },
            ],
        },
        UnspentInfo { outpoint: "bb:1".to_string(), btc_amount: 5, colorable: false, allocations: vec![] },
        UnspentInfo { outpoint: "cc:2".to_string(), btc_amount: 0, colorable: true, allocations: vec![] },
    ];
    assert_eq!(
        unspent_lines(&unspents),
        vec![
            "- outpoint: aa:0, amount: 1000 sats".to_string(),
            "    amount:    7, asset ID: rgb:x".to_string(),
            "    amount: 12345, asset ID: ".to_string(),
            "- outpoint: cc:2, amount: 0 sats".to_string(),
        ]
    );
}
