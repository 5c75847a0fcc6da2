use rgb_stress_test::selection::{
    choose_asset, choose_parties, random_transfer, receiver_from_draw,
    select_transfer, transfer_amount, TransferChoice,
};

#[test]
fn amount_is_positive_and_within_balance() {
    assert_eq!(transfer_amount(10, 1), 10);
    assert_eq!(transfer_amount(10, 3), 3);
    assert_eq!(transfer_amount(10, 10), 1);
    assert_eq!(transfer_amount(5, 10), 1);
    assert_eq!(transfer_amount(1, 7), 1);
    for balance in 1..200u64 {
        for p in 1..=10 {
            let a = transfer_amount(balance, p);
            assert!(1 <= a && a <= balance);
        }
    }
}

#[test]
fn receivers_skip_the_sender() {
    assert_eq!(receiver_from_draw(2, 0, 4), 0);
    assert_eq!(receiver_from_draw(2, 1, 4), 1);
    assert_eq!(receiver_from_draw(2, 2, 4), 3);
    assert_eq!(receiver_from_draw(0, 0, 2), 1);
}

#[test]
fn parties_follow_the_order() {
    let holdings = vec![vec![0], vec![5, 0], vec![], vec![3]];
    assert_eq!(choose_parties(&holdings, &vec![0, 2, 1, 3]), Some((1, 3)));
    assert_eq!(choose_parties(&holdings, &vec![3, 0, 2, 1]), Some((3, 1)));
    assert_eq!(choose_parties(&holdings, &vec![0, 2, 3, 1]), Some((3, 1)));
    assert_eq!(choose_parties(&vec![vec![0], vec![]], &vec![1, 0]), None);
    assert_eq!(choose_parties(&vec![vec![4]], &vec![0]), None);
}

#[test]
fn asset_is_a_spendable_one() {
    let balances = vec![0, 7, 0, 2, 9];
    assert_eq!(choose_asset(&balances, 0), Some(1));
    assert_eq!(choose_asset(&balances, 1), Some(3));
    assert_eq!(choose_asset(&balances, 2), Some(4));
    assert_eq!(choose_asset(&balances, 5), Some(4));
    assert_eq!(choose_asset(&vec![0, 0], 3), None);
}

#[test]
fn selected_transfer_exact() {
    let holdings = vec![vec![0], vec![40, 0, 9], vec![]];
    assert_eq!(
        select_transfer(&holdings, &vec![0, 1, 2], 1, 4),
        Some(TransferChoice { sender: 1, receiver: 2, asset: 2, amount: 2 })
    );
    assert_eq!(
        select_transfer(&holdings, &vec![2, 0, 1], 0, 4),
        Some(TransferChoice { sender: 1, receiver: 0, asset: 0, amount: 10 })
    );
    assert_eq!(select_transfer(&vec![vec![0], vec![0]], &vec![0, 1], 0, 1), None);
}

#[test]
fn random_transfer_respects_balances() {
    let holdings = vec![vec![0, 0], vec![3], vec![0, 100], vec![]];
    for _ in 0..200 {
        let c = random_transfer(&holdings).unwrap();
        assert!(c.sender == 1 || c.sender == 2);
        assert_ne!(c.sender, c.receiver);
        assert!(c.receiver < 4);
        let balance = holdings[c.sender][c.asset];
        assert!(balance > 0);
        assert!(1 <= c.amount && c.amount <= balance);
    }
    assert_eq!(random_transfer(&vec![vec![0], vec![0, 0]]), None);
    assert_eq!(random_transfer(&vec![vec![5]]), None);
}
