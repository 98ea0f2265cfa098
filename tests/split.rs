use skill_issue_escrow::{percent, refund_split, release_split, Payee, Pubkey, Transfer};

fn sum(ts: &[Transfer]) -> u128 {
    ts.iter().map(|t| t.amount as u128).sum()
}

#[test]
fn release_split_of_1000() {
    let ts = release_split(1000);
    assert_eq!(
        ts,
        vec![
            Transfer { to: Payee::Worker, amount: 950 },
            Transfer { to: Payee::Treasury, amount: 40 },
            Transfer { to: Payee::JurorPool, amount: 10 },
        ]
    );
}

#[test]
fn release_split_remainder_goes_to_jurors() {
    let ts = release_split(999);
    let amounts: Vec<u64> = ts.iter().map(|t| t.amount).collect();
    assert_eq!(amounts, vec![949, 39, 11]);
    assert_eq!(sum(&ts), 999);
    let ts = release_split(1);
    let amounts: Vec<u64> = ts.iter().map(|t| t.amount).collect();
    assert_eq!(amounts, vec![0, 0, 1]);
}

#[test]
fn release_split_of_zero() {
    let amounts: Vec<u64> = release_split(0).iter().map(|t| t.amount).collect();
    assert_eq!(amounts, vec![0, 0, 0]);
}

#[test]
fn disputed_refund_split_remainder_goes_to_treasury() {
    let ts = refund_split(999, true);
    assert_eq!(
        ts,
        vec![
            Transfer { to: Payee::Poster, amount: 899 },
            Transfer { to: Payee::JurorPool, amount: 49 },
            Transfer { to: Payee::Treasury, amount: 51 },
        ]
    );
    assert_eq!(sum(&ts), 999);
}

#[test]
fn undisputed_refund_is_whole_amount() {
    assert_eq!(refund_split(12345, false), vec![Transfer { to: Payee::Poster, amount: 12345 }]);
}

#[test]
fn splits_of_largest_amount_do_not_overflow() {
    let m = u64::MAX;
    let ts = release_split(m);
    assert_eq!(ts[0].amount as u128, (m as u128) * 95 / 100);
    assert_eq!(ts[1].amount as u128, (m as u128) * 4 / 100);
    assert_eq!(sum(&ts), m as u128);
    let ts = refund_split(m, true);
    assert_eq!(ts[0].amount as u128, (m as u128) * 90 / 100);
    assert_eq!(ts[1].amount as u128, (m as u128) * 5 / 100);
    assert_eq!(sum(&ts), m as u128);
}

#[test]
fn splits_always_sum_to_amount() {
    for amount in [0u64, 1, 2, 19, 20, 99, 100, 101, 333, 1_000_001, u64::MAX - 1] {
        assert_eq!(sum(&release_split(amount)), amount as u128);
        assert_eq!(sum(&refund_split(amount, true)), amount as u128);
        assert_eq!(sum(&refund_split(amount, false)), amount as u128);
    }
}

#[test]
fn percent_rounds_down() {
    assert_eq!(percent(1000, 95), 950);
    assert_eq!(percent(99, 4), 3);
    assert_eq!(percent(7, 100), 7);
    assert_eq!(percent(u64::MAX, 0), 0);
}

#[test]
fn pubkeys_compare_by_all_bytes() {
    let a = Pubkey::new_from_array([3; 32]);
    let mut bytes = [3u8; 32];
    bytes[31] = 4;
    let b = Pubkey::new_from_array(bytes);
    assert!(a != b);
    assert!(a == Pubkey::new_from_array([3; 32]));
    assert_eq!(b.to_bytes(), bytes);
}
