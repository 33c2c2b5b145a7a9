use payment_router::{
    Key, Pool, SplitterError, Transfer, initialize, split_payment, update_default_bps,
    update_treasury,
};

fn key(b: u8) -> Key {
    Key::new([b; 32])
}

#[test]
fn split_twenty_percent() {
    let payer = key(2);
    let treasury = key(3);
    let referrer = key(4);
    let mut config = initialize(key(1), treasury, 2000).unwrap();
    let (split, transfers) = split_payment(&mut config, payer, referrer, 1_000_001, 2000).unwrap();
    assert_eq!(split.referrer_amount, 200_000);
    assert_eq!(split.treasury_amount, 800_001);
    assert_eq!(
        transfers,
        vec![
            Transfer { from: Pool::Wallet(payer), to: Pool::Wallet(treasury), amount: 800_001 },
            Transfer { from: Pool::Wallet(payer), to: Pool::Wallet(referrer), amount: 200_000 },
        ]
    );
    assert_eq!(config.total_split, 1_000_001);
}

#[test]
fn split_limits() {
    assert_eq!(initialize(key(1), key(3), 5001).unwrap_err(), SplitterError::InvalidBps);
    let mut config = initialize(key(1), key(3), 5000).unwrap();
    assert_eq!(split_payment(&mut config, key(2), key(4), 10, 5001).unwrap_err(), SplitterError::InvalidBps);
    assert_eq!(split_payment(&mut config, key(2), key(4), 0, 100).unwrap_err(), SplitterError::ZeroAmount);
    assert_eq!(config.total_split, 0);
    let (split, transfers) = split_payment(&mut config, key(2), key(4), 1, 5000).unwrap();
    assert_eq!(split.referrer_amount, 0);
    assert_eq!(transfers.len(), 1);
}

#[test]
fn split_total_saturates() {
    let mut config = initialize(key(1), key(3), 0).unwrap();
    config.total_split = u64::MAX - 1;
    split_payment(&mut config, key(2), key(4), 5, 0).unwrap();
    assert_eq!(config.total_split, u64::MAX);
}

#[test]
fn splitter_updates_admin_only() {
    let admin = key(1);
    let mut config = initialize(admin, key(3), 100).unwrap();
    assert_eq!(update_treasury(&mut config, key(2), key(9)).unwrap_err(), SplitterError::Unauthorized);
    update_treasury(&mut config, admin, key(9)).unwrap();
    assert_eq!(config.treasury, key(9));
    assert_eq!(update_default_bps(&mut config, admin, 6000).unwrap_err(), SplitterError::InvalidBps);
    assert_eq!(update_default_bps(&mut config, key(2), 300).unwrap_err(), SplitterError::Unauthorized);
    update_default_bps(&mut config, admin, 300).unwrap();
    assert_eq!(config.default_referrer_bps, 300);
}
