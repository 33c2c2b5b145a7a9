use payment_router::{
    BuilderBalance, ErrorCode, EscrowAccount, FeeSplit, FeeVaultState, Key, MarketConfig, Pool,
    Transfer, claim_builder_balance, claim_protocol_fees, close_settlement, distribute_fee,
    register_builder, resolve_builder, update_builder_wallet,
};
use payment_router::fee::{fee_amount, gross_amount};

fn key(b: u8) -> Key {
    Key::new([b; 32])
}

const CODE: [u8; 32] = [7u8; 32];

fn builder(wallet: Key) -> BuilderBalance {
    BuilderBalance { builder_code: CODE, wallet, balance: 0, total_earned: 0 }
}

#[test]
fn fee_rounds_down() {
    assert_eq!(fee_amount(500_000, 1500), 75_000);
    assert_eq!(fee_amount(9_999, 1), 0);
    assert_eq!(fee_amount(10_001, 1), 1);
    assert_eq!(fee_amount(u64::MAX, 10000), u64::MAX);
    assert_eq!(fee_amount(u64::MAX, 0), 0);
}

#[test]
fn gross_checks_overflow() {
    assert_eq!(gross_amount(100, 5000), Some(500_000));
    assert_eq!(gross_amount(u64::MAX, 1), Some(u64::MAX));
    assert_eq!(gross_amount(1u64 << 32, 1u64 << 32), None);
}

#[test]
fn split_without_builder() {
    assert_eq!(distribute_fee(75_000, false), FeeSplit { protocol_share: 75_000, builder_share: 0 });
    assert_eq!(distribute_fee(0, false), FeeSplit { protocol_share: 0, builder_share: 0 });
}

#[test]
fn split_with_builder_keeps_remainder_for_protocol() {
    assert_eq!(distribute_fee(75_000, true), FeeSplit { protocol_share: 60_000, builder_share: 15_000 });
    let s = distribute_fee(7, true);
    assert_eq!(s, FeeSplit { protocol_share: 6, builder_share: 1 });
    assert_eq!(s.protocol_share + s.builder_share, 7);
    let s = distribute_fee(u64::MAX, true);
    assert_eq!(s.protocol_share + s.builder_share, u64::MAX);
}

#[test]
fn resolution_needs_matching_code() {
    let b = Some(builder(key(4)));
    assert!(resolve_builder(&Some(CODE), &b));
    assert!(!resolve_builder(&Some([8u8; 32]), &b));
    assert!(!resolve_builder(&None, &b));
    assert!(!resolve_builder(&Some(CODE), &None));
}

#[test]
fn unresolved_code_gives_protocol_everything() {
    let admin = key(1);
    let agent = key(2);
    let config = MarketConfig { authority: admin, fee_basis_points: 1500 };
    let mut escrow = EscrowAccount { agent, balance: 1_000_000 };
    let mut vault = FeeVaultState { authority: admin, protocol_balance: 0, total_collected: 0 };
    let mut b = Some(builder(key(4)));
    let s = close_settlement(
        &config, admin, &mut escrow, &mut vault, &mut b, key(3), 100, 5000, 0, Some([8u8; 32]),
    )
    .unwrap();
    assert_eq!(s.record.builder_share, 0);
    assert_eq!(s.record.protocol_share, 75_000);
    assert_eq!(vault.protocol_balance, 75_000);
    assert_eq!(b.unwrap().balance, 0);
}

#[test]
fn settlement_by_other_rejected() {
    let admin = key(1);
    let agent = key(2);
    let config = MarketConfig { authority: admin, fee_basis_points: 1500 };
    let mut escrow = EscrowAccount { agent, balance: 1_000 };
    let mut vault = FeeVaultState { authority: admin, protocol_balance: 0, total_collected: 0 };
    let mut b: Option<BuilderBalance> = None;
    let r = close_settlement(&config, agent, &mut escrow, &mut vault, &mut b, key(3), 1, 1, 0, None);
    assert_eq!(r.unwrap_err(), ErrorCode::Unauthorized);
    assert_eq!(escrow.balance, 1_000);
}

#[test]
fn settlement_product_overflow_rejected() {
    let admin = key(1);
    let config = MarketConfig { authority: admin, fee_basis_points: 1500 };
    let mut escrow = EscrowAccount { agent: key(2), balance: u64::MAX };
    let mut vault = FeeVaultState { authority: admin, protocol_balance: 0, total_collected: 0 };
    let mut b: Option<BuilderBalance> = None;
    let r = close_settlement(&config, admin, &mut escrow, &mut vault, &mut b, key(3), u64::MAX, 2, 0, None);
    assert_eq!(r.unwrap_err(), ErrorCode::MathOverflow);
    assert_eq!(escrow.balance, u64::MAX);
}

#[test]
fn settlement_vault_counter_overflow_rejected() {
    let admin = key(1);
    let config = MarketConfig { authority: admin, fee_basis_points: 10000 };
    let mut escrow = EscrowAccount { agent: key(2), balance: 100 };
    let mut vault = FeeVaultState { authority: admin, protocol_balance: 0, total_collected: u64::MAX };
    let mut b: Option<BuilderBalance> = None;
    let r = close_settlement(&config, admin, &mut escrow, &mut vault, &mut b, key(3), 1, 1, 0, None);
    assert_eq!(r.unwrap_err(), ErrorCode::Overflow);
    assert_eq!(escrow.balance, 100);
    assert_eq!(vault.total_collected, u64::MAX);
}

#[test]
fn whole_fee_rate_sends_nothing_to_recipient() {
    let admin = key(1);
    let agent = key(2);
    let config = MarketConfig { authority: admin, fee_basis_points: 10000 };
    let mut escrow = EscrowAccount { agent, balance: 50 };
    let mut vault = FeeVaultState { authority: admin, protocol_balance: 0, total_collected: 0 };
    let mut b: Option<BuilderBalance> = None;
    let s = close_settlement(&config, admin, &mut escrow, &mut vault, &mut b, key(3), 5, 10, 0, None).unwrap();
    assert_eq!(s.record.net, 0);
    assert_eq!(s.transfers, vec![Transfer { from: Pool::EscrowVault(agent), to: Pool::FeeVault, amount: 50 }]);
    assert_eq!(escrow.balance, 0);
}

#[test]
fn zero_usage_moves_nothing() {
    let admin = key(1);
    let config = MarketConfig { authority: admin, fee_basis_points: 1500 };
    let mut escrow = EscrowAccount { agent: key(2), balance: 50 };
    let mut vault = FeeVaultState { authority: admin, protocol_balance: 0, total_collected: 0 };
    let mut b: Option<BuilderBalance> = None;
    let s = close_settlement(&config, admin, &mut escrow, &mut vault, &mut b, key(3), 0, 10, 0, None).unwrap();
    assert_eq!(s.record.gross, 0);
    assert!(s.transfers.is_empty());
    assert_eq!(escrow.balance, 50);
}

#[test]
fn builder_claim_twice_fails() {
    let wallet = key(4);
    let mut b = BuilderBalance { builder_code: CODE, wallet, balance: 30, total_earned: 90 };
    let t = claim_builder_balance(&mut b, wallet).unwrap();
    assert_eq!(t, Transfer { from: Pool::FeeVault, to: Pool::Wallet(wallet), amount: 30 });
    assert_eq!(b.balance, 0);
    assert_eq!(b.total_earned, 90);
    assert_eq!(claim_builder_balance(&mut b, wallet).unwrap_err(), ErrorCode::NothingToClaim);
    assert_eq!(b.total_earned, 90);
}

#[test]
fn builder_claim_by_other_rejected() {
    let mut b = BuilderBalance { builder_code: CODE, wallet: key(4), balance: 30, total_earned: 30 };
    assert_eq!(claim_builder_balance(&mut b, key(5)).unwrap_err(), ErrorCode::Unauthorized);
    assert_eq!(b.balance, 30);
}

#[test]
fn protocol_claim_twice_fails() {
    let admin = key(1);
    let mut vault = FeeVaultState { authority: admin, protocol_balance: 60_000, total_collected: 75_000 };
    assert_eq!(claim_protocol_fees(&mut vault, key(2)).unwrap_err(), ErrorCode::Unauthorized);
    let t = claim_protocol_fees(&mut vault, admin).unwrap();
    assert_eq!(t, Transfer { from: Pool::FeeVault, to: Pool::Wallet(admin), amount: 60_000 });
    assert_eq!(vault.protocol_balance, 0);
    assert_eq!(vault.total_collected, 75_000);
    assert_eq!(claim_protocol_fees(&mut vault, admin).unwrap_err(), ErrorCode::NothingToClaim);
}

#[test]
fn wallet_rotation_needs_old_wallet() {
    let old = key(4);
    let mut b = builder(old);
    assert_eq!(update_builder_wallet(&mut b, key(5), key(5)).unwrap_err(), ErrorCode::Unauthorized);
    assert_eq!(b.wallet, old);
    update_builder_wallet(&mut b, old, key(6)).unwrap();
    assert_eq!(b.wallet, key(6));
    assert_eq!(update_builder_wallet(&mut b, old, old).unwrap_err(), ErrorCode::Unauthorized);
    assert_eq!(b.wallet, key(6));
}

#[test]
fn registration_admin_only_and_once() {
    let admin = key(1);
    let config = MarketConfig { authority: admin, fee_basis_points: 1500 };
    let mut slot: Option<BuilderBalance> = None;
    assert_eq!(register_builder(&mut slot, &config, key(2), CODE, key(4)).unwrap_err(), ErrorCode::Unauthorized);
    assert!(slot.is_none());
    register_builder(&mut slot, &config, admin, CODE, key(4)).unwrap();
    let b = slot.unwrap();
    assert_eq!(b.wallet, key(4));
    assert_eq!(b.balance, 0);
    assert_eq!(b.total_earned, 0);
    assert_eq!(register_builder(&mut slot, &config, admin, CODE, key(9)).unwrap_err(), ErrorCode::AlreadyRegistered);
    assert_eq!(slot.unwrap().wallet, key(4));
}
