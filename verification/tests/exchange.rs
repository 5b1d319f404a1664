use amm::codec::{decode_balance, decode_metadata, RemoteResult};
use amm::errors::{AmmError, AssetSide};
use amm::exchange::{Amm, DepositOutcome};

const META_A: &[u8] = br#"{"spec":"ft-1.0.0","name":"Token A","symbol":"ABC","icon":null,"reference":null,"reference_hash":null,"decimals":8}"#;
const META_B: &[u8] = br#"{"spec":"ft-1.0.0","name":"Token B","symbol":"DEF","icon":null,"reference":null,"reference_hash":null,"decimals":6}"#;

fn fresh_amm() -> Amm {
    Amm::new(
        "owner.near".to_string(),
        "token-a.near".to_string(),
        "token-b.near".to_string(),
    )
}

fn balance(raw: &str) -> RemoteResult {
    RemoteResult::Successful(format!("\"{}\"", raw).into_bytes())
}

#[test]
fn new_exchange_is_empty_and_unbootstrapped() {
    let amm = fresh_amm();
    assert_eq!(amm.get_pool_token_amount(true), 0);
    assert_eq!(amm.get_pool_token_amount(false), 0);
    assert_eq!(amm.metadata_tokens().err(), Some(AmmError::UninitializedMetadata));
}

#[test]
fn unauthorized_deposit_is_rejected_and_changes_nothing() {
    let mut amm = fresh_amm();
    amm.token_a_pool_amount = 10;
    amm.token_b_pool_amount = 20;
    let r = amm.ft_on_transfer(
        &"intruder.near".to_string(),
        &"user.near".to_string(),
        500,
    );
    assert_eq!(r.err(), Some(AmmError::UnauthorizedCaller));
    assert_eq!(amm.get_pool_token_amount(true), 10);
    assert_eq!(amm.get_pool_token_amount(false), 20);
}

#[test]
fn owner_deposit_short_circuits_without_settlement() {
    let amm = fresh_amm();
    let r = amm.ft_on_transfer(
        &"token-a.near".to_string(),
        &"owner.near".to_string(),
        500,
    );
    assert!(matches!(r, Ok(DepositOutcome::OwnerDeposit)));
}

#[test]
fn deposit_direction_follows_the_notifying_ledger() {
    let amm = fresh_amm();
    let r = amm.ft_on_transfer(&"token-b.near".to_string(), &"user.near".to_string(), 77);
    match r {
        Ok(DepositOutcome::Settle(ctx)) => {
            assert_eq!(ctx.counterparty, "user.near");
            assert_eq!(ctx.token_received, AssetSide::AssetB);
            assert_eq!(ctx.amount_received, 77);
        },
        other => panic!("expected a settlement context, got {:?}", other),
    }
    let r = amm.ft_on_transfer(&"token-a.near".to_string(), &"user.near".to_string(), 77);
    match r {
        Ok(DepositOutcome::Settle(ctx)) => assert_eq!(ctx.token_received, AssetSide::AssetA),
        other => panic!("expected a settlement context, got {:?}", other),
    }
}

#[test]
fn bootstrap_success_fills_both_records() {
    let mut amm = fresh_amm();
    let r = amm.initialization_metadata(
        &RemoteResult::Successful(META_A.to_vec()),
        &RemoteResult::Successful(META_B.to_vec()),
    );
    assert_eq!(r, Ok(()));
    let snapshot = amm.metadata_tokens().unwrap();
    assert_eq!(snapshot.metadata_token_a.symbol, "ABC");
    assert_eq!(snapshot.metadata_token_a.decimals, 8);
    assert_eq!(snapshot.metadata_token_b.symbol, "DEF");
    assert_eq!(snapshot.metadata_token_b.decimals, 6);
    assert_eq!(amm.get_ticker().unwrap(), "ABC-DEF");
    assert_eq!(amm.get_decimals(), Ok((8, 6)));
}

#[test]
fn bootstrap_failure_names_the_first_asset() {
    let mut amm = fresh_amm();
    let r = amm.initialization_metadata(
        &RemoteResult::Failed,
        &RemoteResult::Successful(META_B.to_vec()),
    );
    assert_eq!(r, Err(AmmError::RemoteDecodeFailure(AssetSide::AssetA)));
    assert_eq!(amm.metadata_tokens().err(), Some(AmmError::UninitializedMetadata));
}

#[test]
fn bootstrap_failure_leaves_the_exchange_unusable() {
    let mut amm = fresh_amm();
    let r = amm.initialization_metadata(
        &RemoteResult::Successful(META_A.to_vec()),
        &RemoteResult::Failed,
    );
    assert_eq!(r, Err(AmmError::RemoteDecodeFailure(AssetSide::AssetB)));
    assert_eq!(amm.metadata_tokens().err(), Some(AmmError::UninitializedMetadata));
    assert_eq!(amm.get_ticker().err(), Some(AmmError::UninitializedMetadata));
    assert_eq!(amm.get_decimals().err(), Some(AmmError::UninitializedMetadata));
}

#[test]
fn bootstrap_rejects_a_malformed_record() {
    let mut amm = fresh_amm();
    let r = amm.initialization_metadata(
        &RemoteResult::Successful(b"{}".to_vec()),
        &RemoteResult::Successful(META_B.to_vec()),
    );
    assert_eq!(r, Err(AmmError::RemoteDecodeFailure(AssetSide::AssetA)));
}

#[test]
fn settlement_prices_a_positive_deposit() {
    let amm = fresh_amm();
    // One token of asset a deposited; the query sees the deposit-inclusive
    // balance of a and the untouched balance of b.
    let r = amm.cb_transfer_token(
        &"user.near".to_string(),
        AssetSide::AssetA,
        1_0000_0000,
        &balance("1100000000"),
        &balance("4000000000000"),
    );
    let cmd = r.unwrap();
    assert_eq!(cmd.token, AssetSide::AssetB);
    assert_eq!(cmd.recipient, "user.near");
    assert_eq!(cmd.amount, 363_636_363_637);
    assert_eq!(cmd.attached_stipend, 1);
}

#[test]
fn settlement_prices_a_negative_deposit() {
    let amm = fresh_amm();
    let r = amm.cb_transfer_token(
        &"user.near".to_string(),
        AssetSide::AssetB,
        4000_0000_0000,
        &balance("1000000000"),
        &balance("4400000000000"),
    );
    let cmd = r.unwrap();
    assert_eq!(cmd.token, AssetSide::AssetA);
    assert_eq!(cmd.amount, 90_909_091);
}

#[test]
fn settlement_aborts_on_an_unusable_result() {
    let amm = fresh_amm();
    let r = amm.cb_transfer_token(
        &"user.near".to_string(),
        AssetSide::AssetA,
        5,
        &balance("1100000000"),
        &RemoteResult::Failed,
    );
    assert_eq!(r.err(), Some(AmmError::RemoteDecodeFailure(AssetSide::AssetB)));
    let r = amm.cb_transfer_token(
        &"user.near".to_string(),
        AssetSide::AssetA,
        5,
        &RemoteResult::Successful(b"not json".to_vec()),
        &balance("4000000000000"),
    );
    assert_eq!(r.err(), Some(AmmError::RemoteDecodeFailure(AssetSide::AssetA)));
}

#[test]
fn settlement_aborts_when_the_balance_contradicts_the_deposit() {
    let amm = fresh_amm();
    let r = amm.cb_transfer_token(
        &"user.near".to_string(),
        AssetSide::AssetA,
        1_0000_0000,
        &balance("99999999"),
        &balance("4000000000000"),
    );
    assert_eq!(r.err(), Some(AmmError::RemoteDecodeFailure(AssetSide::AssetA)));
}

#[test]
fn settlement_reports_reserve_product_overflow() {
    let amm = fresh_amm();
    let max = u128::MAX.to_string();
    let r = amm.cb_transfer_token(
        &"user.near".to_string(),
        AssetSide::AssetA,
        1,
        &balance(&max),
        &balance(&max),
    );
    assert_eq!(r.err(), Some(AmmError::ArithmeticOverflow));
}

#[test]
fn balance_decoding_reads_the_quoted_amount() {
    assert_eq!(decode_balance(&balance("123")), Some(123));
    assert_eq!(
        decode_balance(&balance("340282366920938463463374607431768211455")),
        Some(u128::MAX)
    );
    // A bare JSON number is not the ledger's quoted-string shape.
    assert_eq!(decode_balance(&RemoteResult::Successful(b"123".to_vec())), None);
    assert_eq!(decode_balance(&RemoteResult::Failed), None);
}

#[test]
fn metadata_decoding_keeps_symbol_and_decimals() {
    let m = decode_metadata(&RemoteResult::Successful(META_A.to_vec())).unwrap();
    assert_eq!(m.symbol, "ABC");
    assert_eq!(m.decimals, 8);
    assert!(decode_metadata(&RemoteResult::Successful(b"[]".to_vec())).is_none());
    assert!(decode_metadata(&RemoteResult::Failed).is_none());
}
