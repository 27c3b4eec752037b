use account_factory::errors::FactoryError;
use account_factory::funds::{partition_funds, Coin};

fn coin(denom: &str, amount: u128) -> Coin {
    Coin { denom: denom.to_string(), amount }
}

fn amount_of(coins: &[Coin], denom: &str) -> u128 {
    coins.iter().filter(|c| c.denom == denom).map(|c| c.amount).sum()
}

#[test]
fn partition_exact_cover_leaves_nothing() {
    let deposit = vec![coin("tokena", 10)];
    let install = vec![coin("tokena", 10)];
    let namespace = vec![];
    let residual = partition_funds(deposit, &install, &namespace).unwrap();
    assert!(residual.is_empty());
}

#[test]
fn partition_residual_is_deposit_minus_costs() {
    let deposit = vec![coin("tokena", 15), coin("tokenb", 5)];
    let install = vec![coin("tokena", 10)];
    let namespace = vec![coin("tokena", 2), coin("tokenb", 5)];
    let residual = partition_funds(deposit, &install, &namespace).unwrap();
    assert_eq!(amount_of(&residual, "tokena"), 3);
    assert_eq!(amount_of(&residual, "tokenb"), 0);
    assert_eq!(residual.len(), 1);
}

#[test]
fn partition_handles_duplicate_cost_denominations() {
    // The same denomination may appear in both cost lists; each unit counts.
    let deposit = vec![coin("tokena", 7)];
    let install = vec![coin("tokena", 3)];
    let namespace = vec![coin("tokena", 4)];
    let residual = partition_funds(deposit, &install, &namespace).unwrap();
    assert!(residual.is_empty());
}

#[test]
fn partition_shortfall_reports_expected_and_sent() {
    let deposit = vec![coin("tokena", 5)];
    let install = vec![coin("tokena", 10)];
    let namespace = vec![];
    match partition_funds(deposit, &install, &namespace) {
        Err(FactoryError::FeeMismatch { expected, sent }) => {
            assert_eq!(amount_of(&expected, "tokena"), 10);
            assert_eq!(amount_of(&sent, "tokena"), 5);
        },
        other => panic!("expected a fee mismatch, got {:?}", other),
    }
}

#[test]
fn partition_fails_on_missing_denomination() {
    let deposit = vec![coin("tokena", 100)];
    let install = vec![coin("tokenb", 1)];
    let namespace = vec![];
    match partition_funds(deposit, &install, &namespace) {
        Err(FactoryError::FeeMismatch { .. }) => {},
        other => panic!("expected a fee mismatch, got {:?}", other),
    }
}

#[test]
fn partition_of_empty_costs_returns_deposit() {
    let deposit = vec![coin("tokena", 4), coin("tokenb", 9)];
    let residual = partition_funds(deposit, &vec![], &vec![]).unwrap();
    assert_eq!(amount_of(&residual, "tokena"), 4);
    assert_eq!(amount_of(&residual, "tokenb"), 9);
}

#[test]
fn partition_zero_cost_of_absent_denomination_succeeds() {
    let deposit = vec![coin("tokena", 1)];
    let install = vec![coin("tokenb", 0)];
    let namespace = vec![];
    let residual = partition_funds(deposit, &install, &namespace).unwrap();
    assert_eq!(amount_of(&residual, "tokena"), 1);
}
