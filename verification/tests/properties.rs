//! Concrete checks of the engine's stated properties: the threshold
//! scenarios, the round trip, query idempotence, repay monotonicity, the
//! liquidation precondition, and one input for every error variant.

use cw_stablecoin::contract::{
    amount_sent, calculate_collateral_usd, calculate_health_factor, calculate_usd_in_collateral,
    execute, instantiate, query_config, query_info,
};
use cw_stablecoin::error::{ContractError, StdError};
use cw_stablecoin::msg::{Coin, Effect, ExecuteMsg, InstantiateMsg, MessageInfo};
use cw_stablecoin::state::Store;

const ONE_USD: u128 = 1_000_000;

fn info(sender: &str, funds: Vec<Coin>) -> MessageInfo {
    MessageInfo { sender: sender.to_string(), funds }
}

fn uom(amount: u128) -> Vec<Coin> {
    vec![Coin { denom: "uom".to_string(), amount }]
}

fn deploy() -> Store {
    let mut store = Store::new();
    instantiate(
        &mut store,
        InstantiateMsg {
            owner: "owner".to_string(),
            oracle: "oracle".to_string(),
            denom: "uom".to_string(),
            min_threashold: 1,
            liquidity_threashold: 129,
        },
    )
    .unwrap();
    execute(
        &mut store,
        info("owner", vec![]),
        ONE_USD,
        ExecuteMsg::SetToken { token: "stable".to_string() },
    )
    .unwrap();
    store
}

#[test]
fn health_factor_formula() {
    // floor(1300*100/(1000*129)) = floor(130000/129000) = 1
    assert_eq!(calculate_health_factor(1300, 1000, 129), 1);
    // floor(130000/258000) = 0
    assert_eq!(calculate_health_factor(1300, 2000, 129), 0);
    // zero debt is infinitely healthy
    assert_eq!(calculate_health_factor(0, 0, 129), u128::MAX);
    assert_eq!(calculate_collateral_usd(1300, ONE_USD), 1300);
    assert_eq!(calculate_collateral_usd(1300, 2_000_000), 2600);
    assert_eq!(calculate_usd_in_collateral(500, ONE_USD), 500);
    assert_eq!(calculate_usd_in_collateral(100, 2_000_000), 50);
}

#[test]
fn amount_sent_takes_first_matching_denom() {
    let funds = vec![
        Coin { denom: "uatom".to_string(), amount: 5 },
        Coin { denom: "uom".to_string(), amount: 7 },
        Coin { denom: "uom".to_string(), amount: 9 },
    ];
    assert_eq!(amount_sent(funds, "uom".to_string()), 7);
    assert_eq!(amount_sent(vec![], "uom".to_string()), 0);
}

#[test]
fn threshold_scenario_mint_succeeds_at_factor_one() {
    // threshold 129, price 1.0, deposit 1300, mint 1000: health factor 1
    let mut store = deploy();
    let response = execute(
        &mut store,
        info("sender", uom(1300)),
        ONE_USD,
        ExecuteMsg::DepositCollateralAndMint { token_amount: 1000 },
    )
    .unwrap();
    match &response.messages[0] {
        Effect::Mint { token, recipient, amount } => {
            assert_eq!(token, "stable");
            assert_eq!(recipient, "sender");
            assert_eq!(*amount, 1000);
        }
        other => panic!("expected a mint request, got {:?}", other),
    }
    let position = query_info(&store, "sender".to_string(), ONE_USD).unwrap();
    assert_eq!(position.health_factor, 1);
}

#[test]
fn threshold_scenario_second_mint_rejected_at_factor_zero() {
    // same setup, then minting 1000 more (debt 2000) truncates to factor 0
    let mut store = deploy();
    execute(
        &mut store,
        info("sender", uom(1300)),
        ONE_USD,
        ExecuteMsg::DepositCollateralAndMint { token_amount: 1000 },
    )
    .unwrap();
    let err = execute(
        &mut store,
        info("sender", vec![]),
        ONE_USD,
        ExecuteMsg::DepositCollateralAndMint { token_amount: 1000 },
    )
    .unwrap_err();
    assert!(matches!(err, ContractError::HealthFactorLess {}));
    // the rejected operation committed nothing
    let position = query_info(&store, "sender".to_string(), ONE_USD).unwrap();
    assert_eq!(position.total_debt, 1000);
    assert_eq!(position.collateral_deposited, 1300);
}

#[test]
fn liquidation_scenario_seizes_bonus_adjusted_collateral() {
    // collateral 1000, debt 2000, price 1.0, threshold 129: factor 0;
    // covering 500 debt seizes 500 + 50 bonus, leaving 450 and 1500
    let mut store = deploy();
    store.collateral_deposited.set(&"victim".to_string(), 1000);
    store.tokens_minted.set(&"victim".to_string(), 2000);

    let response = execute(
        &mut store,
        info("liquidator", vec![]),
        ONE_USD,
        ExecuteMsg::Liquidate { user: "victim".to_string(), amount_token: 500 },
    )
    .unwrap();

    match &response.messages[0] {
        Effect::BurnFrom { token, owner, amount } => {
            assert_eq!(token, "stable");
            assert_eq!(owner, "liquidator");
            assert_eq!(*amount, 500);
        }
        other => panic!("expected a burn request, got {:?}", other),
    }
    match &response.messages[1] {
        Effect::SendNative { to_address, denom, amount } => {
            assert_eq!(to_address, "liquidator");
            assert_eq!(denom, "uom");
            assert_eq!(*amount, 550);
        }
        other => panic!("expected a native transfer, got {:?}", other),
    }
    let position = query_info(&store, "victim".to_string(), ONE_USD).unwrap();
    assert_eq!(position.collateral_deposited, 450);
    assert_eq!(position.total_debt, 1500);
}

#[test]
fn liquidation_clamps_seizure_at_zero_collateral() {
    // seizing more than the remaining collateral empties the position
    // instead of failing
    let mut store = deploy();
    store.collateral_deposited.set(&"victim".to_string(), 100);
    store.tokens_minted.set(&"victim".to_string(), 2000);

    execute(
        &mut store,
        info("liquidator", vec![]),
        ONE_USD,
        ExecuteMsg::Liquidate { user: "victim".to_string(), amount_token: 2000 },
    )
    .unwrap();
    let position = query_info(&store, "victim".to_string(), ONE_USD).unwrap();
    assert_eq!(position.collateral_deposited, 0);
    assert_eq!(position.total_debt, 0);
}

#[test]
fn liquidation_rejected_on_safe_position() {
    // any positive health factor must fail with the "position safe" error
    let mut store = deploy();
    execute(
        &mut store,
        info("sender", uom(1300)),
        ONE_USD,
        ExecuteMsg::DepositCollateralAndMint { token_amount: 1000 },
    )
    .unwrap();
    let err = execute(
        &mut store,
        info("liquidator", vec![]),
        ONE_USD,
        ExecuteMsg::Liquidate { user: "sender".to_string(), amount_token: 500 },
    )
    .unwrap_err();
    assert!(matches!(err, ContractError::HealthFactorSafe {}));
    let position = query_info(&store, "sender".to_string(), ONE_USD).unwrap();
    assert_eq!(position.total_debt, 1000);
    assert_eq!(position.collateral_deposited, 1300);
}

#[test]
fn deposit_redeem_round_trip_restores_collateral() {
    // deposit then redeem the same amount with zero debt: no health-check
    // rejection, balance exactly restored
    let mut store = deploy();
    execute(&mut store, info("sender", uom(300)), ONE_USD, ExecuteMsg::DepositCollateral {})
        .unwrap();
    execute(&mut store, info("sender", uom(200)), ONE_USD, ExecuteMsg::DepositCollateral {})
        .unwrap();
    execute(&mut store, info("sender", vec![]), ONE_USD, ExecuteMsg::RedeemCollateral {
        amount: 200,
    })
    .unwrap();
    let position = query_info(&store, "sender".to_string(), ONE_USD).unwrap();
    assert_eq!(position.collateral_deposited, 300);
    assert_eq!(position.total_debt, 0);
    assert_eq!(position.health_factor, u128::MAX);
    // the sender never minted, so no debt entry was ever created
    assert_eq!(store.tokens_minted.get(&"sender".to_string()), None);
}

#[test]
fn info_query_is_idempotent() {
    let mut store = deploy();
    execute(
        &mut store,
        info("sender", uom(1300)),
        ONE_USD,
        ExecuteMsg::DepositCollateralAndMint { token_amount: 1000 },
    )
    .unwrap();
    let first = query_info(&store, "sender".to_string(), ONE_USD).unwrap();
    let second = query_info(&store, "sender".to_string(), ONE_USD).unwrap();
    assert_eq!(first, second);
}

#[test]
fn repay_decreases_debt_by_exactly_the_amount() {
    let mut store = deploy();
    execute(
        &mut store,
        info("sender", uom(1300)),
        ONE_USD,
        ExecuteMsg::DepositCollateralAndMint { token_amount: 1000 },
    )
    .unwrap();

    let response = execute(&mut store, info("sender", vec![]), ONE_USD, ExecuteMsg::Repay {
        token_amount: 400,
    })
    .unwrap();
    match &response.messages[0] {
        Effect::BurnFrom { token, owner, amount } => {
            assert_eq!(token, "stable");
            assert_eq!(owner, "sender");
            assert_eq!(*amount, 400);
        }
        other => panic!("expected a burn request, got {:?}", other),
    }
    let position = query_info(&store, "sender".to_string(), ONE_USD).unwrap();
    assert_eq!(position.total_debt, 600);

    // repaying everything leaves a zero-valued entry and a sentinel factor
    execute(&mut store, info("sender", vec![]), ONE_USD, ExecuteMsg::Repay { token_amount: 600 })
        .unwrap();
    let cleared = query_info(&store, "sender".to_string(), ONE_USD).unwrap();
    assert_eq!(cleared.total_debt, 0);
    assert_eq!(cleared.health_factor, u128::MAX);
}

#[test]
fn repay_more_than_owed_underflows() {
    let mut store = deploy();
    execute(
        &mut store,
        info("sender", uom(1300)),
        ONE_USD,
        ExecuteMsg::DepositCollateralAndMint { token_amount: 1000 },
    )
    .unwrap();
    let err = execute(&mut store, info("sender", vec![]), ONE_USD, ExecuteMsg::Repay {
        token_amount: 1001,
    })
    .unwrap_err();
    assert!(matches!(err, ContractError::Std(StdError::Overflow {})));
    let position = query_info(&store, "sender".to_string(), ONE_USD).unwrap();
    assert_eq!(position.total_debt, 1000);
}

#[test]
fn redeem_more_than_deposited_underflows() {
    let mut store = deploy();
    execute(&mut store, info("sender", uom(500)), ONE_USD, ExecuteMsg::DepositCollateral {})
        .unwrap();
    let err = execute(&mut store, info("sender", vec![]), ONE_USD, ExecuteMsg::RedeemCollateral {
        amount: 501,
    })
    .unwrap_err();
    assert!(matches!(err, ContractError::Std(StdError::Overflow {})));
}

#[test]
fn redeem_rejected_when_position_would_turn_unhealthy() {
    let mut store = deploy();
    execute(
        &mut store,
        info("sender", uom(1300)),
        ONE_USD,
        ExecuteMsg::DepositCollateralAndMint { token_amount: 1000 },
    )
    .unwrap();
    // withdrawing 11 leaves 1289: floor(128900/129000) = 0
    let err = execute(&mut store, info("sender", vec![]), ONE_USD, ExecuteMsg::RedeemCollateral {
        amount: 11,
    })
    .unwrap_err();
    assert!(matches!(err, ContractError::HealthFactorLess {}));
    let position = query_info(&store, "sender".to_string(), ONE_USD).unwrap();
    assert_eq!(position.collateral_deposited, 1300);
}

#[test]
fn set_token_is_owner_only_and_one_time() {
    let mut store = Store::new();
    instantiate(
        &mut store,
        InstantiateMsg {
            owner: "owner".to_string(),
            oracle: "oracle".to_string(),
            denom: "uom".to_string(),
            min_threashold: 1,
            liquidity_threashold: 129,
        },
    )
    .unwrap();

    let err = execute(
        &mut store,
        info("stranger", vec![]),
        ONE_USD,
        ExecuteMsg::SetToken { token: "stable".to_string() },
    )
    .unwrap_err();
    assert!(matches!(err, ContractError::NOTOWNER {}));

    execute(
        &mut store,
        info("owner", vec![]),
        ONE_USD,
        ExecuteMsg::SetToken { token: "stable".to_string() },
    )
    .unwrap();

    let err = execute(
        &mut store,
        info("owner", vec![]),
        ONE_USD,
        ExecuteMsg::SetToken { token: "other".to_string() },
    )
    .unwrap_err();
    assert!(matches!(err, ContractError::TOKENSET {}));
}

#[test]
fn missing_configuration_surfaces_as_not_found() {
    // an unconfigured store rejects a deposit
    let mut fresh = Store::new();
    let err = execute(&mut fresh, info("sender", uom(100)), ONE_USD, ExecuteMsg::DepositCollateral {})
        .unwrap_err();
    assert!(matches!(err, ContractError::Std(StdError::NotFound {})));

    // an info query on an unconfigured store fails
    let err = query_info(&Store::new(), "sender".to_string(), ONE_USD).unwrap_err();
    assert!(matches!(err, StdError::NotFound {}));

    // the config query on a fresh store fails
    let err = query_config(&Store::new(), 0, ONE_USD).unwrap_err();
    assert!(matches!(err, StdError::NotFound {}));

    // swapping before the token is bound fails
    let mut unbound = Store::new();
    instantiate(
        &mut unbound,
        InstantiateMsg {
            owner: "owner".to_string(),
            oracle: "oracle".to_string(),
            denom: "uom".to_string(),
            min_threashold: 1,
            liquidity_threashold: 129,
        },
    )
    .unwrap();
    let err = execute(&mut unbound, info("holder", vec![]), ONE_USD, ExecuteMsg::Swap {
        amount_token: 1,
    })
    .unwrap_err();
    assert!(matches!(err, ContractError::Std(StdError::NotFound {})));
}

#[test]
fn absent_entries_read_as_zero() {
    let mut store = deploy();

    // borrowing with no collateral entry values the collateral at zero: the
    // candidate health factor is zero, so the health check rejects it
    let err = execute(&mut store, info("sender", vec![]), ONE_USD, ExecuteMsg::BorrowTokens {
        token_amount: 10,
    })
    .unwrap_err();
    assert!(matches!(err, ContractError::HealthFactorLess {}));

    // repaying with no debt entry underflows the zero balance
    let err = execute(&mut store, info("sender", vec![]), ONE_USD, ExecuteMsg::Repay {
        token_amount: 1,
    })
    .unwrap_err();
    assert!(matches!(err, ContractError::Std(StdError::Overflow {})));

    // redeeming with no collateral entry underflows the zero balance
    let err = execute(&mut store, info("sender", vec![]), ONE_USD, ExecuteMsg::RedeemCollateral {
        amount: 1,
    })
    .unwrap_err();
    assert!(matches!(err, ContractError::Std(StdError::Overflow {})));

    // an unknown user reads as an empty, infinitely healthy position
    let position = query_info(&store, "nobody".to_string(), ONE_USD).unwrap();
    assert_eq!(position.collateral_deposited, 0);
    assert_eq!(position.total_debt, 0);
    assert_eq!(position.health_factor, u128::MAX);

    // a target with no entries owes nothing and is safe from liquidation
    let err = execute(&mut store, info("liquidator", vec![]), ONE_USD, ExecuteMsg::Liquidate {
        user: "nobody".to_string(),
        amount_token: 1,
    })
    .unwrap_err();
    assert!(matches!(err, ContractError::HealthFactorSafe {}));
}

#[test]
fn liquidation_of_debt_without_collateral_entry_proceeds() {
    // outstanding debt with no collateral entry reads as zero collateral:
    // health factor zero, so the position is liquidatable; there is nothing
    // to seize and the debt still shrinks
    let mut store = deploy();
    store.tokens_minted.set(&"victim".to_string(), 2000);

    execute(
        &mut store,
        info("liquidator", vec![]),
        ONE_USD,
        ExecuteMsg::Liquidate { user: "victim".to_string(), amount_token: 500 },
    )
    .unwrap();
    let position = query_info(&store, "victim".to_string(), ONE_USD).unwrap();
    assert_eq!(position.collateral_deposited, 0);
    assert_eq!(position.total_debt, 1500);
}

#[test]
fn swap_burns_and_pays_out_without_touching_the_ledger() {
    let mut store = deploy();
    execute(
        &mut store,
        info("sender", uom(1300)),
        ONE_USD,
        ExecuteMsg::DepositCollateralAndMint { token_amount: 1000 },
    )
    .unwrap();

    let response = execute(&mut store, info("holder", vec![]), 2_000_000, ExecuteMsg::Swap {
        amount_token: 100,
    })
    .unwrap();
    match &response.messages[0] {
        Effect::BurnFrom { token, owner, amount } => {
            assert_eq!(token, "stable");
            assert_eq!(owner, "holder");
            assert_eq!(*amount, 100);
        }
        other => panic!("expected a burn request, got {:?}", other),
    }
    match &response.messages[1] {
        Effect::SendNative { to_address, denom, amount } => {
            assert_eq!(to_address, "holder");
            assert_eq!(denom, "uom");
            // 100 tokens at 2.0 USD per collateral unit buy 50 units back
            assert_eq!(*amount, 50);
        }
        other => panic!("expected a native transfer, got {:?}", other),
    }
    // no account's debt was adjusted: the depositor still owes 1000
    let position = query_info(&store, "sender".to_string(), ONE_USD).unwrap();
    assert_eq!(position.total_debt, 1000);
    assert_eq!(position.collateral_deposited, 1300);
}

#[test]
fn borrow_mints_against_existing_collateral() {
    let mut store = deploy();
    execute(&mut store, info("sender", uom(1300)), ONE_USD, ExecuteMsg::DepositCollateral {})
        .unwrap();
    let response = execute(&mut store, info("sender", vec![]), ONE_USD, ExecuteMsg::BorrowTokens {
        token_amount: 1000,
    })
    .unwrap();
    match &response.messages[0] {
        Effect::Mint { token, recipient, amount } => {
            assert_eq!(token, "stable");
            assert_eq!(recipient, "sender");
            assert_eq!(*amount, 1000);
        }
        other => panic!("expected a mint request, got {:?}", other),
    }
    let position = query_info(&store, "sender".to_string(), ONE_USD).unwrap();
    assert_eq!(position.total_debt, 1000);

    // borrowing past the threshold is rejected and commits nothing
    let err = execute(&mut store, info("sender", vec![]), ONE_USD, ExecuteMsg::BorrowTokens {
        token_amount: 1000,
    })
    .unwrap_err();
    assert!(matches!(err, ContractError::HealthFactorLess {}));
    let position = query_info(&store, "sender".to_string(), ONE_USD).unwrap();
    assert_eq!(position.total_debt, 1000);
}
