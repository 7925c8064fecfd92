//! System-wide laws, stated and proved over the same specification
//! functions that the operations' contracts use.

use vstd::prelude::*;

use vstd::arithmetic::div_mod::{lemma_div_basics, lemma_div_is_ordered_by_denominator};

use crate::contract::{
    deposit_post, execute_post, liquidation_post, redeem_post, repay_post, spec_amount_sent,
    spec_collateral_usd, spec_health_factor, spec_info,
};
use crate::error::ContractError;
use crate::msg::{Coin, ExecuteMsg, MessageInfo, Response, is_send_native};
use crate::state::{Store, map_or_zero};

verus! {

/// Law: every recorded balance is a non-negative amount — no operation can
/// commit a negative collateral or debt position.
pub proof fn lemma_balances_nonnegative(s: Store, a: Seq<char>)
    ensures
        s.collateral().contains_key(a) ==> s.collateral()[a] >= 0,
        s.debt().contains_key(a) ==> s.debt()[a] >= 0,
{
}

/// Law: a deposit followed by a redeem of the same amount, with zero debt
/// outstanding, never triggers the health-check rejection — zero debt yields
/// the sentinel health factor — and returns the sender's collateral balance
/// to exactly its pre-deposit value. `mid` and `post` are the stores after
/// the two operations, as their contracts describe them.
pub proof fn lemma_deposit_redeem_round_trip(
    pre: Store,
    mid: Store,
    post: Store,
    sender: String,
    funds: Seq<Coin>,
    price: u128,
    r1: Result<Response, ContractError>,
    r2: Result<Response, ContractError>,
)
    requires
        pre.has_config(),
        map_or_zero(pre.debt(), sender@) == 0,
        spec_amount_sent(funds, pre.cfg().denom@) + map_or_zero(pre.collateral(), sender@)
            <= u128::MAX,
        deposit_post(pre, mid, sender, funds, r1),
        redeem_post(mid, post, sender, spec_amount_sent(funds, pre.cfg().denom@), price, r2),
    ensures
        r1 is Ok,
        r2 matches Ok(resp) && resp.messages@.len() == 1 && is_send_native(
            resp.messages@[0],
            sender,
            spec_amount_sent(funds, pre.cfg().denom@),
        ),
        map_or_zero(post.collateral(), sender@) == map_or_zero(pre.collateral(), sender@),
        post.debt() == pre.debt(),
        post.config == pre.config,
        post.stable == pre.stable,
{
    let a = sender@;
    let d = spec_amount_sent(funds, pre.cfg().denom@);
    let c0 = map_or_zero(pre.collateral(), a);
    assert(mid.collateral() == pre.collateral().insert(a, (d + c0) as u128));
    assert(mid.collateral().contains_key(a) && mid.collateral()[a] == (d + c0) as u128);
    assert(map_or_zero(mid.debt(), a) == 0);
    assert(post.collateral() == mid.collateral().insert(a, c0));
}

/// Law: the `Info` query is read-only and deterministic — called twice
/// without an intervening state-changing operation, it answers identically.
pub proof fn lemma_query_info_idempotent(s1: Store, s2: Store, user: Seq<char>, price: u128)
    requires
        s1 == s2,
    ensures
        spec_info(s1, user, price) == spec_info(s2, user, price),
{
}

/// Law: a repayment the sender can cover succeeds — there is no
/// health-factor check on the repay path — and strictly decreases the
/// sender's debt by exactly the repaid amount, touching nothing else. An
/// absent debt entry reads as zero.
pub proof fn lemma_repay_strictly_decreases(
    pre: Store,
    post: Store,
    sender: String,
    amount: u128,
    r: Result<Response, ContractError>,
)
    requires
        repay_post(pre, post, sender, amount, r),
        map_or_zero(pre.debt(), sender@) >= amount,
        pre.has_stable(),
    ensures
        r is Ok,
        post.debt()[sender@] == map_or_zero(pre.debt(), sender@) - amount,
        amount > 0 ==> post.debt()[sender@] < map_or_zero(pre.debt(), sender@),
        post.collateral() == pre.collateral(),
        post.config == pre.config,
        post.stable == pre.stable,
{
}

/// Law: repaying can only improve health — the health factor never
/// decreases when the outstanding debt decreases and everything else stays
/// fixed. (The exact decrease of the debt itself is part of the repay
/// contract.)
pub proof fn lemma_repay_improves_health(
    collateral_value: int,
    debt_before: int,
    debt_after: int,
    threshold: int,
)
    requires
        0 <= debt_after <= debt_before,
        0 <= collateral_value,
        collateral_value * 100 <= u128::MAX,
        threshold > 0,
    ensures
        spec_health_factor(collateral_value, debt_after, threshold) >= spec_health_factor(
            collateral_value,
            debt_before,
            threshold,
        ),
{
    if debt_before == 0 {
        // both sides are the sentinel
    } else if debt_after == 0 {
        // the sentinel dominates any quotient of a value that fits in range
        assert(debt_before * threshold >= 1) by (nonlinear_arith)
            requires
                debt_before >= 1,
                threshold >= 1,
        ;
        lemma_div_is_ordered_by_denominator(collateral_value * 100, 1, debt_before * threshold);
        lemma_div_basics(collateral_value * 100);
    } else {
        assert(1 <= debt_after * threshold <= debt_before * threshold) by (nonlinear_arith)
            requires
                1 <= debt_after <= debt_before,
                threshold >= 1,
        ;
        lemma_div_is_ordered_by_denominator(
            collateral_value * 100,
            debt_after * threshold,
            debt_before * threshold,
        );
    }
}

/// Law: failure commits nothing — whatever the request, an operation that
/// returns an error leaves the whole store exactly as it was.
pub proof fn lemma_rejected_operation_changes_nothing(
    pre: Store,
    post: Store,
    info: MessageInfo,
    price: u128,
    msg: ExecuteMsg,
    r: Result<Response, ContractError>,
)
    requires
        execute_post(pre, post, info, price, msg, r),
        r is Err,
    ensures
        post == pre,
{
}

/// Law: liquidation is only permitted on unhealthy positions — whenever the
/// target's health factor is positive, the operation fails with the
/// "position safe" error and changes nothing. Absent entries read as zero,
/// so this holds for every (collateral, debt, price, threshold) tuple; in
/// particular a target with no outstanding debt is always safe.
pub proof fn lemma_liquidate_rejects_safe(
    pre: Store,
    post: Store,
    liquidator: String,
    user: String,
    amount: u128,
    price: u128,
    r: Result<Response, ContractError>,
)
    requires
        liquidation_post(pre, post, liquidator, user, amount, price, r),
        pre.has_config(),
        pre.has_stable(),
        spec_health_factor(
            spec_collateral_usd(map_or_zero(pre.collateral(), user@) as int, price as int),
            map_or_zero(pre.debt(), user@) as int,
            pre.cfg().liquidity_threashold as int,
        ) > 0,
    ensures
        r matches Err(e) && e is HealthFactorSafe,
        post == pre,
{
}

} // verus!
