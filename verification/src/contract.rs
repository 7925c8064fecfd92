//! The position engine: health-factor calculation, the state-changing
//! operations, and the read-only queries over the ledger store.
//!
//! Every operation follows the same pattern: load state, compute the
//! candidate post-state, validate the health-factor invariant, commit the
//! ledger only when every check passed, and return the outbound effects for
//! the host to execute. A rejected operation leaves the store untouched.

use vstd::prelude::*;

use crate::PRICE_SCALE;
use crate::error::{ContractError, StdError, is_not_found, is_underflow};
use crate::msg::{
    Coin, ConfigResponse, Effect, ExecuteMsg, InfoResponse, InstantiateMsg, MessageInfo, QueryMsg,
    QueryResponse, Response, is_burn_from, is_mint, is_send_native,
};
use crate::state::{Config, Store, map_or_zero};

verus! {

/// Mathematical health factor: `floor(collateral_value * 100 / (debt * threshold))`
/// when debt is outstanding, and the maximum representable value — "infinitely
/// healthy" — when the account owes nothing.
pub open spec fn spec_health_factor(collateral_value: int, debt: int, threshold: int) -> int {
    if debt == 0 {
        u128::MAX as int
    } else {
        (collateral_value * 100) / (debt * threshold)
    }
}

/// USD value of a collateral amount at a six-decimal fixed-point price,
/// truncated toward zero.
pub open spec fn spec_collateral_usd(amount: int, price: int) -> int {
    (amount * price) / (PRICE_SCALE as int)
}

/// Collateral amount equivalent to a USD value at a six-decimal fixed-point
/// price, truncated toward zero.
pub open spec fn spec_usd_in_collateral(amount: int, price: int) -> int {
    (amount * PRICE_SCALE as int) / price
}

/// The machine-size side conditions under which the health factor is computed
/// without overflowing 128-bit arithmetic (and without dividing by zero).
pub open spec fn hf_args_ok(collateral_value: int, debt: int, threshold: int) -> bool {
    debt > 0 ==> {
        &&& threshold > 0
        &&& collateral_value * 100 <= u128::MAX
        &&& debt * threshold <= u128::MAX
    }
}

/// Solvency score of a position. Zero means unhealthy; any nonzero score is
/// healthy. Truncation toward zero is part of the observable contract: a
/// ratio just above 1.0 that truncates to 0 counts as unhealthy.
pub fn calculate_health_factor(
    collateral_value: u128,
    token_minted: u128,
    liquidity_threashold: u128,
) -> (hf: u128)
    requires
        hf_args_ok(collateral_value as int, token_minted as int, liquidity_threashold as int),
    ensures
        hf == spec_health_factor(
            collateral_value as int,
            token_minted as int,
            liquidity_threashold as int,
        ),
{
    if token_minted == 0 {
        return u128::MAX;
    }
    proof {
        assert(token_minted as int * liquidity_threashold as int > 0) by (nonlinear_arith)
            requires
                token_minted > 0,
                liquidity_threashold > 0,
        ;
    }
    (collateral_value * 100) / (token_minted * liquidity_threashold)
}

/// USD value of `amount` collateral units at `price`.
pub fn calculate_collateral_usd(amount: u128, price: u128) -> (value: u128)
    requires
        amount as int * price as int <= u128::MAX,
    ensures
        value == spec_collateral_usd(amount as int, price as int),
{
    (amount * price) / PRICE_SCALE
}

/// Collateral units equivalent to `amount` USD-denominated debt units at
/// `price`.
pub fn calculate_usd_in_collateral(amount: u128, price: u128) -> (value: u128)
    requires
        price > 0,
        amount as int * PRICE_SCALE as int <= u128::MAX,
    ensures
        value == spec_usd_in_collateral(amount as int, price as int),
{
    (amount * PRICE_SCALE) / price
}

/// The amount of the configured denomination among the attached funds: the
/// first matching coin's amount, or zero when none matches.
pub open spec fn spec_amount_sent(funds: Seq<Coin>, denom: Seq<char>) -> u128
    decreases funds.len(),
{
    if funds.len() == 0 {
        0u128
    } else if funds[0].denom@ == denom {
        funds[0].amount
    } else {
        spec_amount_sent(funds.skip(1), denom)
    }
}

/// Amount of `denom` attached to the request, read from the first coin of
/// that denomination; zero when no such coin was sent.
pub fn amount_sent(sent_funds: Vec<Coin>, denom: String) -> (amount: u128)
    ensures
        amount == spec_amount_sent(sent_funds@, denom@),
{
    let n = sent_funds.len();
    let mut i: usize = 0;
    proof {
        assert(sent_funds@.skip(0) =~= sent_funds@);
    }
    while i < n
        invariant
            0 <= i <= n,
            n == sent_funds@.len(),
            spec_amount_sent(sent_funds@, denom@) == spec_amount_sent(
                sent_funds@.skip(i as int),
                denom@,
            ),
        decreases n - i,
    {
        if sent_funds[i].denom == denom {
            proof {
                assert(sent_funds@.skip(i as int)[0] == sent_funds@[i as int]);
            }
            return sent_funds[i].amount;
        }
        proof {
            assert(sent_funds@.skip(i as int)[0] == sent_funds@[i as int]);
            assert(sent_funds@.skip(i as int).skip(1) =~= sent_funds@.skip(i as int + 1));
        }
        i += 1;
    }
    proof {
        assert(sent_funds@.skip(n as int).len() == 0);
    }
    0
}

/// Build the request that asks the synthetic-token contract to mint
/// `mint_amount` for `recipient`.
pub fn mint_stable(recipient: String, mint_amount: u128, token: String) -> (msg: Effect)
    ensures
        is_mint(msg, token, recipient, mint_amount),
{
    Effect::Mint { token: token, recipient: recipient, amount: mint_amount }
}

/// Build the request that asks the synthetic-token contract to burn
/// `burn_amount` from `user`.
pub fn burn_stable(user: String, burn_amount: u128, token: String) -> (msg: Effect)
    ensures
        is_burn_from(msg, token, user, burn_amount),
{
    Effect::BurnFrom { token: token, owner: user, amount: burn_amount }
}

/// Build the native transfer of `amount` to `recipient`, in the fixed native
/// denomination.
pub fn send_native(recipient: String, amount: u128) -> (msg: Effect)
    ensures
        is_send_native(msg, recipient, amount),
{
    Effect::SendNative { to_address: recipient, denom: "uom".to_owned(), amount: amount }
}

// ------------------------------------------------------------------
// Initialization and token binding
// ------------------------------------------------------------------

/// What `instantiate` does: the configuration singleton is written with the
/// given parameters and the token not yet bound; nothing else changes.
pub open spec fn instantiate_post(
    pre: Store,
    post: Store,
    msg: InstantiateMsg,
    r: Result<Response, ContractError>,
) -> bool {
    &&& r matches Ok(resp) && resp.messages@.len() == 0 && resp.attributes@.len() == 0
    &&& post.config == Some(
        (Config {
            owner: msg.owner,
            oracle: msg.oracle,
            denom: msg.denom,
            min_threashold: msg.min_threashold,
            liquidity_threashold: msg.liquidity_threashold,
            token_set: false,
        }),
    )
    &&& post.stable == pre.stable
    &&& post.collateral() == pre.collateral()
    &&& post.debt() == pre.debt()
}

/// Create the configuration singleton. Address well-formedness is the host's
/// concern; economic sanity (a zero threshold, say) is deliberately not
/// checked here.
pub fn instantiate(store: &mut Store, msg: InstantiateMsg) -> (r: Result<Response, ContractError>)
    ensures
        instantiate_post(*old(store), *final(store), msg, r),
{
    store.config = Some(
        Config {
            owner: msg.owner,
            oracle: msg.oracle,
            denom: msg.denom,
            min_threashold: msg.min_threashold,
            liquidity_threashold: msg.liquidity_threashold,
            token_set: false,
        },
    );
    Ok(Response::new())
}

/// What `SetToken` does: only the owner may bind the synthetic-token
/// identity, exactly once.
pub open spec fn set_token_post(
    pre: Store,
    post: Store,
    sender: String,
    token: String,
    r: Result<Response, ContractError>,
) -> bool {
    if !pre.has_config() {
        r matches Err(e) && is_not_found(e) && post == pre
    } else if pre.cfg().owner@ != sender@ {
        r matches Err(e) && e is NOTOWNER && post == pre
    } else if pre.cfg().token_set {
        r matches Err(e) && e is TOKENSET && post == pre
    } else {
        &&& r matches Ok(resp) && resp.messages@.len() == 0 && resp.attributes@.len() == 0
        &&& post.config == Some(
            (Config {
                owner: pre.cfg().owner,
                oracle: pre.cfg().oracle,
                denom: pre.cfg().denom,
                min_threashold: pre.cfg().min_threashold,
                liquidity_threashold: pre.cfg().liquidity_threashold,
                token_set: true,
            }),
        )
        &&& post.stable == Some(token)
        &&& post.collateral() == pre.collateral()
        &&& post.debt() == pre.debt()
    }
}

/// Bind the synthetic-token identity. Owner-only, one-time.
pub fn execute_set_token(store: &mut Store, info: MessageInfo, token: String) -> (r: Result<
    Response,
    ContractError,
>)
    ensures
        set_token_post(*old(store), *final(store), info.sender, token, r),
{
    let new_config = match &store.config {
        None => {
            return Err(ContractError::Std(StdError::NotFound {}));
        },
        Some(c) => {
            if !(c.owner == info.sender) {
                return Err(ContractError::NOTOWNER {});
            }
            if c.token_set {
                return Err(ContractError::TOKENSET {});
            }
            Config {
                owner: c.owner.clone(),
                oracle: c.oracle.clone(),
                denom: c.denom.clone(),
                min_threashold: c.min_threashold,
                liquidity_threashold: c.liquidity_threashold,
                token_set: true,
            }
        },
    };
    store.config = Some(new_config);
    store.stable = Some(token);
    Ok(Response::new())
}

// ------------------------------------------------------------------
// Deposit
// ------------------------------------------------------------------

/// Machine-limit side condition for a plain deposit: the new balance must
/// fit in 128 bits.
pub open spec fn deposit_args_ok(s: Store, sender: Seq<char>, funds: Seq<Coin>) -> bool {
    s.has_config() ==> spec_amount_sent(funds, s.cfg().denom@) + map_or_zero(
        s.collateral(),
        sender,
    ) <= u128::MAX
}

/// What `DepositCollateral` does: the sender's collateral grows by the
/// attached amount of the configured denomination. No invariant check — a
/// deposit can only improve a position.
pub open spec fn deposit_post(
    pre: Store,
    post: Store,
    sender: String,
    funds: Seq<Coin>,
    r: Result<Response, ContractError>,
) -> bool {
    if !pre.has_config() {
        r matches Err(e) && is_not_found(e) && post == pre
    } else {
        let sent = spec_amount_sent(funds, pre.cfg().denom@);
        let new_balance = (sent + map_or_zero(pre.collateral(), sender@)) as u128;
        &&& r matches Ok(resp) && resp.messages@.len() == 0 && resp.attributes@.len() == 1
            && resp.attributes@[0].0@ == "execute deposit"@ && resp.attributes@[0].1@
            == "collateral deposited"@
        &&& post.collateral() == pre.collateral().insert(sender@, new_balance)
        &&& post.debt() == pre.debt()
        &&& post.config == pre.config
        &&& post.stable == pre.stable
    }
}

/// Deposit the attached collateral for the sender. Funds in other
/// denominations are ignored; sending none deposits zero.
pub fn execute_deposit_collateral(store: &mut Store, info: MessageInfo) -> (r: Result<
    Response,
    ContractError,
>)
    requires
        deposit_args_ok(*old(store), info.sender@, info.funds@),
    ensures
        deposit_post(*old(store), *final(store), info.sender, info.funds@, r),
{
    let denom = match &store.config {
        Some(c) => c.denom.clone(),
        None => {
            return Err(ContractError::Std(StdError::NotFound {}));
        },
    };
    let sender = info.sender;
    let amount = amount_sent(info.funds, denom);
    let user_deposit = match store.collateral_deposited.get(&sender) {
        Some(v) => v,
        None => 0,
    };
    store.collateral_deposited.set(&sender, amount + user_deposit);
    Ok(
        Response::new().add_attribute(
            "execute deposit".to_owned(),
            "collateral deposited".to_owned(),
        ),
    )
}

// ------------------------------------------------------------------
// Deposit and mint
// ------------------------------------------------------------------

/// Machine-limit side conditions for a deposit-and-mint.
pub open spec fn deposit_mint_args_ok(
    s: Store,
    sender: Seq<char>,
    funds: Seq<Coin>,
    token_amount: u128,
    price: u128,
) -> bool {
    (s.has_config() && s.has_stable()) ==> {
        let new_col = spec_amount_sent(funds, s.cfg().denom@) + map_or_zero(
            s.collateral(),
            sender,
        );
        let new_debt = map_or_zero(s.debt(), sender) + token_amount;
        &&& new_col <= u128::MAX
        &&& new_debt <= u128::MAX
        &&& new_col * price <= u128::MAX
        &&& hf_args_ok(
            spec_collateral_usd(new_col, price as int),
            new_debt,
            s.cfg().liquidity_threashold as int,
        )
    }
}

/// What `DepositCollateralAndMint` does: collateral grows by the attached
/// amount, debt grows by the requested amount, and the whole operation is
/// discarded — no partial commit — when the resulting health factor is zero.
pub open spec fn deposit_mint_post(
    pre: Store,
    post: Store,
    sender: String,
    funds: Seq<Coin>,
    token_amount: u128,
    price: u128,
    r: Result<Response, ContractError>,
) -> bool {
    if !pre.has_config() {
        r matches Err(e) && is_not_found(e) && post == pre
    } else if !pre.has_stable() {
        r matches Err(e) && is_not_found(e) && post == pre
    } else {
        let sent = spec_amount_sent(funds, pre.cfg().denom@);
        let new_col = (sent + map_or_zero(pre.collateral(), sender@)) as u128;
        let new_debt = (map_or_zero(pre.debt(), sender@) + token_amount) as u128;
        let hf = spec_health_factor(
            spec_collateral_usd(new_col as int, price as int),
            new_debt as int,
            pre.cfg().liquidity_threashold as int,
        );
        if hf == 0 {
            r matches Err(e) && e is HealthFactorLess && post == pre
        } else {
            &&& r matches Ok(resp) && resp.messages@.len() == 1 && is_mint(
                resp.messages@[0],
                pre.stable_token(),
                sender,
                token_amount,
            ) && resp.attributes@.len() == 0
            &&& post.collateral() == pre.collateral().insert(sender@, new_col)
            &&& post.debt() == pre.debt().insert(sender@, new_debt)
            &&& post.config == pre.config
            &&& post.stable == pre.stable
        }
    }
}

/// Deposit the attached collateral and mint `token_amount` debt tokens in
/// one atomic operation. The candidate post-state must be healthy; the
/// ledger is committed only after the check passes.
pub fn execute_deposit_collateral_mint(
    store: &mut Store,
    info: MessageInfo,
    token_amount: u128,
    price: u128,
) -> (r: Result<Response, ContractError>)
    requires
        deposit_mint_args_ok(*old(store), info.sender@, info.funds@, token_amount, price),
    ensures
        deposit_mint_post(
            *old(store),
            *final(store),
            info.sender,
            info.funds@,
            token_amount,
            price,
            r,
        ),
{
    let (denom, liquidity_threashold) = match &store.config {
        Some(c) => (c.denom.clone(), c.liquidity_threashold),
        None => {
            return Err(ContractError::Std(StdError::NotFound {}));
        },
    };
    let token = match &store.stable {
        Some(t) => t.clone(),
        None => {
            return Err(ContractError::Std(StdError::NotFound {}));
        },
    };
    let sender = info.sender;
    let amount = amount_sent(info.funds, denom);
    let user_deposit = match store.collateral_deposited.get(&sender) {
        Some(v) => v,
        None => 0,
    };
    let token_minted = match store.tokens_minted.get(&sender) {
        Some(v) => v,
        None => 0,
    };
    let new_debt = token_minted + token_amount;
    let new_collateral = amount + user_deposit;

    let health_factor = calculate_health_factor(
        calculate_collateral_usd(new_collateral, price),
        new_debt,
        liquidity_threashold,
    );
    if health_factor == 0 {
        return Err(ContractError::HealthFactorLess {});
    }
    // every check passed: commit both columns, then emit the mint request
    store.tokens_minted.set(&sender, new_debt);
    store.collateral_deposited.set(&sender, new_collateral);
    let msg = mint_stable(sender, token_amount, token);
    Ok(Response::new().add_message(msg))
}

// ------------------------------------------------------------------
// Borrow
// ------------------------------------------------------------------

/// Machine-limit side conditions for borrowing against existing collateral.
pub open spec fn borrow_args_ok(s: Store, sender: Seq<char>, amount: u128, price: u128) -> bool {
    s.has_config() ==> {
        let new_debt = map_or_zero(s.debt(), sender) + amount;
        let col = map_or_zero(s.collateral(), sender);
        &&& new_debt <= u128::MAX
        &&& col * price <= u128::MAX
        &&& hf_args_ok(
            spec_collateral_usd(col as int, price as int),
            new_debt,
            s.cfg().liquidity_threashold as int,
        )
    }
}

/// What `BorrowTokens` does: debt grows by the requested amount when the
/// position stays healthy at the current price; collateral is untouched. An
/// absent collateral entry reads as zero, so borrowing anything against
/// nothing is rejected by the health check.
pub open spec fn borrow_post(
    pre: Store,
    post: Store,
    sender: String,
    amount: u128,
    price: u128,
    r: Result<Response, ContractError>,
) -> bool {
    if !pre.has_config() {
        r matches Err(e) && is_not_found(e) && post == pre
    } else {
        let new_debt = (map_or_zero(pre.debt(), sender@) + amount) as u128;
        let hf = spec_health_factor(
            spec_collateral_usd(map_or_zero(pre.collateral(), sender@) as int, price as int),
            new_debt as int,
            pre.cfg().liquidity_threashold as int,
        );
        if hf == 0 {
            r matches Err(e) && e is HealthFactorLess && post == pre
        } else if !pre.has_stable() {
            r matches Err(e) && is_not_found(e) && post == pre
        } else {
            &&& r matches Ok(resp) && resp.messages@.len() == 1 && is_mint(
                resp.messages@[0],
                pre.stable_token(),
                sender,
                amount,
            ) && resp.attributes@.len() == 0
            &&& post.debt() == pre.debt().insert(sender@, new_debt)
            &&& post.collateral() == pre.collateral()
            &&& post.config == pre.config
            &&& post.stable == pre.stable
        }
    }
}

/// Mint `amount` debt tokens against the sender's existing collateral.
pub fn execute_borrow_tokens(store: &mut Store, info: MessageInfo, amount: u128, price: u128) -> (r:
    Result<Response, ContractError>)
    requires
        borrow_args_ok(*old(store), info.sender@, amount, price),
    ensures
        borrow_post(*old(store), *final(store), info.sender, amount, price, r),
{
    let user = info.sender;
    let liquidity_threashold = match &store.config {
        Some(c) => c.liquidity_threashold,
        None => {
            return Err(ContractError::Std(StdError::NotFound {}));
        },
    };
    let tokens = match store.tokens_minted.get(&user) {
        Some(t) => t,
        None => 0,
    };
    let collateral = match store.collateral_deposited.get(&user) {
        Some(c) => c,
        None => 0,
    };
    let new_amount = amount + tokens;

    let health_factor = calculate_health_factor(
        calculate_collateral_usd(collateral, price),
        new_amount,
        liquidity_threashold,
    );
    if health_factor == 0 {
        return Err(ContractError::HealthFactorLess {});
    }
    let token_addr = match &store.stable {
        Some(t) => t.clone(),
        None => {
            return Err(ContractError::Std(StdError::NotFound {}));
        },
    };
    store.tokens_minted.set(&user, new_amount);
    let mint_msg = mint_stable(user, amount, token_addr);
    Ok(Response::new().add_message(mint_msg))
}

// ------------------------------------------------------------------
// Repay
// ------------------------------------------------------------------

/// What `Repay` does: debt shrinks by exactly the repaid amount. There is no
/// health-factor check — repaying can only improve a position. An absent
/// debt entry reads as zero, so repaying more than is owed — anything, for
/// an account that owes nothing — is an underflow failure.
pub open spec fn repay_post(
    pre: Store,
    post: Store,
    sender: String,
    token_amount: u128,
    r: Result<Response, ContractError>,
) -> bool {
    if map_or_zero(pre.debt(), sender@) < token_amount {
        r matches Err(e) && is_underflow(e) && post == pre
    } else if !pre.has_stable() {
        r matches Err(e) && is_not_found(e) && post == pre
    } else {
        let new_debt = (map_or_zero(pre.debt(), sender@) - token_amount) as u128;
        &&& r matches Ok(resp) && resp.messages@.len() == 1 && is_burn_from(
            resp.messages@[0],
            pre.stable_token(),
            sender,
            token_amount,
        ) && resp.attributes@.len() == 0
        &&& post.debt() == pre.debt().insert(sender@, new_debt)
        &&& post.collateral() == pre.collateral()
        &&& post.config == pre.config
        &&& post.stable == pre.stable
    }
}

/// Burn `token_amount` of the sender's debt.
pub fn execute_repay(store: &mut Store, info: MessageInfo, token_amount: u128) -> (r: Result<
    Response,
    ContractError,
>)
    ensures
        repay_post(*old(store), *final(store), info.sender, token_amount, r),
{
    let user = info.sender;
    let tokens = match store.tokens_minted.get(&user) {
        Some(t) => t,
        None => 0,
    };
    if tokens < token_amount {
        return Err(ContractError::Std(StdError::Overflow {}));
    }
    let new_amount = tokens - token_amount;
    let token_addr = match &store.stable {
        Some(t) => t.clone(),
        None => {
            return Err(ContractError::Std(StdError::NotFound {}));
        },
    };
    let burn_msg = burn_stable(user.clone(), token_amount, token_addr);
    store.tokens_minted.set(&user, new_amount);
    Ok(Response::new().add_message(burn_msg))
}

// ------------------------------------------------------------------
// Redeem
// ------------------------------------------------------------------

/// Machine-limit side conditions for redeeming collateral.
pub open spec fn redeem_args_ok(s: Store, sender: Seq<char>, amount: u128, price: u128) -> bool {
    (s.has_config() && map_or_zero(s.collateral(), sender) >= amount) ==> {
        let remaining = map_or_zero(s.collateral(), sender) - amount;
        &&& remaining * price <= u128::MAX
        &&& hf_args_ok(
            spec_collateral_usd(remaining, price as int),
            map_or_zero(s.debt(), sender) as int,
            s.cfg().liquidity_threashold as int,
        )
    }
}

/// What `RedeemCollateral` does: collateral shrinks by the withdrawn amount
/// when the position — checked against the post-withdrawal balance — stays
/// healthy. An absent entry reads as zero, so the withdrawal must not
/// underflow the recorded (or zero) balance.
pub open spec fn redeem_post(
    pre: Store,
    post: Store,
    sender: String,
    amount: u128,
    price: u128,
    r: Result<Response, ContractError>,
) -> bool {
    if !pre.has_config() {
        r matches Err(e) && is_not_found(e) && post == pre
    } else if map_or_zero(pre.collateral(), sender@) < amount {
        r matches Err(e) && is_underflow(e) && post == pre
    } else {
        let remaining = (map_or_zero(pre.collateral(), sender@) - amount) as u128;
        let hf = spec_health_factor(
            spec_collateral_usd(remaining as int, price as int),
            map_or_zero(pre.debt(), sender@) as int,
            pre.cfg().liquidity_threashold as int,
        );
        if hf == 0 {
            r matches Err(e) && e is HealthFactorLess && post == pre
        } else {
            &&& r matches Ok(resp) && resp.messages@.len() == 1 && is_send_native(
                resp.messages@[0],
                sender,
                amount,
            ) && resp.attributes@.len() == 0
            &&& post.collateral() == pre.collateral().insert(sender@, remaining)
            &&& post.debt() == pre.debt()
            &&& post.config == pre.config
            &&& post.stable == pre.stable
        }
    }
}

/// Withdraw `amount_withdraw` collateral, provided the remaining position is
/// still healthy at the current price.
pub fn execute_redeem_collateral(
    store: &mut Store,
    info: MessageInfo,
    amount_withdraw: u128,
    price: u128,
) -> (r: Result<Response, ContractError>)
    requires
        redeem_args_ok(*old(store), info.sender@, amount_withdraw, price),
    ensures
        redeem_post(*old(store), *final(store), info.sender, amount_withdraw, price, r),
{
    let sender = info.sender;
    let deposit = match store.collateral_deposited.get(&sender) {
        Some(c) => c,
        None => 0,
    };
    let token_minted = match store.tokens_minted.get(&sender) {
        Some(t) => t,
        None => 0,
    };
    let liquidity_threashold = match &store.config {
        Some(c) => c.liquidity_threashold,
        None => {
            return Err(ContractError::Std(StdError::NotFound {}));
        },
    };
    if deposit < amount_withdraw {
        return Err(ContractError::Std(StdError::Overflow {}));
    }
    let remaining_collateral = calculate_collateral_usd(deposit - amount_withdraw, price);
    let health_factor = calculate_health_factor(
        remaining_collateral,
        token_minted,
        liquidity_threashold,
    );
    if health_factor == 0 {
        return Err(ContractError::HealthFactorLess {});
    }
    store.collateral_deposited.set(&sender, deposit - amount_withdraw);
    let msg = send_native(sender, amount_withdraw);
    Ok(Response::new().add_message(msg))
}

// ------------------------------------------------------------------
// Redeem and burn
// ------------------------------------------------------------------

/// Machine-limit side conditions for a combined redeem-and-burn.
pub open spec fn redeem_burn_args_ok(
    s: Store,
    sender: Seq<char>,
    amount_collateral: u128,
    amount_token: u128,
    price: u128,
) -> bool {
    (s.has_config() && s.has_stable() && map_or_zero(s.debt(), sender) >= amount_token
        && map_or_zero(s.collateral(), sender) >= amount_collateral) ==> {
        let new_col = map_or_zero(s.collateral(), sender) - amount_collateral;
        let new_debt = map_or_zero(s.debt(), sender) - amount_token;
        &&& new_col * price <= u128::MAX
        &&& hf_args_ok(
            spec_collateral_usd(new_col, price as int),
            new_debt,
            s.cfg().liquidity_threashold as int,
        )
    }
}

/// What `RedeemCollateralAndBurn` does: collateral and debt both shrink, the
/// remaining position must be healthy, and neither decrement may underflow
/// its recorded (or zero, when absent) balance.
pub open spec fn redeem_burn_post(
    pre: Store,
    post: Store,
    sender: String,
    amount_collateral: u128,
    amount_token: u128,
    price: u128,
    r: Result<Response, ContractError>,
) -> bool {
    if !pre.has_config() {
        r matches Err(e) && is_not_found(e) && post == pre
    } else if !pre.has_stable() {
        r matches Err(e) && is_not_found(e) && post == pre
    } else if map_or_zero(pre.debt(), sender@) < amount_token {
        r matches Err(e) && is_underflow(e) && post == pre
    } else if map_or_zero(pre.collateral(), sender@) < amount_collateral {
        r matches Err(e) && is_underflow(e) && post == pre
    } else {
        let new_col = (map_or_zero(pre.collateral(), sender@) - amount_collateral) as u128;
        let new_debt = (map_or_zero(pre.debt(), sender@) - amount_token) as u128;
        let hf = spec_health_factor(
            spec_collateral_usd(new_col as int, price as int),
            new_debt as int,
            pre.cfg().liquidity_threashold as int,
        );
        if hf == 0 {
            r matches Err(e) && e is HealthFactorLess && post == pre
        } else {
            &&& r matches Ok(resp) && resp.messages@.len() == 2 && is_send_native(
                resp.messages@[0],
                sender,
                amount_collateral,
            ) && is_burn_from(resp.messages@[1], pre.stable_token(), sender, amount_token)
                && resp.attributes@.len() == 0
            &&& post.collateral() == pre.collateral().insert(sender@, new_col)
            &&& post.debt() == pre.debt().insert(sender@, new_debt)
            &&& post.config == pre.config
            &&& post.stable == pre.stable
        }
    }
}

/// Withdraw collateral and burn debt in one atomic operation.
pub fn execute_redeem_collateral_burn(
    store: &mut Store,
    info: MessageInfo,
    amount_collateral: u128,
    amount_token: u128,
    price: u128,
) -> (r: Result<Response, ContractError>)
    requires
        redeem_burn_args_ok(*old(store), info.sender@, amount_collateral, amount_token, price),
    ensures
        redeem_burn_post(
            *old(store),
            *final(store),
            info.sender,
            amount_collateral,
            amount_token,
            price,
            r,
        ),
{
    let sender = info.sender;
    let token_minted = match store.tokens_minted.get(&sender) {
        Some(t) => t,
        None => 0,
    };
    let collateral_deposited = match store.collateral_deposited.get(&sender) {
        Some(c) => c,
        None => 0,
    };
    let liquidity_threashold = match &store.config {
        Some(c) => c.liquidity_threashold,
        None => {
            return Err(ContractError::Std(StdError::NotFound {}));
        },
    };
    let token = match &store.stable {
        Some(t) => t.clone(),
        None => {
            return Err(ContractError::Std(StdError::NotFound {}));
        },
    };
    if token_minted < amount_token {
        return Err(ContractError::Std(StdError::Overflow {}));
    }
    if collateral_deposited < amount_collateral {
        return Err(ContractError::Std(StdError::Overflow {}));
    }
    let new_token = token_minted - amount_token;
    let new_collateral = collateral_deposited - amount_collateral;

    let health_factor = calculate_health_factor(
        calculate_collateral_usd(new_collateral, price),
        new_token,
        liquidity_threashold,
    );
    if health_factor == 0 {
        return Err(ContractError::HealthFactorLess {});
    }
    store.tokens_minted.set(&sender, new_token);
    store.collateral_deposited.set(&sender, new_collateral);
    let msg = send_native(sender.clone(), amount_collateral);
    let burn_msg = burn_stable(sender, amount_token, token);
    Ok(Response::new().add_message(msg).add_message(burn_msg))
}

// ------------------------------------------------------------------
// Liquidation
// ------------------------------------------------------------------

/// The bonus-adjusted collateral seized per covered debt: the collateral
/// equivalent of the covered amount plus a fixed ten percent.
pub open spec fn spec_bonus_adjusted(amount: int, price: int) -> int {
    let equivalent = spec_usd_in_collateral(amount, price);
    equivalent * 10 / 100 + equivalent
}

/// Machine-limit side conditions for a liquidation.
pub open spec fn liquidation_args_ok(s: Store, user: Seq<char>, amount: u128, price: u128) -> bool {
    (s.has_config() && s.has_stable()) ==> {
        let col = map_or_zero(s.collateral(), user);
        let debt = map_or_zero(s.debt(), user);
        &&& col * price <= u128::MAX
        &&& hf_args_ok(
            spec_collateral_usd(col as int, price as int),
            debt as int,
            s.cfg().liquidity_threashold as int,
        )
        &&& (spec_health_factor(
            spec_collateral_usd(col as int, price as int),
            debt as int,
            s.cfg().liquidity_threashold as int,
        ) == 0 && debt >= amount) ==> {
            &&& price > 0
            &&& amount * PRICE_SCALE <= u128::MAX
            &&& spec_usd_in_collateral(amount as int, price as int) * 10 <= u128::MAX
            &&& spec_bonus_adjusted(amount as int, price as int) <= u128::MAX
        }
    }
}

/// What `Liquidate` does: only an unhealthy position may be liquidated — the
/// sole operation with the inverted invariant check. Absent entries read as
/// zero: a target that owes nothing is "infinitely healthy" and safe, while
/// outstanding debt with no collateral entry is health factor zero and
/// liquidatable. The target's debt shrinks by the covered amount; its
/// collateral shrinks by the bonus-adjusted equivalent, clamped at zero. The
/// covered debt is burned from the liquidator's balance and the seized
/// collateral sent to the liquidator. No post-state health check is made.
pub open spec fn liquidation_post(
    pre: Store,
    post: Store,
    liquidator: String,
    user: String,
    amount: u128,
    price: u128,
    r: Result<Response, ContractError>,
) -> bool {
    if !pre.has_config() {
        r matches Err(e) && is_not_found(e) && post == pre
    } else if !pre.has_stable() {
        r matches Err(e) && is_not_found(e) && post == pre
    } else {
        let col = map_or_zero(pre.collateral(), user@);
        let debt = map_or_zero(pre.debt(), user@);
        let hf = spec_health_factor(
            spec_collateral_usd(col as int, price as int),
            debt as int,
            pre.cfg().liquidity_threashold as int,
        );
        if hf > 0 {
            r matches Err(e) && e is HealthFactorSafe && post == pre
        } else if debt < amount {
            r matches Err(e) && is_underflow(e) && post == pre
        } else {
            let new_debt = (debt - amount) as u128;
            let bonus = spec_bonus_adjusted(amount as int, price as int) as u128;
            let new_col: u128 = if col >= bonus {
                (col - bonus) as u128
            } else {
                0u128
            };
            &&& r matches Ok(resp) && resp.messages@.len() == 2 && is_burn_from(
                resp.messages@[0],
                pre.stable_token(),
                liquidator,
                amount,
            ) && is_send_native(resp.messages@[1], liquidator, bonus) && resp.attributes@.len()
                == 0
            &&& post.debt() == pre.debt().insert(user@, new_debt)
            &&& post.collateral() == pre.collateral().insert(user@, new_col)
            &&& post.config == pre.config
            &&& post.stable == pre.stable
        }
    }
}

/// Liquidate `user`'s unhealthy position by covering `amount` of its debt.
pub fn execute_liquidation(
    store: &mut Store,
    info: MessageInfo,
    user: String,
    amount: u128,
    price: u128,
) -> (r: Result<Response, ContractError>)
    requires
        liquidation_args_ok(*old(store), user@, amount, price),
    ensures
        liquidation_post(*old(store), *final(store), info.sender, user, amount, price, r),
{
    let collateral_deposited = match store.collateral_deposited.get(&user) {
        Some(c) => c,
        None => 0,
    };
    let token_minted = match store.tokens_minted.get(&user) {
        Some(t) => t,
        None => 0,
    };
    let liquidity_threashold = match &store.config {
        Some(c) => c.liquidity_threashold,
        None => {
            return Err(ContractError::Std(StdError::NotFound {}));
        },
    };
    let token = match &store.stable {
        Some(t) => t.clone(),
        None => {
            return Err(ContractError::Std(StdError::NotFound {}));
        },
    };
    let health_factor = calculate_health_factor(
        calculate_collateral_usd(collateral_deposited, price),
        token_minted,
        liquidity_threashold,
    );
    if health_factor > 0 {
        return Err(ContractError::HealthFactorSafe {});
    }
    if token_minted < amount {
        return Err(ContractError::Std(StdError::Overflow {}));
    }
    let new_amount = token_minted - amount;
    let collateral_value = calculate_usd_in_collateral(amount, price);
    let send_with_bonus = (collateral_value * 10) / 100 + collateral_value;
    // liquidation may seize all remaining collateral: clamp at zero rather
    // than fail, so deeply underwater positions stay liquidatable
    let updated_collateral_value = if collateral_deposited >= send_with_bonus {
        collateral_deposited - send_with_bonus
    } else {
        0
    };
    store.tokens_minted.set(&user, new_amount);
    store.collateral_deposited.set(&user, updated_collateral_value);
    let burn_msg = burn_stable(info.sender.clone(), amount, token);
    let send_msg = send_native(info.sender, send_with_bonus);
    Ok(Response::new().add_message(burn_msg).add_message(send_msg))
}

// ------------------------------------------------------------------
// Swap
// ------------------------------------------------------------------

/// Machine-limit side conditions for a swap.
pub open spec fn swap_args_ok(s: Store, amount_token: u128, price: u128) -> bool {
    (s.has_stable() && s.has_config()) ==> {
        &&& price > 0
        &&& amount_token * PRICE_SCALE <= u128::MAX
    }
}

/// What `Swap` does: burn `amount_token` synthetic tokens from the sender
/// and send back their collateral equivalent at the current price. The
/// collateral and debt ledgers are deliberately untouched — this is an open
/// redemption path for any token holder, not a debt repayment.
pub open spec fn swap_post(
    pre: Store,
    post: Store,
    sender: String,
    amount_token: u128,
    price: u128,
    r: Result<Response, ContractError>,
) -> bool {
    if !pre.has_stable() {
        r matches Err(e) && is_not_found(e) && post == pre
    } else if !pre.has_config() {
        r matches Err(e) && is_not_found(e) && post == pre
    } else {
        let equivalent = spec_usd_in_collateral(amount_token as int, price as int) as u128;
        &&& r matches Ok(resp) && resp.messages@.len() == 2 && is_burn_from(
            resp.messages@[0],
            pre.stable_token(),
            sender,
            amount_token,
        ) && is_send_native(resp.messages@[1], sender, equivalent) && resp.attributes@.len() == 0
        &&& post == pre
    }
}

/// Exchange synthetic tokens for native collateral at the oracle rate.
pub fn execute_swap(store: &mut Store, info: MessageInfo, amount_token: u128, price: u128) -> (r:
    Result<Response, ContractError>)
    requires
        swap_args_ok(*old(store), amount_token, price),
    ensures
        swap_post(*old(store), *final(store), info.sender, amount_token, price, r),
{
    let user = info.sender;
    let token = match &store.stable {
        Some(t) => t.clone(),
        None => {
            return Err(ContractError::Std(StdError::NotFound {}));
        },
    };
    if store.config.is_none() {
        return Err(ContractError::Std(StdError::NotFound {}));
    }
    let burn_msg = burn_stable(user.clone(), amount_token, token);
    let collateral_amount = calculate_usd_in_collateral(amount_token, price);
    let send_msg = send_native(user, collateral_amount);
    Ok(Response::new().add_message(burn_msg).add_message(send_msg))
}

// ------------------------------------------------------------------
// Dispatch
// ------------------------------------------------------------------

/// The machine-limit side conditions of whichever operation `msg` selects.
pub open spec fn execute_args_ok(s: Store, info: MessageInfo, price: u128, msg: ExecuteMsg) -> bool {
    match msg {
        ExecuteMsg::SetToken { .. } => true,
        ExecuteMsg::DepositCollateral {  } => deposit_args_ok(s, info.sender@, info.funds@),
        ExecuteMsg::DepositCollateralAndMint { token_amount } => deposit_mint_args_ok(
            s,
            info.sender@,
            info.funds@,
            token_amount,
            price,
        ),
        ExecuteMsg::BorrowTokens { token_amount } => borrow_args_ok(
            s,
            info.sender@,
            token_amount,
            price,
        ),
        ExecuteMsg::RedeemCollateral { amount } => redeem_args_ok(s, info.sender@, amount, price),
        ExecuteMsg::RedeemCollateralAndBurn { amount_collateral, amount_token } => redeem_burn_args_ok(
            s,
            info.sender@,
            amount_collateral,
            amount_token,
            price,
        ),
        ExecuteMsg::Repay { .. } => true,
        ExecuteMsg::Liquidate { user, amount_token } => liquidation_args_ok(
            s,
            user@,
            amount_token,
            price,
        ),
        ExecuteMsg::Swap { amount_token } => swap_args_ok(s, amount_token, price),
    }
}

/// The full description of whichever operation `msg` selects.
pub open spec fn execute_post(
    pre: Store,
    post: Store,
    info: MessageInfo,
    price: u128,
    msg: ExecuteMsg,
    r: Result<Response, ContractError>,
) -> bool {
    match msg {
        ExecuteMsg::SetToken { token } => set_token_post(pre, post, info.sender, token, r),
        ExecuteMsg::DepositCollateral {  } => deposit_post(pre, post, info.sender, info.funds@, r),
        ExecuteMsg::DepositCollateralAndMint { token_amount } => deposit_mint_post(
            pre,
            post,
            info.sender,
            info.funds@,
            token_amount,
            price,
            r,
        ),
        ExecuteMsg::BorrowTokens { token_amount } => borrow_post(
            pre,
            post,
            info.sender,
            token_amount,
            price,
            r,
        ),
        ExecuteMsg::RedeemCollateral { amount } => redeem_post(
            pre,
            post,
            info.sender,
            amount,
            price,
            r,
        ),
        ExecuteMsg::RedeemCollateralAndBurn { amount_collateral, amount_token } => redeem_burn_post(
            pre,
            post,
            info.sender,
            amount_collateral,
            amount_token,
            price,
            r,
        ),
        ExecuteMsg::Repay { token_amount } => repay_post(pre, post, info.sender, token_amount, r),
        ExecuteMsg::Liquidate { user, amount_token } => liquidation_post(
            pre,
            post,
            info.sender,
            user,
            amount_token,
            price,
            r,
        ),
        ExecuteMsg::Swap { amount_token } => swap_post(
            pre,
            post,
            info.sender,
            amount_token,
            price,
            r,
        ),
    }
}

/// Dispatch an inbound operation request. `price` is the oracle price the
/// host fetched for this operation; it is used by every operation that
/// values collateral.
pub fn execute(store: &mut Store, info: MessageInfo, price: u128, msg: ExecuteMsg) -> (r: Result<
    Response,
    ContractError,
>)
    requires
        execute_args_ok(*old(store), info, price, msg),
    ensures
        execute_post(*old(store), *final(store), info, price, msg, r),
{
    match msg {
        ExecuteMsg::SetToken { token } => execute_set_token(store, info, token),
        ExecuteMsg::DepositCollateral {  } => execute_deposit_collateral(store, info),
        ExecuteMsg::DepositCollateralAndMint { token_amount } => execute_deposit_collateral_mint(
            store,
            info,
            token_amount,
            price,
        ),
        ExecuteMsg::BorrowTokens { token_amount } => execute_borrow_tokens(
            store,
            info,
            token_amount,
            price,
        ),
        ExecuteMsg::RedeemCollateral { amount } => execute_redeem_collateral(
            store,
            info,
            amount,
            price,
        ),
        ExecuteMsg::RedeemCollateralAndBurn { amount_collateral, amount_token } => execute_redeem_collateral_burn(
            store,
            info,
            amount_collateral,
            amount_token,
            price,
        ),
        ExecuteMsg::Repay { token_amount } => execute_repay(store, info, token_amount),
        ExecuteMsg::Liquidate { user, amount_token } => execute_liquidation(
            store,
            info,
            user,
            amount_token,
            price,
        ),
        ExecuteMsg::Swap { amount_token } => execute_swap(store, info, amount_token, price),
    }
}

// ------------------------------------------------------------------
// Queries
// ------------------------------------------------------------------

/// Machine-limit side conditions for computing a user's health factor from
/// the stored position.
pub open spec fn info_args_ok(s: Store, user: Seq<char>, price: u128) -> bool {
    s.has_config() ==> {
        &&& map_or_zero(s.collateral(), user) * price <= u128::MAX
        &&& hf_args_ok(
            spec_collateral_usd(map_or_zero(s.collateral(), user) as int, price as int),
            map_or_zero(s.debt(), user) as int,
            s.cfg().liquidity_threashold as int,
        )
    }
}

/// What `Info{user}` answers: the stored position — absent entries read as
/// zero — and its health factor at the given price, or nothing when the
/// system is unconfigured.
pub open spec fn spec_info(s: Store, user: Seq<char>, price: u128) -> Option<InfoResponse> {
    if s.has_config() {
        Some(
            (InfoResponse {
                collateral_deposited: map_or_zero(s.collateral(), user),
                total_debt: map_or_zero(s.debt(), user),
                health_factor: spec_health_factor(
                    spec_collateral_usd(map_or_zero(s.collateral(), user) as int, price as int),
                    map_or_zero(s.debt(), user) as int,
                    s.cfg().liquidity_threashold as int,
                ) as u128,
            }),
        )
    } else {
        None
    }
}

/// A user's position: collateral deposited, total debt, and the current
/// health factor. Read-only — the result is a function of the store, the
/// user and the price alone.
pub fn query_info(store: &Store, user: String, price: u128) -> (r: Result<InfoResponse, StdError>)
    requires
        info_args_ok(*store, user@, price),
    ensures
        (match r {
            Ok(i) => spec_info(*store, user@, price) == Some(i),
            Err(e) => spec_info(*store, user@, price) is None && e is NotFound,
        }),
{
    let collateral_deposited = match store.collateral_deposited.get(&user) {
        Some(c) => c,
        None => 0,
    };
    let token_minted = match store.tokens_minted.get(&user) {
        Some(t) => t,
        None => 0,
    };
    let liquidity_threashold = match &store.config {
        Some(c) => c.liquidity_threashold,
        None => {
            return Err(StdError::NotFound {});
        },
    };
    let health_factor = calculate_health_factor(
        calculate_collateral_usd(collateral_deposited, price),
        token_minted,
        liquidity_threashold,
    );
    Ok(
        InfoResponse {
            collateral_deposited: collateral_deposited,
            total_debt: token_minted,
            health_factor: health_factor,
        },
    )
}

/// What `Config{}` answers over a configured store.
pub open spec fn config_response_ok(
    s: Store,
    total_collateral: u128,
    price: u128,
    c: ConfigResponse,
) -> bool {
    &&& c.owner == s.cfg().owner
    &&& c.total_collateral == total_collateral
    &&& c.oracle_price == price
    &&& c.fees == 10
    &&& c.liquidity_threashold == s.cfg().liquidity_threashold
}

/// The configuration view: owner, the contract's total native holdings (as
/// counted by the host), the current oracle price, the fixed fee value, and
/// the liquidation threshold.
pub fn query_config(store: &Store, total_collateral: u128, price: u128) -> (r: Result<
    ConfigResponse,
    StdError,
>)
    ensures
        (match r {
            Ok(c) => store.has_config() && config_response_ok(*store, total_collateral, price, c),
            Err(e) => !store.has_config() && e is NotFound,
        }),
{
    let config = match &store.config {
        Some(c) => c,
        None => {
            return Err(StdError::NotFound {});
        },
    };
    Ok(
        ConfigResponse {
            owner: config.owner.clone(),
            total_collateral: total_collateral,
            oracle_price: price,
            fees: 10,
            liquidity_threashold: config.liquidity_threashold,
        },
    )
}

/// Dispatch a read-only query. `total_collateral` is the contract's native
/// balance as counted by the host; `price` is the oracle price it fetched.
pub fn query(store: &Store, total_collateral: u128, price: u128, msg: QueryMsg) -> (r: Result<
    QueryResponse,
    StdError,
>)
    requires
        (msg matches QueryMsg::Info { user } ==> info_args_ok(*store, user@, price)),
    ensures
        (match msg {
            QueryMsg::Info { user } => (match r {
                Ok(qr) => qr matches QueryResponse::Info(i) && spec_info(*store, user@, price)
                    == Some(i),
                Err(e) => spec_info(*store, user@, price) is None && e is NotFound,
            }),
            QueryMsg::Config {  } => (match r {
                Ok(qr) => qr matches QueryResponse::Config(c) && store.has_config()
                    && config_response_ok(*store, total_collateral, price, c),
                Err(e) => !store.has_config() && e is NotFound,
            }),
        }),
{
    match msg {
        QueryMsg::Info { user } => (match query_info(store, user, price) {
            Ok(i) => Ok(QueryResponse::Info(i)),
            Err(e) => Err(e),
        }),
        QueryMsg::Config {  } => (match query_config(store, total_collateral, price) {
            Ok(c) => Ok(QueryResponse::Config(c)),
            Err(e) => Err(e),
        }),
    }
}

} // verus!
