//! Inbound requests, read-only queries, their responses, and the outbound
//! effects that an operation asks the host to execute.

use vstd::prelude::*;

verus! {

/// A native-asset amount attached to an inbound request.
#[derive(Clone, Debug)]
pub struct Coin {
    pub denom: String,
    pub amount: u128,
}

/// Sender identity and attached funds of an inbound request.
#[derive(Debug)]
pub struct MessageInfo {
    pub sender: String,
    pub funds: Vec<Coin>,
}

/// Initialization parameters. All are required; they are validated for
/// address well-formedness by the host, not for economic sanity.
#[derive(Debug)]
pub struct InstantiateMsg {
    pub owner: String,
    pub oracle: String,
    pub denom: String,
    pub min_threashold: u128,
    pub liquidity_threashold: u128,
}

/// The state-changing operation requests.
#[derive(Debug)]
pub enum ExecuteMsg {
    SetToken { token: String },
    DepositCollateral {},
    DepositCollateralAndMint { token_amount: u128 },
    BorrowTokens { token_amount: u128 },
    RedeemCollateral { amount: u128 },
    RedeemCollateralAndBurn { amount_collateral: u128, amount_token: u128 },
    Repay { token_amount: u128 },
    Liquidate { user: String, amount_token: u128 },
    Swap { amount_token: u128 },
}

/// The read-only queries.
#[derive(Debug)]
pub enum QueryMsg {
    Info { user: String },
    Config {},
}

/// A free-form response value.
#[derive(Debug)]
pub struct CustomResponse {
    val: String,
}

/// Answer to `Info{user}`: that user's position and its current solvency
/// score.
#[derive(Clone, Copy, Debug, PartialEq, Eq, Structural)]
pub struct InfoResponse {
    pub collateral_deposited: u128,
    pub total_debt: u128,
    pub health_factor: u128,
}

/// Answer to `Config{}`.
#[derive(Debug)]
pub struct ConfigResponse {
    pub owner: String,
    pub total_collateral: u128,
    pub oracle_price: u128,
    pub fees: u128,
    pub liquidity_threashold: u128,
}

/// The set of migration requests is empty: no entry point consumes this
/// type. It would be an uninhabited enum, but the verifier requires every
/// datatype to have a variant, so a fieldless struct stands in.
#[derive(Clone, Copy, Debug, PartialEq, Eq, Structural)]
pub struct MigrateMsg {}

/// Answer to a read-only query.
#[derive(Debug)]
pub enum QueryResponse {
    Config(ConfigResponse),
    Info(InfoResponse),
}

/// An outbound effect emitted by a successful operation. The host executes
/// these after the ledger commit; the core assumes they succeed.
#[derive(Debug)]
pub enum Effect {
    /// Ask the synthetic-token contract to mint `amount` for `recipient`.
    Mint { token: String, recipient: String, amount: u128 },
    /// Ask the synthetic-token contract to burn `amount` from `owner`.
    BurnFrom { token: String, owner: String, amount: u128 },
    /// Send `amount` of the native asset to `to_address`.
    SendNative { to_address: String, denom: String, amount: u128 },
}

/// `e` is a mint request for exactly these parties and amount.
pub open spec fn is_mint(e: Effect, token: String, recipient: String, amount: u128) -> bool {
    e matches Effect::Mint { token: t, recipient: r, amount: a } && t == token && r == recipient
        && a == amount
}

/// `e` is a burn request for exactly these parties and amount.
pub open spec fn is_burn_from(e: Effect, token: String, owner: String, amount: u128) -> bool {
    e matches Effect::BurnFrom { token: t, owner: o, amount: a } && t == token && o == owner
        && a == amount
}

/// `e` is a native transfer of exactly `amount` to `to`, in the fixed native
/// denomination.
pub open spec fn is_send_native(e: Effect, to: String, amount: u128) -> bool {
    e matches Effect::SendNative { to_address, denom, amount: a } && to_address == to && denom@
        == "uom"@ && a == amount
}

/// The successful result of an operation: informational attributes plus the
/// effects the host must dispatch, in order.
#[derive(Debug)]
pub struct Response {
    pub messages: Vec<Effect>,
    pub attributes: Vec<(String, String)>,
}

impl Response {
    /// A response with no effects and no attributes.
    pub fn new() -> (r: Response)
        ensures
            r.messages@ == Seq::<Effect>::empty(),
            r.attributes@ == Seq::<(String, String)>::empty(),
    {
        Response { messages: Vec::new(), attributes: Vec::new() }
    }

    /// Append one effect.
    pub fn add_message(self, msg: Effect) -> (r: Response)
        ensures
            r.messages@ == self.messages@.push(msg),
            r.attributes@ == self.attributes@,
    {
        let mut out = self;
        out.messages.push(msg);
        out
    }

    /// Append one informational attribute.
    pub fn add_attribute(self, key: String, value: String) -> (r: Response)
        ensures
            r.messages@ == self.messages@,
            r.attributes@ == self.attributes@.push((key, value)),
    {
        let mut out = self;
        out.attributes.push((key, value));
        out
    }
}

} // verus!
