//! The call surface: request and response records, and the plain values the
//! host adapter hands in (attached funds, queried balances, tax parameters)
//! and carries out (transfer instructions).

use vstd::prelude::*;

verus! {

use crate::math::Decimal;
use crate::state::Addr;
use crate::state::Config;

/// One amount of one denomination.
#[derive(Clone, Debug, PartialEq)]
pub struct Coin {
    pub denom: String,
    pub amount: u128,
}

/// Builds a coin, amount first, as the test fixtures write them.
pub fn coin(amount: u128, denom: &str) -> (c: Coin)
    ensures
        c.amount == amount,
        c.denom@ == denom@,
{
    Coin { denom: denom.to_owned(), amount }
}

/// One outgoing value transfer, queued for the host's bank to execute after
/// the call commits.
#[derive(Clone, Debug, PartialEq)]
pub struct Transfer {
    pub to_address: String,
    pub amount: u128,
    pub denom: String,
}

/// Who called, and the funds attached to the call; both are supplied by the
/// host envelope, the sender already validated.
#[derive(Clone, Debug, PartialEq)]
pub struct MessageInfo {
    pub sender: Addr,
    pub funds: Vec<Coin>,
}

/// The chain's transfer-tax parameters for one denomination, as the host's
/// treasury reports them: a rate, and a cap per transfer. A chain without a
/// transfer tax supplies no `TaxInfo` at all.
#[derive(Clone, Copy, Debug, PartialEq)]
pub struct TaxInfo {
    pub rate: Decimal,
    pub cap: u128,
}

/// Facts only the host can report, queried by the adapter just before the
/// call: the contract's own bank balance of the denomination the message
/// names, and the tax parameters for that denomination.
#[derive(Clone, Debug, PartialEq)]
pub struct HostInfo {
    pub contract_balance: u128,
    pub tax: Option<TaxInfo>,
}

#[derive(Clone, Debug, PartialEq)]
pub struct MigrateMsg {}

/// A whitelist entry as callers write it: the address still a raw string.
#[derive(Clone, Debug, PartialEq)]
pub struct Whitelist {
    pub address: String,
    pub protocol: String,
}

/// A weight entry as callers write it.
#[derive(Clone, Debug, PartialEq)]
pub struct WeightPerProtocol {
    pub protocol: String,
    pub weight: Decimal,
}

#[derive(Clone, Debug, PartialEq)]
pub struct InstantiateMsg {
    pub admin: String,
    pub burn_address: String,
    pub developer_address: Option<String>,
    pub whitelist: Vec<Whitelist>,
    pub weight_per_protocol: Vec<WeightPerProtocol>,
}

#[derive(Clone, Debug, PartialEq)]
pub enum ExecuteMsg {
    /// Credit the attached funds to the sender's ledger entry.
    Deposit {},
    /// Pay out part or (with no amount) all of the sender's stored balance.
    Withdraw { amount: Option<u128>, denom: String },
    /// Split the contract's balance of `denom` into burn, developer and
    /// whitelist transfers.
    Distribute { denom: String },
    /// Patch the configuration; absent fields are left unchanged.
    UpdateConfig {
        admin: Option<String>,
        burn_address: Option<String>,
        developer_address: Option<String>,
        whitelist: Option<Vec<Whitelist>>,
        weight_per_protocol: Option<Vec<WeightPerProtocol>>,
    },
    /// Burn the contract's whole balance of `denom` once it has reached the
    /// given threshold; below it, do nothing.
    BurnTheBottom { minimum_threshold: u128, denom: String },
}

#[derive(Clone, Debug, PartialEq)]
pub enum QueryMsg {
    Config {},
    Deposit { address: String, denom: String },
}

#[derive(Clone, Debug, PartialEq)]
pub enum QueryResponse {
    Config(Config),
    Deposit(Coin),
}

} // verus!
