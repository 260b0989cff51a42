//! The contract's operations: instantiation, deposits, withdrawals,
//! distribution, configuration updates and queries, each a function from
//! plain values to plain values with an exact contract.
//!
//! The host adapter performs the storage, bank and treasury traffic: it loads
//! the state, queries balances and tax parameters, calls one function here,
//! then saves the returned state and enqueues the returned transfers. Every
//! decision and every amount is computed, and verified, in this module.

use vstd::prelude::*;

verus! {

use crate::error::ContractError;
use crate::math::{dec_mul, decimal_times, multiply_ratio, Decimal, DECIMAL_FRACTIONAL};
use crate::msg::{
    Coin, ExecuteMsg, HostInfo, InstantiateMsg, MessageInfo, MigrateMsg, QueryMsg, QueryResponse,
    TaxInfo, Transfer,
};
use crate::state::{str_eq, valid_addr, Addr, Config, Deposits, WeightPerProtocol, Whitelist};

// ---------------------------------------------------------------------------
// Address validation
// ---------------------------------------------------------------------------

/// Validates an address token, as the identity collaborator would.
pub fn addr_validate(input: &str) -> (r: Result<Addr, ContractError>)
    ensures
        r is Ok <==> valid_addr(input@),
        r matches Ok(a) ==> a@ == input@,
        r matches Err(e) ==> e == (ContractError::InvalidAddress {}),
{
    if input.is_empty() {
        Err(ContractError::InvalidAddress {})
    } else {
        Ok(Addr(input.to_owned()))
    }
}

// ---------------------------------------------------------------------------
// Tax deduction
// ---------------------------------------------------------------------------

/// The chain tax levied on a transfer of `amount`: the amount minus what a
/// recipient keeps of it under `rate`, capped at `cap`.
pub open spec fn tax_of(amount: u128, rate: Decimal, cap: u128) -> int {
    let kept = (amount as int * DECIMAL_FRACTIONAL as int) / (rate.atomics as int
        + DECIMAL_FRACTIONAL as int);
    if amount - kept <= cap {
        amount - kept
    } else {
        cap as int
    }
}

/// What remains of `amount` after the tax deduction the host parameters call
/// for; with no tax parameters, the amount itself.
pub open spec fn net_of(amount: u128, tax: Option<TaxInfo>) -> int {
    match tax {
        Option::None => amount as int,
        Option::Some(t) => amount - tax_of(amount, t.rate, t.cap),
    }
}

/// Tax parameters are well-formed when the rate is a share of the amount.
pub open spec fn tax_wf(tax: Option<TaxInfo>) -> bool {
    tax matches Some(t) ==> t.rate.le_one()
}

/// The tax for transferring `amount` of a native token under the chain's
/// `rate` and `cap`. The tax never exceeds the amount itself.
pub fn compute_tax(amount: u128, rate: Decimal, cap: u128) -> (tax: u128)
    requires
        rate.le_one(),
    ensures
        tax == tax_of(amount, rate, cap),
        tax <= amount,
{
    let denominator = rate.atomics + DECIMAL_FRACTIONAL;
    let kept = multiply_ratio(amount, DECIMAL_FRACTIONAL, denominator);
    let uncapped = amount - kept;
    if uncapped <= cap {
        uncapped
    } else {
        cap
    }
}

/// A copy of `coin` with the transfer tax deducted from its amount.
pub fn deduct_tax(coin: &Coin, rate: Decimal, cap: u128) -> (r: Coin)
    requires
        rate.le_one(),
    ensures
        r.denom@ == coin.denom@,
        r.amount == coin.amount - tax_of(coin.amount, rate, cap),
{
    let tax = compute_tax(coin.amount, rate, cap);
    Coin { denom: coin.denom.clone(), amount: coin.amount - tax }
}

/// The net amount of a transfer after the deduction the host parameters call
/// for.
fn net_transfer_amount(amount: u128, tax: &Option<TaxInfo>) -> (r: u128)
    requires
        tax_wf(*tax),
    ensures
        r == net_of(amount, *tax),
        r <= amount,
{
    match tax {
        Option::None => amount,
        Option::Some(t) => amount - compute_tax(amount, t.rate, t.cap),
    }
}

// ---------------------------------------------------------------------------
// Weight lookup
// ---------------------------------------------------------------------------

/// The weight assigned to `protocol`: the first matching entry of the weight
/// table, or nothing when the table has none.
pub open spec fn weight_of(ws: Seq<WeightPerProtocol>, protocol: Seq<char>) -> Option<Decimal>
    decreases ws.len(),
{
    if ws.len() == 0 {
        Option::None
    } else if ws[0].protocol@ == protocol {
        Option::Some(ws[0].weight)
    } else {
        weight_of(ws.drop_first(), protocol)
    }
}

/// Every whitelisted protocol has an assigned weight: the invariant checked
/// at distribution time.
pub open spec fn all_protocols_weighted(wl: Seq<Whitelist>, ws: Seq<WeightPerProtocol>) -> bool {
    forall|i: int| 0 <= i < wl.len() ==> weight_of(ws, (#[trigger] wl[i]).protocol@) is Some
}

/// The protocol name of the first whitelist entry without a weight; only
/// meaningful when some entry has none.
pub open spec fn first_missing_protocol(wl: Seq<Whitelist>, ws: Seq<WeightPerProtocol>) -> Seq<
    char,
>
    decreases wl.len(),
{
    if wl.len() == 0 {
        Seq::empty()
    } else if weight_of(ws, wl[0].protocol@) is None {
        wl[0].protocol@
    } else {
        first_missing_protocol(wl.drop_first(), ws)
    }
}

proof fn lemma_weight_of_first(ws: Seq<WeightPerProtocol>, i: int, protocol: Seq<char>)
    requires
        0 <= i < ws.len(),
        ws[i].protocol@ == protocol,
        forall|j: int| 0 <= j < i ==> (#[trigger] ws[j]).protocol@ != protocol,
    ensures
        weight_of(ws, protocol) == Option::Some(ws[i].weight),
    decreases i,
{
    if i > 0 {
        assert(ws.drop_first()[i - 1] == ws[i]);
        assert(forall|j: int| 0 <= j < i - 1 ==> ws.drop_first()[j] == ws[j + 1]);
        lemma_weight_of_first(ws.drop_first(), i - 1, protocol);
    }
}

proof fn lemma_weight_of_absent(ws: Seq<WeightPerProtocol>, protocol: Seq<char>)
    requires
        forall|j: int| 0 <= j < ws.len() ==> (#[trigger] ws[j]).protocol@ != protocol,
    ensures
        weight_of(ws, protocol) is None,
    decreases ws.len(),
{
    if ws.len() > 0 {
        assert(forall|j: int| 0 <= j < ws.len() - 1 ==> ws.drop_first()[j] == ws[j + 1]);
        lemma_weight_of_absent(ws.drop_first(), protocol);
    }
}

proof fn lemma_first_missing(wl: Seq<Whitelist>, ws: Seq<WeightPerProtocol>, i: int)
    requires
        0 <= i < wl.len(),
        forall|j: int| 0 <= j < i ==> weight_of(ws, (#[trigger] wl[j]).protocol@) is Some,
        weight_of(ws, wl[i].protocol@) is None,
    ensures
        first_missing_protocol(wl, ws) == wl[i].protocol@,
    decreases i,
{
    if i > 0 {
        assert(wl.drop_first()[i - 1] == wl[i]);
        assert(forall|j: int| 0 <= j < i - 1 ==> wl.drop_first()[j] == wl[j + 1]);
        lemma_first_missing(wl.drop_first(), ws, i - 1);
    }
}

/// Looks up the weight assigned to `protocol`. A found weight is one of the
/// stored entries, so a well-formed table hands back a share in `[0, 1]`.
fn find_weight(ws: &Vec<WeightPerProtocol>, protocol: &str) -> (r: Option<Decimal>)
    ensures
        r == weight_of(ws@, protocol@),
        r matches Some(w) ==> exists|k: int| 0 <= k < ws@.len() && w == (#[trigger] ws@[k]).weight,
{
    let n = ws.len();
    let mut i: usize = 0;
    while i < n
        invariant
            n == ws@.len(),
            0 <= i <= n,
            forall|j: int| 0 <= j < i ==> (#[trigger] ws@[j]).protocol@ != protocol@,
        decreases n - i,
    {
        let entry = &ws[i];
        if str_eq(entry.protocol.as_str(), protocol) {
            proof {
                lemma_weight_of_first(ws@, i as int, protocol@);
            }
            return Some(entry.weight);
        }
        i = i + 1;
    }
    proof {
        lemma_weight_of_absent(ws@, protocol@);
    }
    None
}

// ---------------------------------------------------------------------------
// Instantiation
// ---------------------------------------------------------------------------

/// The burn split fixed at instantiation: 70% with a developer configured,
/// 77.78% without.
pub open spec fn spec_percent_to_burn(has_developer: bool) -> Decimal {
    if has_developer {
        Decimal { atomics: 700_000_000_000_000_000 }
    } else {
        Decimal { atomics: 777_800_000_000_000_000 }
    }
}

/// The developer split fixed at instantiation: 10% with a developer
/// configured, zero without.
pub open spec fn spec_percent_to_developer(has_developer: bool) -> Decimal {
    if has_developer {
        Decimal { atomics: 100_000_000_000_000_000 }
    } else {
        Decimal { atomics: 0 }
    }
}

/// The distribution split fixed at instantiation: 20% with a developer
/// configured, 22.22% without.
pub open spec fn spec_percent_to_distribute(has_developer: bool) -> Decimal {
    if has_developer {
        Decimal { atomics: 200_000_000_000_000_000 }
    } else {
        Decimal { atomics: 222_200_000_000_000_000 }
    }
}

/// Instantiation succeeds exactly when every supplied address token is
/// valid. The admin field is stored as given, without validation: an empty
/// string deliberately creates a configuration frozen from birth.
pub open spec fn instantiate_ok(msg: InstantiateMsg) -> bool {
    &&& valid_addr(msg.burn_address@)
    &&& (msg.developer_address matches Some(s) ==> valid_addr(s@))
    &&& (forall|i: int|
        0 <= i < msg.whitelist@.len() ==> valid_addr((#[trigger] msg.whitelist@[i]).address@))
}

/// The configuration produced by a successful instantiation: the message's
/// fields carried over, and the split percentages fixed by whether a
/// developer address was configured.
pub open spec fn instantiated(msg: InstantiateMsg, c: Config) -> bool {
    &&& c.admin@ == msg.admin@
    &&& c.burn_address@ == msg.burn_address@
    &&& (match msg.developer_address {
        Option::None => c.developer_address is None,
        Option::Some(s) => c.developer_address matches Some(a) && a@ == s@,
    })
    &&& c.whitelist@.len() == msg.whitelist@.len()
    &&& (forall|i: int|
        0 <= i < msg.whitelist@.len() ==> (#[trigger] c.whitelist@[i]).address@
            == msg.whitelist@[i].address@ && c.whitelist@[i].protocol@
            == msg.whitelist@[i].protocol@)
    &&& c.weight_per_protocol@.len() == msg.weight_per_protocol@.len()
    &&& (forall|i: int|
        0 <= i < msg.weight_per_protocol@.len() ==> (#[trigger] c.weight_per_protocol@[i]).protocol@
            == msg.weight_per_protocol@[i].protocol@ && c.weight_per_protocol@[i].weight
            == msg.weight_per_protocol@[i].weight)
    &&& c.percent_to_burn == spec_percent_to_burn(msg.developer_address is Some)
    &&& c.percent_to_developer == spec_percent_to_developer(msg.developer_address is Some)
    &&& c.percent_to_distribute == spec_percent_to_distribute(msg.developer_address is Some)
}

/// Creates the configuration record. Weights are shares of the distributable
/// amount, so each supplied weight must be at most one.
pub fn instantiate(msg: InstantiateMsg) -> (r: Result<Config, ContractError>)
    requires
        forall|i: int|
            0 <= i < msg.weight_per_protocol@.len() ==> (#[trigger] msg.weight_per_protocol@[i]).weight.le_one(),
    ensures
        r is Ok <==> instantiate_ok(msg),
        r matches Ok(c) ==> instantiated(msg, c) && c.wf(),
        r matches Err(e) ==> e == (ContractError::InvalidAddress {}),
{
    let mut whitelist: Vec<Whitelist> = Vec::new();
    let wl_len = msg.whitelist.len();
    let mut i: usize = 0;
    while i < wl_len
        invariant
            wl_len == msg.whitelist@.len(),
            0 <= i <= wl_len,
            whitelist@.len() == i,
            forall|j: int|
                0 <= j < i ==> (#[trigger] whitelist@[j]).address@ == msg.whitelist@[j].address@
                    && whitelist@[j].protocol@ == msg.whitelist@[j].protocol@,
            forall|j: int| 0 <= j < i ==> valid_addr((#[trigger] msg.whitelist@[j]).address@),
        decreases wl_len - i,
    {
        let entry = &msg.whitelist[i];
        match addr_validate(entry.address.as_str()) {
            Ok(address) => {
                whitelist.push(Whitelist { address, protocol: entry.protocol.clone() });
            },
            Err(e) => {
                return Err(e);
            },
        }
        i = i + 1;
    }
    let mut weight_per_protocol: Vec<WeightPerProtocol> = Vec::new();
    let ws_len = msg.weight_per_protocol.len();
    let mut k: usize = 0;
    while k < ws_len
        invariant
            ws_len == msg.weight_per_protocol@.len(),
            0 <= k <= ws_len,
            weight_per_protocol@.len() == k,
            forall|j: int|
                0 <= j < k ==> (#[trigger] weight_per_protocol@[j]).protocol@
                    == msg.weight_per_protocol@[j].protocol@ && weight_per_protocol@[j].weight
                    == msg.weight_per_protocol@[j].weight,
        decreases ws_len - k,
    {
        let entry = &msg.weight_per_protocol[k];
        weight_per_protocol.push(
            WeightPerProtocol { protocol: entry.protocol.clone(), weight: entry.weight },
        );
        k = k + 1;
    }
    let burn_address = match addr_validate(msg.burn_address.as_str()) {
        Ok(a) => a,
        Err(e) => {
            return Err(e);
        },
    };
    let developer_address: Option<Addr> = match &msg.developer_address {
        Option::None => Option::None,
        Option::Some(s) => match addr_validate(s.as_str()) {
            Ok(a) => Option::Some(a),
            Err(e) => {
                return Err(e);
            },
        },
    };
    let has_developer = match &developer_address {
        Option::Some(_) => true,
        Option::None => false,
    };
    let percent_to_burn = if has_developer {
        Decimal::percent(70)
    } else {
        Decimal::from_ratio(7778, 10000)
    };
    let percent_to_developer = if has_developer {
        Decimal::percent(10)
    } else {
        Decimal::zero()
    };
    let percent_to_distribute = if has_developer {
        Decimal::percent(20)
    } else {
        Decimal::from_ratio(2222, 10000)
    };
    Ok(
        Config {
            admin: msg.admin,
            burn_address,
            developer_address,
            whitelist,
            weight_per_protocol,
            percent_to_burn,
            percent_to_developer,
            percent_to_distribute,
        },
    )
}

// ---------------------------------------------------------------------------
// Deposit and withdraw
// ---------------------------------------------------------------------------

/// The denominations the contract accepts for deposits: the two native
/// tokens.
pub open spec fn supported_denom(denom: Seq<char>) -> bool {
    denom == "uluna"@ || denom == "uusd"@
}

/// What a deposit call does, relating the ledger before and after to the
/// result: exactly one attached coin of an accepted denomination is credited
/// to the sender's entry, and every failure leaves the ledger untouched.
pub open spec fn deposit_post(
    pre: Deposits,
    post: Deposits,
    sender: Seq<char>,
    funds: Seq<Coin>,
    r: Result<(), ContractError>,
) -> bool {
    if funds.len() != 1 {
        r == Err::<(), ContractError>(ContractError::DepositMoreThenOne {}) && post == pre
    } else if !supported_denom(funds[0].denom@) {
        &&& r matches Err(e) && e matches ContractError::UnsupportedDenom(d) && d@
            == funds[0].denom@
        &&& post == pre
    } else if pre.balance(sender, funds[0].denom@) + funds[0].amount > u128::MAX {
        r == Err::<(), ContractError>(ContractError::Overflow {}) && post == pre
    } else {
        &&& r is Ok
        &&& post.balance(sender, funds[0].denom@) == pre.balance(sender, funds[0].denom@)
            + funds[0].amount
        &&& (forall|a: Seq<char>, dn: Seq<char>|
            !(a == sender && dn == funds[0].denom@) ==> post.balance(a, dn) == pre.balance(a, dn))
    }
}

/// Credits the attached funds to the sender's ledger entry.
pub fn deposit(deposits: &mut Deposits, info: &MessageInfo) -> (r: Result<(), ContractError>)
    ensures
        deposit_post(*old(deposits), *final(deposits), info.sender@, info.funds@, r),
{
    if info.funds.len() != 1 {
        return Err(ContractError::DepositMoreThenOne {});
    }
    let fund = &info.funds[0];
    if !(str_eq(fund.denom.as_str(), "uluna") || str_eq(fund.denom.as_str(), "uusd")) {
        return Err(ContractError::UnsupportedDenom(fund.denom.clone()));
    }
    let sender = info.sender.as_str();
    let balance = deposits.balance_of(sender, fund.denom.as_str());
    if fund.amount > u128::MAX - balance {
        return Err(ContractError::Overflow {});
    }
    deposits.set_balance(sender, fund.denom.as_str(), balance + fund.amount);
    Ok(())
}

/// What a withdraw call does: with no amount, the whole stored balance is
/// paid out; a zero balance or an amount above the balance fails without
/// touching the ledger or emitting a transfer.
pub open spec fn withdraw_post(
    pre: Deposits,
    post: Deposits,
    sender: Seq<char>,
    amount: Option<u128>,
    denom: Seq<char>,
    r: Result<Transfer, ContractError>,
) -> bool {
    let balance = pre.balance(sender, denom);
    let want = match amount {
        Option::None => balance,
        Option::Some(w) => w,
    };
    if balance == 0 {
        r == Err::<Transfer, ContractError>(ContractError::NoBalance {}) && post == pre
    } else if want > balance {
        r == Err::<Transfer, ContractError>(ContractError::Underflow {}) && post == pre
    } else {
        &&& r matches Ok(t) && t.to_address@ == sender && t.denom@ == denom && t.amount == want
        &&& post.balance(sender, denom) == balance - want
        &&& (forall|a: Seq<char>, dn: Seq<char>|
            !(a == sender && dn == denom) ==> post.balance(a, dn) == pre.balance(a, dn))
    }
}

/// Pays out part or all of the sender's stored balance as one transfer.
pub fn withdraw(
    deposits: &mut Deposits,
    sender: &Addr,
    amount: Option<u128>,
    denom: String,
) -> (r: Result<Transfer, ContractError>)
    ensures
        withdraw_post(*old(deposits), *final(deposits), sender@, amount, denom@, r),
{
    let balance = deposits.balance_of(sender.as_str(), denom.as_str());
    if balance == 0 {
        return Err(ContractError::NoBalance {});
    }
    let want = match amount {
        Option::None => balance,
        Option::Some(w) => w,
    };
    if want > balance {
        return Err(ContractError::Underflow {});
    }
    deposits.set_balance(sender.as_str(), denom.as_str(), balance - want);
    Ok(Transfer { to_address: sender.0.clone(), amount: want, denom })
}

// ---------------------------------------------------------------------------
// Distribution
// ---------------------------------------------------------------------------

/// The share of `balance` that the fraction `d` names, truncated.
pub open spec fn share_of(balance: u128, d: Decimal) -> u128 {
    dec_mul(balance, d) as u128
}

/// The transfer list a successful distribution emits, in order: the burn
/// transfer, the developer transfer when a developer is configured, then one
/// transfer per whitelist entry in list order, each weighted by its
/// protocol's share of the distributable amount and taxed as the host
/// parameters call for.
pub open spec fn distribute_transfers_ok(
    c: Config,
    balance: u128,
    denom: Seq<char>,
    tax: Option<TaxInfo>,
    ts: Seq<Transfer>,
) -> bool {
    let offset: int = if c.developer_address is Some {
        2
    } else {
        1
    };
    &&& ts.len() == offset + c.whitelist@.len()
    &&& ts[0].to_address@ == c.burn_address@
    &&& ts[0].denom@ == denom
    &&& ts[0].amount == net_of(share_of(balance, c.percent_to_burn), tax)
    &&& (c.developer_address matches Some(a) ==> ts[1].to_address@ == a@ && ts[1].denom@ == denom
        && ts[1].amount == net_of(share_of(balance, c.percent_to_developer), tax))
    &&& (forall|i: int|
        #![trigger c.whitelist@[i]]
        0 <= i < c.whitelist@.len() ==> {
            &&& ts[offset + i].to_address@ == c.whitelist@[i].address@
            &&& ts[offset + i].denom@ == denom
            &&& (weight_of(c.weight_per_protocol@, c.whitelist@[i].protocol@) matches Some(w)
                && ts[offset + i].amount == net_of(
                share_of(share_of(balance, c.percent_to_distribute), w),
                tax,
            ))
        })
}

/// What a distribute call does: it fails on a zero balance, fails naming the
/// first unweighted protocol when the configuration is inconsistent — with
/// no transfers in either case — and otherwise emits the full transfer list.
pub open spec fn distribute_post(
    c: Config,
    balance: u128,
    denom: Seq<char>,
    tax: Option<TaxInfo>,
    r: Result<Seq<Transfer>, ContractError>,
) -> bool {
    if balance == 0 {
        r == Err::<Seq<Transfer>, ContractError>(ContractError::NoBalance {})
    } else if !all_protocols_weighted(c.whitelist@, c.weight_per_protocol@) {
        r matches Err(e) && e matches ContractError::MissingProtocol(p) && p@
            == first_missing_protocol(c.whitelist@, c.weight_per_protocol@)
    } else {
        r matches Ok(ts) && distribute_transfers_ok(c, balance, denom, tax, ts)
    }
}

/// Splits the contract's balance of `denom` into the configured burn,
/// developer and whitelist transfers. The balance is what the host's bank
/// reports for the contract; the ledger is not touched.
pub fn distribute(
    config: &Config,
    balance: u128,
    denom: String,
    tax: &Option<TaxInfo>,
) -> (r: Result<Vec<Transfer>, ContractError>)
    requires
        config.wf(),
        tax_wf(*tax),
    ensures
        distribute_post(
            *config,
            balance,
            denom@,
            *tax,
            (match r {
                Ok(ts) => Ok::<Seq<Transfer>, ContractError>(ts@),
                Err(e) => Err::<Seq<Transfer>, ContractError>(e),
            }),
        ),
{
    if balance == 0 {
        return Err(ContractError::NoBalance {});
    }
    let mut transfers: Vec<Transfer> = Vec::new();
    let burn_gross = decimal_times(balance, config.percent_to_burn);
    transfers.push(
        Transfer {
            to_address: config.burn_address.0.clone(),
            amount: net_transfer_amount(burn_gross, tax),
            denom: denom.clone(),
        },
    );
    match &config.developer_address {
        Option::Some(a) => {
            let developer_gross = decimal_times(balance, config.percent_to_developer);
            transfers.push(
                Transfer {
                    to_address: a.0.clone(),
                    amount: net_transfer_amount(developer_gross, tax),
                    denom: denom.clone(),
                },
            );
        },
        Option::None => {},
    }
    let offset = transfers.len();
    let amount_to_distribute = decimal_times(balance, config.percent_to_distribute);
    let wl_len = config.whitelist.len();
    let mut i: usize = 0;
    while i < wl_len
        invariant
            config.wf(),
            tax_wf(*tax),
            balance > 0,
            wl_len == config.whitelist@.len(),
            0 <= i <= wl_len,
            offset == (if config.developer_address is Some {
                2int
            } else {
                1int
            }),
            transfers@.len() == offset + i,
            amount_to_distribute == share_of(balance, config.percent_to_distribute),
            transfers@[0].to_address@ == config.burn_address@,
            transfers@[0].denom@ == denom@,
            transfers@[0].amount == net_of(share_of(balance, config.percent_to_burn), *tax),
            (config.developer_address matches Some(a) ==> transfers@[1].to_address@ == a@
                && transfers@[1].denom@ == denom@ && transfers@[1].amount == net_of(
                share_of(balance, config.percent_to_developer),
                *tax,
            )),
            forall|j: int|
                #![trigger config.whitelist@[j]]
                0 <= j < i ==> {
                    &&& transfers@[offset + j].to_address@ == config.whitelist@[j].address@
                    &&& transfers@[offset + j].denom@ == denom@
                    &&& (weight_of(
                        config.weight_per_protocol@,
                        config.whitelist@[j].protocol@,
                    ) matches Some(w) && transfers@[offset + j].amount == net_of(
                        share_of(share_of(balance, config.percent_to_distribute), w),
                        *tax,
                    ))
                },
        decreases wl_len - i,
    {
        let wl = &config.whitelist[i];
        match find_weight(&config.weight_per_protocol, wl.protocol.as_str()) {
            Option::None => {
                proof {
                    assert(weight_of(
                        config.weight_per_protocol@,
                        config.whitelist@[i as int].protocol@,
                    ) is None);
                    assert(!all_protocols_weighted(
                        config.whitelist@,
                        config.weight_per_protocol@,
                    ));
                    lemma_first_missing(config.whitelist@, config.weight_per_protocol@, i as int);
                }
                return Err(ContractError::MissingProtocol(wl.protocol.clone()));
            },
            Option::Some(w) => {
                proof {
                    let k = choose|k: int|
                        0 <= k < config.weight_per_protocol@.len() && w == (
                        #[trigger] config.weight_per_protocol@[k]).weight;
                    assert(config.weight_per_protocol@[k].weight.le_one());
                }
                let payout = decimal_times(amount_to_distribute, w);
                transfers.push(
                    Transfer {
                        to_address: wl.address.0.clone(),
                        amount: net_transfer_amount(payout, tax),
                        denom: denom.clone(),
                    },
                );
            },
        }
        i = i + 1;
    }
    Ok(transfers)
}

/// What a burn-the-bottom call does: below the threshold nothing happens and
/// the call still succeeds; at or above it, one transfer burns the whole
/// balance, net of tax.
pub open spec fn burn_post(
    c: Config,
    balance: u128,
    minimum_threshold: u128,
    denom: Seq<char>,
    tax: Option<TaxInfo>,
    r: Result<Seq<Transfer>, ContractError>,
) -> bool {
    if balance < minimum_threshold {
        r matches Ok(ts) && ts.len() == 0
    } else {
        &&& r matches Ok(ts) && ts.len() == 1 && ts[0].to_address@ == c.burn_address@
            && ts[0].denom@ == denom && ts[0].amount == net_of(balance, tax)
    }
}

/// Burns the contract's whole balance of `denom` once it has reached the
/// threshold; below it the call is a deliberate no-op, not an error.
pub fn burn_the_bottom(
    config: &Config,
    balance: u128,
    minimum_threshold: u128,
    denom: String,
    tax: &Option<TaxInfo>,
) -> (r: Result<Vec<Transfer>, ContractError>)
    requires
        tax_wf(*tax),
    ensures
        burn_post(
            *config,
            balance,
            minimum_threshold,
            denom@,
            *tax,
            (match r {
                Ok(ts) => Ok::<Seq<Transfer>, ContractError>(ts@),
                Err(e) => Err::<Seq<Transfer>, ContractError>(e),
            }),
        ),
{
    let mut transfers: Vec<Transfer> = Vec::new();
    if balance < minimum_threshold {
        return Ok(transfers);
    }
    transfers.push(
        Transfer {
            to_address: config.burn_address.0.clone(),
            amount: net_transfer_amount(balance, tax),
            denom,
        },
    );
    Ok(transfers)
}

// ---------------------------------------------------------------------------
// Configuration update
// ---------------------------------------------------------------------------

/// Every address in a supplied whitelist is a valid token.
pub open spec fn whitelist_addrs_valid(wl: Seq<crate::msg::Whitelist>) -> bool {
    forall|i: int| 0 <= i < wl.len() ==> valid_addr((#[trigger] wl[i]).address@)
}

/// Every address token supplied to a configuration update is valid.
pub open spec fn update_inputs_valid(
    burn_address: Option<String>,
    developer_address: Option<String>,
    whitelist: Option<Seq<crate::msg::Whitelist>>,
) -> bool {
    &&& (match burn_address {
        Option::Some(b) => valid_addr(b@),
        Option::None => true,
    })
    &&& (match developer_address {
        Option::Some(s) => valid_addr(s@),
        Option::None => true,
    })
    &&& (match whitelist {
        Option::Some(wl) => whitelist_addrs_valid(wl),
        Option::None => true,
    })
}

/// What a configuration update does. Checked in order: a frozen
/// configuration (empty admin field) rejects every update; a caller other
/// than the admin is unauthorized; an invalid supplied address rejects the
/// whole patch. Otherwise each supplied field replaces the stored one
/// wholesale — including an empty admin string, the deliberate, irreversible
/// self-lockout — and absent fields stay as they were. Every failure leaves
/// the configuration untouched.
pub open spec fn update_config_post(
    pre: Config,
    post: Config,
    sender: Seq<char>,
    admin: Option<String>,
    burn_address: Option<String>,
    developer_address: Option<String>,
    whitelist: Option<Seq<crate::msg::Whitelist>>,
    weight_per_protocol: Option<Seq<crate::msg::WeightPerProtocol>>,
    r: Result<(), ContractError>,
) -> bool {
    if pre.frozen() {
        r == Err::<(), ContractError>(ContractError::ConfigNotUpdatable {}) && post == pre
    } else if pre.admin@ != sender {
        r == Err::<(), ContractError>(ContractError::Unauthorized {}) && post == pre
    } else if !update_inputs_valid(burn_address, developer_address, whitelist) {
        r == Err::<(), ContractError>(ContractError::InvalidAddress {}) && post == pre
    } else {
        &&& r is Ok
        &&& post.admin@ == (match admin {
            Option::Some(a) => a@,
            Option::None => pre.admin@,
        })
        &&& (match burn_address {
            Option::Some(b) => post.burn_address@ == b@,
            Option::None => post.burn_address == pre.burn_address,
        })
        &&& (match developer_address {
            Option::Some(s) => post.developer_address matches Some(a) && a@ == s@,
            Option::None => post.developer_address == pre.developer_address,
        })
        &&& (match whitelist {
            Option::Some(wl) => post.whitelist@.len() == wl.len() && forall|i: int|
                0 <= i < wl.len() ==> (#[trigger] post.whitelist@[i]).address@ == wl[i].address@
                    && post.whitelist@[i].protocol@ == wl[i].protocol@,
            Option::None => post.whitelist == pre.whitelist,
        })
        &&& (match weight_per_protocol {
            Option::Some(ws) => post.weight_per_protocol@.len() == ws.len() && forall|i: int|
                0 <= i < ws.len() ==> (#[trigger] post.weight_per_protocol@[i]).protocol@
                    == ws[i].protocol@ && post.weight_per_protocol@[i].weight == ws[i].weight,
            Option::None => post.weight_per_protocol == pre.weight_per_protocol,
        })
        &&& post.percent_to_burn == pre.percent_to_burn
        &&& post.percent_to_developer == pre.percent_to_developer
        &&& post.percent_to_distribute == pre.percent_to_distribute
    }
}

/// Patches the configuration, gated on the admin. Supplied weights are
/// shares of the distributable amount, so each must be at most one.
#[verifier::loop_isolation(false)]
pub fn update_config(
    config: &mut Config,
    sender: &Addr,
    admin: Option<String>,
    burn_address: Option<String>,
    developer_address: Option<String>,
    whitelist: Option<Vec<crate::msg::Whitelist>>,
    weight_per_protocol: Option<Vec<crate::msg::WeightPerProtocol>>,
) -> (r: Result<(), ContractError>)
    requires
        old(config).wf(),
        weight_per_protocol matches Some(ws) ==> forall|i: int|
            0 <= i < ws@.len() ==> (#[trigger] ws@[i]).weight.le_one(),
    ensures
        update_config_post(
            *old(config),
            *final(config),
            sender@,
            admin,
            burn_address,
            developer_address,
            (match whitelist {
                Option::Some(wl) => Option::Some(wl@),
                Option::None => Option::None,
            }),
            (match weight_per_protocol {
                Option::Some(ws) => Option::Some(ws@),
                Option::None => Option::None,
            }),
            r,
        ),
        r is Ok ==> final(config).wf(),
{
    if config.admin.as_str().is_empty() {
        return Err(ContractError::ConfigNotUpdatable {});
    }
    if !str_eq(config.admin.as_str(), sender.as_str()) {
        return Err(ContractError::Unauthorized {});
    }
    let new_burn: Option<Addr> = match &burn_address {
        Option::None => Option::None,
        Option::Some(b) => match addr_validate(b.as_str()) {
            Ok(a) => Option::Some(a),
            Err(e) => {
                return Err(e);
            },
        },
    };
    let new_developer: Option<Addr> = match &developer_address {
        Option::None => Option::None,
        Option::Some(s) => match addr_validate(s.as_str()) {
            Ok(a) => Option::Some(a),
            Err(e) => {
                return Err(e);
            },
        },
    };
    let new_whitelist: Option<Vec<Whitelist>> = match &whitelist {
        Option::None => Option::None,
        Option::Some(wl) => {
            let mut out: Vec<Whitelist> = Vec::new();
            let n = wl.len();
            let mut i: usize = 0;
            while i < n
                invariant
                    n == wl@.len(),
                    0 <= i <= n,
                    out@.len() == i,
                    forall|j: int|
                        0 <= j < i ==> (#[trigger] out@[j]).address@ == wl@[j].address@
                            && out@[j].protocol@ == wl@[j].protocol@,
                    forall|j: int| 0 <= j < i ==> valid_addr((#[trigger] wl@[j]).address@),
                decreases n - i,
            {
                let entry = &wl[i];
                match addr_validate(entry.address.as_str()) {
                    Ok(address) => {
                        out.push(Whitelist { address, protocol: entry.protocol.clone() });
                    },
                    Err(e) => {
                        proof {
                            assert(!whitelist_addrs_valid(wl@)) by {
                                assert((i as int) < wl@.len());
                                assert(!valid_addr(wl@[i as int].address@));
                            }
                        }
                        return Err(e);
                    },
                }
                i = i + 1;
            }
            Option::Some(out)
        },
    };
    let new_weights: Option<Vec<WeightPerProtocol>> = match &weight_per_protocol {
        Option::None => Option::None,
        Option::Some(ws) => {
            let mut out: Vec<WeightPerProtocol> = Vec::new();
            let n = ws.len();
            let mut i: usize = 0;
            while i < n
                invariant
                    n == ws@.len(),
                    0 <= i <= n,
                    out@.len() == i,
                    forall|j: int|
                        0 <= j < i ==> (#[trigger] out@[j]).protocol@ == ws@[j].protocol@
                            && out@[j].weight == ws@[j].weight,
                decreases n - i,
            {
                let entry = &ws[i];
                out.push(WeightPerProtocol { protocol: entry.protocol.clone(), weight: entry.weight });
                i = i + 1;
            }
            Option::Some(out)
        },
    };
    match admin {
        Option::Some(a) => {
            config.admin = a;
        },
        Option::None => {},
    }
    match new_burn {
        Option::Some(b) => {
            config.burn_address = b;
        },
        Option::None => {},
    }
    match new_developer {
        Option::Some(d) => {
            config.developer_address = Option::Some(d);
        },
        Option::None => {},
    }
    match new_whitelist {
        Option::Some(w) => {
            config.whitelist = w;
        },
        Option::None => {},
    }
    match new_weights {
        Option::Some(w) => {
            config.weight_per_protocol = w;
        },
        Option::None => {},
    }
    Ok(())
}

// ---------------------------------------------------------------------------
// Queries
// ---------------------------------------------------------------------------

/// Two whitelists hold the same payees in the same order.
pub open spec fn same_whitelists(a: Seq<Whitelist>, b: Seq<Whitelist>) -> bool {
    &&& a.len() == b.len()
    &&& (forall|i: int|
        0 <= i < a.len() ==> (#[trigger] a[i]).address@ == b[i].address@ && a[i].protocol@
            == b[i].protocol@)
}

/// Two weight tables assign the same weights in the same order.
pub open spec fn same_weights(a: Seq<WeightPerProtocol>, b: Seq<WeightPerProtocol>) -> bool {
    &&& a.len() == b.len()
    &&& (forall|i: int|
        0 <= i < a.len() ==> (#[trigger] a[i]).protocol@ == b[i].protocol@ && a[i].weight
            == b[i].weight)
}

/// Two configuration records hold the same data.
pub open spec fn same_config(a: Config, b: Config) -> bool {
    &&& a.admin@ == b.admin@
    &&& a.burn_address@ == b.burn_address@
    &&& (match (a.developer_address, b.developer_address) {
        (Option::Some(x), Option::Some(y)) => x@ == y@,
        (Option::None, Option::None) => true,
        _ => false,
    })
    &&& same_whitelists(a.whitelist@, b.whitelist@)
    &&& same_weights(a.weight_per_protocol@, b.weight_per_protocol@)
    &&& a.percent_to_burn == b.percent_to_burn
    &&& a.percent_to_developer == b.percent_to_developer
    &&& a.percent_to_distribute == b.percent_to_distribute
}

/// Loads the configuration record: an owned copy holding the same data.
#[verifier::loop_isolation(false)]
pub fn config(cfg: &Config) -> (c: Config)
    ensures
        same_config(c, *cfg),
{
    let mut whitelist: Vec<Whitelist> = Vec::new();
    let wl_len = cfg.whitelist.len();
    let mut i: usize = 0;
    while i < wl_len
        invariant
            whitelist@.len() == i,
            0 <= i <= wl_len,
            forall|j: int|
                0 <= j < i ==> (#[trigger] whitelist@[j]).address@
                    == cfg.whitelist@[j].address@ && whitelist@[j].protocol@
                    == cfg.whitelist@[j].protocol@,
        decreases wl_len - i,
    {
        let entry = &cfg.whitelist[i];
        whitelist.push(
            Whitelist { address: entry.address.duplicate(), protocol: entry.protocol.clone() },
        );
        i = i + 1;
    }
    let mut weight_per_protocol: Vec<WeightPerProtocol> = Vec::new();
    let ws_len = cfg.weight_per_protocol.len();
    let mut k: usize = 0;
    while k < ws_len
        invariant
            weight_per_protocol@.len() == k,
            0 <= k <= ws_len,
            forall|j: int|
                0 <= j < k ==> (#[trigger] weight_per_protocol@[j]).protocol@
                    == cfg.weight_per_protocol@[j].protocol@ && weight_per_protocol@[j].weight
                    == cfg.weight_per_protocol@[j].weight,
        decreases ws_len - k,
    {
        let entry = &cfg.weight_per_protocol[k];
        weight_per_protocol.push(
            WeightPerProtocol { protocol: entry.protocol.clone(), weight: entry.weight },
        );
        k = k + 1;
    }
    Config {
        admin: cfg.admin.clone(),
        burn_address: cfg.burn_address.duplicate(),
        developer_address: (match &cfg.developer_address {
            Option::Some(a) => Option::Some(a.duplicate()),
            Option::None => Option::None,
        }),
        whitelist,
        weight_per_protocol,
        percent_to_burn: cfg.percent_to_burn,
        percent_to_developer: cfg.percent_to_developer,
        percent_to_distribute: cfg.percent_to_distribute,
    }
}

/// Reads the balance stored for `(address, denom)` as a coin; a missing
/// entry reads as zero.
pub fn query_deposit(deposits: &Deposits, address: String, denom: String) -> (c: Coin)
    ensures
        c.denom@ == denom@,
        c.amount == deposits.balance(address@, denom@),
{
    let amount = deposits.balance_of(address.as_str(), denom.as_str());
    Coin { denom, amount }
}

/// What a query answers: the configuration record, or one ledger balance.
/// The answer is a function of the state alone, and the state is read, never
/// written.
pub open spec fn query_post(c: Config, d: Deposits, msg: QueryMsg, r: QueryResponse) -> bool {
    match msg {
        QueryMsg::Config {} => r matches QueryResponse::Config(out) && same_config(out, c),
        QueryMsg::Deposit { address, denom } => r matches QueryResponse::Deposit(coin)
            && coin.denom@ == denom@ && coin.amount == d.balance(address@, denom@),
    }
}

/// Answers a query against a point-in-time snapshot of the state.
pub fn query(cfg: &Config, deposits: &Deposits, msg: QueryMsg) -> (r: QueryResponse)
    ensures
        query_post(*cfg, *deposits, msg, r),
{
    match msg {
        QueryMsg::Config {} => QueryResponse::Config(config(cfg)),
        QueryMsg::Deposit { address, denom } => QueryResponse::Deposit(
            query_deposit(deposits, address, denom),
        ),
    }
}

/// Migration carries no state change and emits no transfers.
pub fn migrate(_msg: MigrateMsg) -> (r: Result<Vec<Transfer>, ContractError>)
    ensures
        r matches Ok(ts) && ts@.len() == 0,
{
    Ok(Vec::new())
}

// ---------------------------------------------------------------------------
// Dispatch
// ---------------------------------------------------------------------------

/// Message arguments that are shares must be at most one; nothing else is
/// required of a message.
pub open spec fn execute_msg_wf(msg: ExecuteMsg) -> bool {
    match msg {
        ExecuteMsg::UpdateConfig { weight_per_protocol: Option::Some(ws), .. } => forall|i: int|
            0 <= i < ws@.len() ==> (#[trigger] ws@[i]).weight.le_one(),
        _ => true,
    }
}

/// Dispatches one inbound call. The host adapter supplies the caller and
/// attached funds in `info` and the queried balance and tax parameters in
/// `host`; the returned transfers are executed by the host only when the
/// call succeeds, so a failed call changes nothing at all.
pub fn execute(
    cfg: &mut Config,
    deposits: &mut Deposits,
    info: MessageInfo,
    host: HostInfo,
    msg: ExecuteMsg,
) -> (r: Result<Vec<Transfer>, ContractError>)
    requires
        old(cfg).wf(),
        tax_wf(host.tax),
        execute_msg_wf(msg),
    ensures
        final(cfg).wf(),
        (match msg {
            ExecuteMsg::Deposit {} => {
                &&& *final(cfg) == *old(cfg)
                &&& deposit_post(
                    *old(deposits),
                    *final(deposits),
                    info.sender@,
                    info.funds@,
                    (match r {
                        Ok(_) => Ok::<(), ContractError>(()),
                        Err(e) => Err::<(), ContractError>(e),
                    }),
                )
                &&& (r matches Ok(ts) ==> ts@.len() == 0)
            },
            ExecuteMsg::Withdraw { amount, denom } => {
                &&& *final(cfg) == *old(cfg)
                &&& (match r {
                    Ok(ts) => ts@.len() == 1 && withdraw_post(
                        *old(deposits),
                        *final(deposits),
                        info.sender@,
                        amount,
                        denom@,
                        Ok::<Transfer, ContractError>(ts@[0]),
                    ),
                    Err(e) => withdraw_post(
                        *old(deposits),
                        *final(deposits),
                        info.sender@,
                        amount,
                        denom@,
                        Err::<Transfer, ContractError>(e),
                    ),
                })
            },
            ExecuteMsg::Distribute { denom } => {
                &&& *final(cfg) == *old(cfg)
                &&& *final(deposits) == *old(deposits)
                &&& distribute_post(
                    *old(cfg),
                    host.contract_balance,
                    denom@,
                    host.tax,
                    (match r {
                        Ok(ts) => Ok::<Seq<Transfer>, ContractError>(ts@),
                        Err(e) => Err::<Seq<Transfer>, ContractError>(e),
                    }),
                )
            },
            ExecuteMsg::UpdateConfig {
                admin,
                burn_address,
                developer_address,
                whitelist,
                weight_per_protocol,
            } => {
                &&& *final(deposits) == *old(deposits)
                &&& update_config_post(
                    *old(cfg),
                    *final(cfg),
                    info.sender@,
                    admin,
                    burn_address,
                    developer_address,
                    (match whitelist {
                        Option::Some(wl) => Option::Some(wl@),
                        Option::None => Option::None,
                    }),
                    (match weight_per_protocol {
                        Option::Some(ws) => Option::Some(ws@),
                        Option::None => Option::None,
                    }),
                    (match r {
                        Ok(_) => Ok::<(), ContractError>(()),
                        Err(e) => Err::<(), ContractError>(e),
                    }),
                )
                &&& (r matches Ok(ts) ==> ts@.len() == 0)
            },
            ExecuteMsg::BurnTheBottom { minimum_threshold, denom } => {
                &&& *final(cfg) == *old(cfg)
                &&& *final(deposits) == *old(deposits)
                &&& burn_post(
                    *old(cfg),
                    host.contract_balance,
                    minimum_threshold,
                    denom@,
                    host.tax,
                    (match r {
                        Ok(ts) => Ok::<Seq<Transfer>, ContractError>(ts@),
                        Err(e) => Err::<Seq<Transfer>, ContractError>(e),
                    }),
                )
            },
        }),
{
    match msg {
        ExecuteMsg::Deposit {} => match deposit(deposits, &info) {
            Ok(_) => Ok(Vec::new()),
            Err(e) => Err(e),
        },
        ExecuteMsg::Withdraw { amount, denom } => match withdraw(
            deposits,
            &info.sender,
            amount,
            denom,
        ) {
            Ok(t) => {
                let mut transfers: Vec<Transfer> = Vec::new();
                transfers.push(t);
                Ok(transfers)
            },
            Err(e) => Err(e),
        },
        ExecuteMsg::Distribute { denom } => distribute(
            cfg,
            host.contract_balance,
            denom,
            &host.tax,
        ),
        ExecuteMsg::UpdateConfig {
            admin,
            burn_address,
            developer_address,
            whitelist,
            weight_per_protocol,
        } => match update_config(
            cfg,
            &info.sender,
            admin,
            burn_address,
            developer_address,
            whitelist,
            weight_per_protocol,
        ) {
            Ok(_) => Ok(Vec::new()),
            Err(e) => Err(e),
        },
        ExecuteMsg::BurnTheBottom { minimum_threshold, denom } => burn_the_bottom(
            cfg,
            host.contract_balance,
            minimum_threshold,
            denom,
            &host.tax,
        ),
    }
}

// ---------------------------------------------------------------------------
// Laws
// ---------------------------------------------------------------------------

/// Law: a frozen configuration is permanently frozen. Whatever the caller
/// and whatever the arguments, an update attempt against a configuration
/// with an empty admin field fails with `ConfigNotUpdatable`, changes
/// nothing, and in particular leaves the configuration frozen.
pub proof fn lemma_frozen_config_rejects_updates(
    pre: Config,
    post: Config,
    sender: Seq<char>,
    admin: Option<String>,
    burn_address: Option<String>,
    developer_address: Option<String>,
    whitelist: Option<Seq<crate::msg::Whitelist>>,
    weight_per_protocol: Option<Seq<crate::msg::WeightPerProtocol>>,
    r: Result<(), ContractError>,
)
    requires
        pre.frozen(),
        update_config_post(
            pre,
            post,
            sender,
            admin,
            burn_address,
            developer_address,
            whitelist,
            weight_per_protocol,
            r,
        ),
    ensures
        r == Err::<(), ContractError>(ContractError::ConfigNotUpdatable {}),
        post == pre,
        post.frozen(),
{
}

/// Law: configuration updates are admin-only. A caller other than the
/// stored admin is turned away with `Unauthorized` and changes nothing —
/// including a caller trying to clear the admin field.
pub proof fn lemma_update_config_is_admin_only(
    pre: Config,
    post: Config,
    sender: Seq<char>,
    admin: Option<String>,
    burn_address: Option<String>,
    developer_address: Option<String>,
    whitelist: Option<Seq<crate::msg::Whitelist>>,
    weight_per_protocol: Option<Seq<crate::msg::WeightPerProtocol>>,
    r: Result<(), ContractError>,
)
    requires
        !pre.frozen(),
        sender != pre.admin@,
        update_config_post(
            pre,
            post,
            sender,
            admin,
            burn_address,
            developer_address,
            whitelist,
            weight_per_protocol,
            r,
        ),
    ensures
        r == Err::<(), ContractError>(ContractError::Unauthorized {}),
        post == pre,
{
}

/// Law: the admin can always clear the admin field, once — the update
/// succeeds whenever its other inputs are valid, and the configuration it
/// leaves behind is frozen, which by `lemma_frozen_config_rejects_updates`
/// no later call can undo.
pub proof fn lemma_clearing_admin_freezes(
    pre: Config,
    post: Config,
    sender: Seq<char>,
    new_admin: String,
    burn_address: Option<String>,
    developer_address: Option<String>,
    whitelist: Option<Seq<crate::msg::Whitelist>>,
    weight_per_protocol: Option<Seq<crate::msg::WeightPerProtocol>>,
    r: Result<(), ContractError>,
)
    requires
        !pre.frozen(),
        sender == pre.admin@,
        new_admin@.len() == 0,
        update_inputs_valid(burn_address, developer_address, whitelist),
        update_config_post(
            pre,
            post,
            sender,
            Option::Some(new_admin),
            burn_address,
            developer_address,
            whitelist,
            weight_per_protocol,
            r,
        ),
    ensures
        r is Ok,
        post.frozen(),
{
}

/// Law: withdrawing without an amount pays out exactly the stored balance
/// and leaves the ledger entry at zero.
pub proof fn lemma_withdraw_all_empties_ledger(
    pre: Deposits,
    post: Deposits,
    sender: Seq<char>,
    denom: Seq<char>,
    r: Result<Transfer, ContractError>,
)
    requires
        pre.balance(sender, denom) > 0,
        withdraw_post(pre, post, sender, Option::None, denom, r),
    ensures
        r matches Ok(t) && t.amount == pre.balance(sender, denom),
        post.balance(sender, denom) == 0,
{
}

/// Law: withdrawing more than the stored balance is an arithmetic
/// underflow: the call fails and the ledger is untouched, so no transfer is
/// emitted.
pub proof fn lemma_overdraw_rejected(
    pre: Deposits,
    post: Deposits,
    sender: Seq<char>,
    want: u128,
    denom: Seq<char>,
    r: Result<Transfer, ContractError>,
)
    requires
        pre.balance(sender, denom) > 0,
        want > pre.balance(sender, denom),
        withdraw_post(pre, post, sender, Option::Some(want), denom, r),
    ensures
        r == Err::<Transfer, ContractError>(ContractError::Underflow {}),
        post == pre,
{
}

/// Law: queries are idempotent. Two answers to the same query against the
/// same state carry the same data.
pub proof fn lemma_query_idempotent(
    c: Config,
    d: Deposits,
    msg: QueryMsg,
    r1: QueryResponse,
    r2: QueryResponse,
)
    requires
        query_post(c, d, msg, r1),
        query_post(c, d, msg, r2),
    ensures
        (match (r1, r2) {
            (QueryResponse::Config(a), QueryResponse::Config(b)) => same_config(a, b),
            (QueryResponse::Deposit(x), QueryResponse::Deposit(y)) => x.amount == y.amount
                && x.denom@ == y.denom@,
            _ => false,
        }),
{
    match msg {
        QueryMsg::Config {} => {
            let (a, b) = (r1->Config_0, r2->Config_0);
            assert(same_whitelists(a.whitelist@, b.whitelist@)) by {
                assert forall|i: int| 0 <= i < a.whitelist@.len() implies (
                #[trigger] a.whitelist@[i]).address@ == b.whitelist@[i].address@
                    && a.whitelist@[i].protocol@ == b.whitelist@[i].protocol@ by {
                    assert(a.whitelist@[i].address@ == c.whitelist@[i].address@);
                    assert(b.whitelist@[i].address@ == c.whitelist@[i].address@);
                }
            }
            assert(same_weights(a.weight_per_protocol@, b.weight_per_protocol@)) by {
                assert forall|i: int| 0 <= i < a.weight_per_protocol@.len() implies (
                #[trigger] a.weight_per_protocol@[i]).protocol@
                    == b.weight_per_protocol@[i].protocol@ && a.weight_per_protocol@[i].weight
                    == b.weight_per_protocol@[i].weight by {
                    assert(a.weight_per_protocol@[i].protocol@
                        == c.weight_per_protocol@[i].protocol@);
                    assert(b.weight_per_protocol@[i].protocol@
                        == c.weight_per_protocol@[i].protocol@);
                }
            }
        },
        QueryMsg::Deposit { .. } => {},
    }
}

} // verus!
