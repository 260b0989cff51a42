//! The contract's error taxonomy. Every error aborts the whole call: the
//! host discards all state changes and transfers of a failed call, and the
//! functions here additionally promise that they never mutate on a failure.

use vstd::prelude::*;

verus! {

#[derive(Clone, Debug, PartialEq)]
pub enum ContractError {
    /// An address token failed validation.
    InvalidAddress {},
    /// The caller is not the configured admin.
    Unauthorized {},
    /// The balance the operation would draw from is zero.
    NoBalance {},
    /// A deposit attached more than one coin (or none) to the call.
    DepositMoreThenOne {},
    /// A deposit used a denomination outside the accepted set.
    UnsupportedDenom(String),
    /// A protocol name was given that is not on the whitelist.
    DistributionNoSuchProtocol(String),
    /// A whitelisted protocol has no entry in the weight table.
    MissingProtocol(String),
    /// The admin field is empty: the configuration is permanently frozen.
    ConfigNotUpdatable {},
    /// An addition would exceed the amount range.
    Overflow {},
    /// A subtraction would fall below zero.
    Underflow {},
}

} // verus!
