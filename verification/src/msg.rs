//! The messages the host hands to the registry's entry points, and the
//! structured answers handed back. The host decodes the wire form and
//! encodes the answers; the registry only sees these plain values.

use crate::coins::Coin;
use crate::state::Config;
use vstd::prelude::*;

verus! {

/// The sender of the current message and the funds attached to it, as the
/// host reports them.
pub struct MessageInfo {
    pub sender: String,
    pub funds: Vec<Coin>,
}

/// The one-time setup message: the purchase and transfer fees, each an
/// optional amount of one denomination.
pub struct InstantiateMsg {
    pub purchase_price: Option<Coin>,
    pub transfer_price: Option<Coin>,
}

/// An action on the registry.
pub enum ExecuteMsg {
    /// Register `name` to the message sender.
    Register { name: String },
    /// Hand `name` over to `to`: the transfer target as the host's address
    /// validator judged it, either the validated address or the
    /// validator's verdict against it, passed on verbatim.
    Transfer { name: String, to: Result<String, String> },
}

/// A read-only request.
pub enum QueryMsg {
    /// Who owns `name`?
    ResolveRecord { name: String },
    /// The stored configuration.
    Config {},
}

/// The answer to `ResolveRecord`: the owning address, or `None` for a name
/// that was never registered. A miss is a valid outcome, not an error.
#[derive(Debug, PartialEq, Eq)]
pub struct ResolveRecordResponse {
    pub address: Option<String>,
}

/// The structured answer to a query, before the host encodes it.
#[derive(Debug, PartialEq, Eq)]
pub enum QueryAnswer {
    Record(ResolveRecordResponse),
    Config(Config),
}

} // verus!
