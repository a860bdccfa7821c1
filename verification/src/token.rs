//! The message and state shapes of the sibling fungible-token contract.
//! Only the shapes are given here: the token's handlers are not part of
//! this library, and no allowance semantics is implied beyond the fields.

use vstd::prelude::*;

verus! {

/// One address's opening balance.
#[derive(Debug, PartialEq, Eq)]
pub struct InitialBalance {
    pub address: String,
    pub amount: u128,
}

/// The token's one-time setup message.
pub struct InstantiateMsg {
    pub name: String,
    pub symbol: String,
    pub decimals: u8,
    pub initial_balances: Vec<InitialBalance>,
}

/// An action on the token.
pub enum ExecuteMsg {
    Approve { spender: String, amount: u128 },
    Transfer { recipient: String, amount: u128 },
    TransferFrom { owner: String, recipient: String, amount: u128 },
    Burn { amount: u128 },
}

/// A read-only request to the token.
#[derive(Debug, PartialEq, Eq)]
pub enum QueryMsg {
    Balance { address: String },
    Allowance { owner: String, spender: String },
}

/// The answer to `Balance`.
#[derive(Debug, PartialEq, Eq)]
pub struct BalanceResponse {
    pub balance: u128,
}

/// The answer to `Allowance`.
#[derive(Debug, PartialEq, Eq)]
pub struct AllowanceResponse {
    pub allowance: u128,
}

/// The token's immutable identity, set once at instantiation.
#[derive(Debug, PartialEq, Eq)]
pub struct Constants {
    pub name: String,
    pub symbol: String,
    pub decimals: u8,
}

} // verus!
