//! The errors a registry invocation can end with. Every error is terminal
//! for its invocation: the caller observes the error and no state change.

use vstd::prelude::*;

verus! {

/// Why a register or transfer invocation was refused.
#[derive(Debug, PartialEq, Eq)]
pub enum ContractError {
    /// The funds sent held no entry of the required denomination with at
    /// least the required amount. `sent` is the largest amount of that
    /// denomination that was sent (zero when none was).
    InsufficientFundsSend { denom: String, required: u128, sent: u128 },
    /// Registration of a name that already has a record.
    NameTaken { name: String },
    /// Transfer of a name that has no record.
    NameNotExists { name: String },
    /// Transfer attempted by someone other than the record's owner.
    Unauthorized,
    /// The name is shorter than the minimum length.
    NameTooShort { length: u64, min_length: u64 },
    /// The name is longer than the maximum length.
    NameTooLong { length: u64, max_length: u64 },
    /// The name holds a character outside the allowed set; `c` is the
    /// first such character in scan order.
    InvalidCharacter { c: char },
    /// The host's address validator refused the transfer target; `msg` is
    /// its verdict, passed on verbatim.
    InvalidAddress { msg: String },
}

} // verus!
