//! The registry's entry points: one-time initialization, the two actions
//! (register, transfer), and the read-only queries. Each is a state
//! transition on a `NameRegistry`, and its contract pins the outcome —
//! the exact error and an untouched state, or the exact new state — for
//! every input.

use crate::coins::{
    assert_sent_sufficient_coin, payment_error, sufficient_funds, CoinView,
};
use crate::error::ContractError;
use crate::msg::{
    ExecuteMsg, InstantiateMsg, MessageInfo, QueryAnswer, QueryMsg, ResolveRecordResponse,
};
use crate::state::{spec_resolve, Config, NameRecord, NameRegistry, RegistryView};
use vstd::pervasive::unreached;
use vstd::prelude::*;

verus! {

pub const MIN_NAME_LENGTH: u64 = 3;

pub const MAX_NAME_LENGTH: u64 = 64;

/// The characters a name may hold: ASCII digits, ASCII lowercase letters,
/// `.`, `-` and `_`.
pub open spec fn valid_name_char(c: char) -> bool {
    ||| 48 <= c as int <= 57
    ||| 97 <= c as int <= 122
    ||| c == '.'
    ||| c == '-'
    ||| c == '_'
}

pub open spec fn all_chars_valid(s: Seq<char>) -> bool {
    forall|i: int| 0 <= i < s.len() ==> valid_name_char(s[i])
}

/// A registrable name: within the length bounds, every character allowed.
pub open spec fn valid_name(s: Seq<char>) -> bool {
    MIN_NAME_LENGTH <= s.len() <= MAX_NAME_LENGTH && all_chars_valid(s)
}

/// Position `k` holds the first character of `s` outside the allowed set.
pub open spec fn is_first_invalid(s: Seq<char>, k: int) -> bool {
    0 <= k < s.len() && !valid_name_char(s[k]) && forall|m: int|
        0 <= m < k ==> valid_name_char(#[trigger] s[m])
}

/// Whether `e` is exactly the validation error that rejecting `s`
/// reports: too short before too long before the first disallowed
/// character in scan order.
pub open spec fn name_validation_error(e: ContractError, s: Seq<char>) -> bool {
    if s.len() < MIN_NAME_LENGTH {
        e == (ContractError::NameTooShort { length: s.len() as u64, min_length: MIN_NAME_LENGTH })
    } else if s.len() > MAX_NAME_LENGTH {
        e == (ContractError::NameTooLong { length: s.len() as u64, max_length: MAX_NAME_LENGTH })
    } else {
        e matches ContractError::InvalidCharacter { c } && exists|k: int|
            #[trigger] is_first_invalid(s, k) && c == s[k]
    }
}

/// Whether `c` lies outside the set a name may hold.
pub fn invalid_char(c: char) -> (r: bool)
    ensures
        r == !valid_name_char(c),
{
    let u = c as u32;
    let is_valid = (48 <= u && u <= 57) || (97 <= u && u <= 122) || c == '.' || c == '-' || c
        == '_';
    !is_valid
}

/// Checks a name at registration time: the length bounds first (too short
/// before too long), then a left-to-right character scan that reports the
/// first offender and looks no further.
pub fn validate_name(name: &str) -> (r: Result<(), ContractError>)
    ensures
        r is Ok <==> valid_name(name@),
        r matches Err(e) ==> name_validation_error(e, name@),
{
    let length = name.unicode_len();
    if (length as u64) < MIN_NAME_LENGTH {
        Err(ContractError::NameTooShort { length: length as u64, min_length: MIN_NAME_LENGTH })
    } else if (length as u64) > MAX_NAME_LENGTH {
        Err(ContractError::NameTooLong { length: length as u64, max_length: MAX_NAME_LENGTH })
    } else {
        let mut i: usize = 0;
        while i < length
            invariant
                i <= length,
                length == name@.len(),
                MIN_NAME_LENGTH <= length as u64 <= MAX_NAME_LENGTH,
                forall|m: int| 0 <= m < i ==> valid_name_char(#[trigger] name@[m]),
            decreases length - i,
        {
            let c = name.get_char(i);
            if invalid_char(c) {
                proof {
                    assert(is_first_invalid(name@, i as int));
                }
                return Err(ContractError::InvalidCharacter { c });
            }
            i += 1;
        }
        Ok(())
    }
}

/// What registering `name` against state `pre` does: validation, payment,
/// availability, checked in that order; on success the record is created,
/// on failure the state is untouched and the error names the first
/// failing check.
pub open spec fn register_outcome(
    pre: RegistryView,
    post: RegistryView,
    sender: Seq<char>,
    funds: Seq<CoinView>,
    name: Seq<char>,
    r: Result<(), ContractError>,
) -> bool {
    let price = pre.config->0.purchase_price;
    if !valid_name(name) {
        r matches Err(e) && name_validation_error(e, name) && post == pre
    } else if !sufficient_funds(funds, price) {
        r matches Err(e) && payment_error(e, funds, price) && post == pre
    } else if pre.records.contains_key(name) {
        r matches Err(e) && (e matches ContractError::NameTaken { name: n } && n@ == name) && post
            == pre
    } else {
        r is Ok && post.config == pre.config && post.records == pre.records.insert(name, sender)
    }
}

/// What transferring `name` to `to` against state `pre` does: payment,
/// address validity, existence, authorization, checked in that order; on
/// success the owner is replaced, on failure the state is untouched.
pub open spec fn transfer_outcome(
    pre: RegistryView,
    post: RegistryView,
    sender: Seq<char>,
    funds: Seq<CoinView>,
    name: Seq<char>,
    to: Result<String, String>,
    r: Result<(), ContractError>,
) -> bool {
    let price = pre.config->0.transfer_price;
    if !sufficient_funds(funds, price) {
        r matches Err(e) && payment_error(e, funds, price) && post == pre
    } else if to is Err {
        r matches Err(e) && (e matches ContractError::InvalidAddress { msg } && msg@
            == to->Err_0@) && post == pre
    } else if !pre.records.contains_key(name) {
        r matches Err(e) && (e matches ContractError::NameNotExists { name: n } && n@ == name)
            && post == pre
    } else if pre.records[name] != sender {
        r matches Err(e) && e is Unauthorized && post == pre
    } else {
        r is Ok && post.config == pre.config && post.records == pre.records.insert(
            name,
            to->Ok_0@,
        )
    }
}

/// A successful registration is resolved afterwards: once registering
/// `name` returns `Ok`, the new state maps `name` to the registering
/// sender, and resolution answers exactly that address.
pub proof fn lemma_register_resolves_to_sender(
    pre: RegistryView,
    post: RegistryView,
    sender: Seq<char>,
    funds: Seq<CoinView>,
    name: Seq<char>,
    r: Result<(), ContractError>,
)
    requires
        register_outcome(pre, post, sender, funds, name, r),
        r is Ok,
    ensures
        spec_resolve(post.records, name) == Some(sender),
        forall|other: Seq<char>| other != name ==> spec_resolve(post.records, other)
            == spec_resolve(pre.records, other),
{
}

/// A successful transfer is resolved afterwards: once handing `name` over
/// returns `Ok`, the new state maps `name` to the validated target, and
/// resolution answers exactly that address.
pub proof fn lemma_transfer_resolves_to_target(
    pre: RegistryView,
    post: RegistryView,
    sender: Seq<char>,
    funds: Seq<CoinView>,
    name: Seq<char>,
    to: Result<String, String>,
    r: Result<(), ContractError>,
)
    requires
        transfer_outcome(pre, post, sender, funds, name, to, r),
        r is Ok,
    ensures
        to is Ok,
        spec_resolve(post.records, name) == Some(to->Ok_0@),
        forall|other: Seq<char>| other != name ==> spec_resolve(post.records, other)
            == spec_resolve(pre.records, other),
{
}

/// One-time setup: stores the two fees verbatim, without validating the
/// amounts. Calling it again overwrites silently; the host enforces
/// single use per deployment.
pub fn instantiate(reg: &mut NameRegistry, msg: InstantiateMsg)
    ensures
        final(reg).wf() <==> old(reg).wf(),
        final(reg)@.records == old(reg)@.records,
        final(reg)@.config matches Some(c) && c.purchase_price == msg.purchase_price.deep_view()
            && c.transfer_price == msg.transfer_price.deep_view(),
{
    let config_state = Config {
        purchase_price: msg.purchase_price,
        transfer_price: msg.transfer_price,
    };
    reg.set_config(config_state);
}

/// Registers `name` to the message sender, against the configured
/// purchase fee.
pub fn execute_register(reg: &mut NameRegistry, info: MessageInfo, name: String) -> (r: Result<
    (),
    ContractError,
>)
    requires
        old(reg).wf(),
        old(reg)@.config is Some,
    ensures
        final(reg).wf(),
        final(reg)@.config == old(reg)@.config,
        register_outcome(
            old(reg)@,
            final(reg)@,
            info.sender@,
            info.funds.deep_view(),
            name@,
            r,
        ),
{
    // we only need to check here - at point of registration
    match validate_name(name.as_str()) {
        Err(e) => {
            return Err(e);
        },
        Ok(()) => {},
    }
    let payment = match reg.config_ref() {
        Some(config_state) => assert_sent_sufficient_coin(
            &info.funds,
            &config_state.purchase_price,
        ),
        None => unreached(),
    };
    match payment {
        Err(e) => {
            return Err(e);
        },
        Ok(()) => {},
    }
    if reg.has_record(&name) {
        // name is already taken
        return Err(ContractError::NameTaken { name });
    }
    // name is available
    reg.insert_record(name, NameRecord { owner: info.sender });
    Ok(())
}

/// Hands `name` over to `to`, on the current owner's order, against the
/// configured transfer fee. `to` carries the host address validator's
/// judgement of the target.
pub fn execute_transfer(
    reg: &mut NameRegistry,
    info: MessageInfo,
    name: String,
    to: Result<String, String>,
) -> (r: Result<(), ContractError>)
    requires
        old(reg).wf(),
        old(reg)@.config is Some,
    ensures
        final(reg).wf(),
        final(reg)@.config == old(reg)@.config,
        transfer_outcome(
            old(reg)@,
            final(reg)@,
            info.sender@,
            info.funds.deep_view(),
            name@,
            to,
            r,
        ),
{
    let payment = match reg.config_ref() {
        Some(config_state) => assert_sent_sufficient_coin(
            &info.funds,
            &config_state.transfer_price,
        ),
        None => unreached(),
    };
    match payment {
        Err(e) => {
            return Err(e);
        },
        Ok(()) => {},
    }
    let new_owner = match to {
        Ok(a) => a,
        Err(msg) => {
            return Err(ContractError::InvalidAddress { msg });
        },
    };
    let authorized = match reg.resolve(&name) {
        None => {
            return Err(ContractError::NameNotExists { name });
        },
        Some(owner) => owner == info.sender,
    };
    if !authorized {
        return Err(ContractError::Unauthorized);
    }
    reg.set_owner(&name, new_owner);
    Ok(())
}

/// Routes an action message to its handler.
pub fn execute(reg: &mut NameRegistry, info: MessageInfo, msg: ExecuteMsg) -> (r: Result<
    (),
    ContractError,
>)
    requires
        old(reg).wf(),
        old(reg)@.config is Some,
    ensures
        final(reg).wf(),
        final(reg)@.config == old(reg)@.config,
        match msg {
            ExecuteMsg::Register { name } => register_outcome(
                old(reg)@,
                final(reg)@,
                info.sender@,
                info.funds.deep_view(),
                name@,
                r,
            ),
            ExecuteMsg::Transfer { name, to } => transfer_outcome(
                old(reg)@,
                final(reg)@,
                info.sender@,
                info.funds.deep_view(),
                name@,
                to,
                r,
            ),
        },
{
    match msg {
        ExecuteMsg::Register { name } => execute_register(reg, info, name),
        ExecuteMsg::Transfer { name, to } => execute_transfer(reg, info, name, to),
    }
}

/// Pure lookup of `name`'s record, as the wire answer.
pub fn query_resolver(reg: &NameRegistry, name: String) -> (r: ResolveRecordResponse)
    requires
        reg.wf(),
    ensures
        r.address.deep_view() == spec_resolve(reg@.records, name@),
{
    let address = reg.resolve(&name);
    ResolveRecordResponse { address }
}

/// Routes a read-only request. A configuration query assumes the host
/// initialized the registry, as it does once per deployment.
pub fn query(reg: &NameRegistry, msg: QueryMsg) -> (r: QueryAnswer)
    requires
        reg.wf(),
        msg is Config ==> reg@.config is Some,
    ensures
        match msg {
            QueryMsg::ResolveRecord { name } => r matches QueryAnswer::Record(resp)
                && resp.address.deep_view() == spec_resolve(reg@.records, name@),
            QueryMsg::Config {  } => r matches QueryAnswer::Config(c) && Some(c@) == reg@.config,
        },
{
    match msg {
        QueryMsg::ResolveRecord { name } => QueryAnswer::Record(query_resolver(reg, name)),
        QueryMsg::Config {  } => QueryAnswer::Config(reg.get_config()),
    }
}

} // verus!
