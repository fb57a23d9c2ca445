//! The values the ledger takes in and hands out.

use vstd::prelude::*;

verus! {

/// An amount of one currency, in minor units.
#[derive(Debug, Clone, PartialEq)]
pub struct Coin {
    pub denom: String,
    pub amount: u128,
}

/// Who sent an action, and the funds attached to it.
#[derive(Debug, Clone, PartialEq)]
pub struct MessageInfo {
    pub sender: String,
    pub funds: Vec<Coin>,
}

/// One observable key/value pair of an action's result.
#[derive(Debug, Clone, PartialEq)]
pub struct Attribute {
    pub key: String,
    pub value: String,
}

/// A transfer of funds out of the ledger's custody.
#[derive(Debug, Clone, PartialEq)]
pub struct BankSend {
    pub to_address: String,
    pub amount: Vec<Coin>,
}

/// What a successful action produces: transfers to perform and attributes.
#[derive(Debug, Clone, PartialEq)]
pub struct Response {
    pub messages: Vec<BankSend>,
    pub attributes: Vec<Attribute>,
}

#[derive(Debug, Clone, PartialEq)]
pub struct InstantiateMsg {
    pub admin: String,
}

#[derive(Debug, Clone, PartialEq)]
pub enum ExecuteMsg {
    JoinWhitelist { ref_code: String },
    Withdraw {},
}

#[derive(Debug, Clone, PartialEq)]
pub enum QueryMsg {
    IsWhitelisted { address: String },
    GetReferral { ref_code: String },
    ListWhitelisted { start_after: Option<String>, limit: Option<u32> },
    ListReferrals { start_after: Option<String>, limit: Option<u32> },
}

#[derive(Debug, Clone, PartialEq)]
pub struct IsWhitelistedResponse {
    pub is_whitelisted: bool,
}

#[derive(Debug, Clone, PartialEq)]
pub struct GetReferralResponse {
    pub ref_code: String,
    pub ref_address: String,
    pub count: u64,
}

#[derive(Debug, Clone, PartialEq)]
pub struct ListWhitelistedResponse {
    pub addresses: Vec<String>,
}

/// The answer to each kind of query.
#[derive(Debug, Clone, PartialEq)]
pub enum QueryResponse {
    IsWhitelisted(IsWhitelistedResponse),
    GetReferral(GetReferralResponse),
    ListWhitelisted(Vec<(String, bool)>),
    ListReferrals(Vec<(String, crate::state::WhitelistData)>),
}

/// `a` is the attribute `key = value`.
pub open spec fn attr_is(a: Attribute, key: Seq<char>, value: Seq<char>) -> bool {
    a.key@ == key && a.value@ == value
}

} // verus!
