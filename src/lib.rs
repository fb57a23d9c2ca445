//! A gated sign-up ledger: addresses join an early-access allowlist by paying a
//! fixed fee, may credit a referrer's code, and receive a referral code of their
//! own whose count grows with each join that names it. An administrator may sweep
//! the collected fees out of the ledger's custody.
//!
//! The store is a cosmwasm `MemoryStorage` read and written through cw-storage-plus;
//! `state` names what it holds, `contract` holds the actions and queries with
//! their contracts, `keys` the order of listings and the paging laws, and `laws`
//! what holds across several actions.

pub mod contract;
pub mod error;
pub mod keys;
pub mod laws;
pub mod msg;
pub mod state;

pub use contract::{
    execute, execute_join_whitelist, execute_withdraw, instantiate, query, query_get_refferal,
    query_is_whitelisted, query_list_ref_codes, query_list_whitelisted, self_referral_code,
    validate_payment, ADDRESS_PREFIX_LEN, CONTRACT_NAME, CONTRACT_VERSION, JOIN_FEE,
    NATIVE_DENOM, REF_CODE_PREFIX,
};
pub use error::ContractError;
pub use msg::{
    Attribute, BankSend, Coin, ExecuteMsg, GetReferralResponse, InstantiateMsg,
    IsWhitelistedResponse, ListWhitelistedResponse, MessageInfo, QueryMsg, QueryResponse,
    Response,
};
pub use state::WhitelistData;
