//! The ledger store: an administrator record, the whitelist map (address to
//! "has joined") and the referral map (code to record), kept in a cosmwasm
//! `MemoryStorage` through cw-storage-plus.

use cosmwasm_std::testing::{MockApi, MockQuerier};
use cosmwasm_std::{Deps, Empty, MemoryStorage, Order, QuerierWrapper, StdError};
use cw_paginate_storage::paginate_map;
use crate::keys::is_page;
use vstd::prelude::*;

verus! {

#[verifier::external_type_specification]
#[verifier::external_body]
pub struct ExMemoryStorage(cosmwasm_std::MemoryStorage);

pub const ADMIN_NAMESPACE: &'static str = "admin";

pub const WHITELIST_NAMESPACE: &'static str = "whitelist";

pub const REFERRALS_NAMESPACE: &'static str = "refferals";

/// One referral record: the code, the address that owns it, and how many joins
/// have been credited to it.
#[derive(Debug, Clone, PartialEq)]
pub struct WhitelistData {
    pub ref_code: String,
    pub ref_address: String,
    pub count: u64,
}

/// A referral record as plain values: (code, owner address, count).
pub type RecordView = (Seq<char>, Seq<char>, u64);

impl View for WhitelistData {
    type V = RecordView;

    open spec fn view(&self) -> RecordView {
        (self.ref_code@, self.ref_address@, self.count)
    }
}

/// The whitelist entries held in a store.
pub uninterp spec fn whitelist_of(s: MemoryStorage) -> Map<Seq<char>, bool>;

/// The referral records held in a store, by code.
pub uninterp spec fn referrals_of(s: MemoryStorage) -> Map<Seq<char>, RecordView>;

/// The administrator recorded in a store, if any.
pub uninterp spec fn admin_of(s: MemoryStorage) -> Option<Seq<char>>;

/// Every entry under the three namespaces of a store decodes as its type.
pub uninterp spec fn decodes(s: MemoryStorage) -> bool;

/// The value under `k`, if any.
pub open spec fn lookup<V>(m: Map<Seq<char>, V>, k: Seq<char>) -> Option<V> {
    if m.contains_key(k) {
        Some(m[k])
    } else {
        None
    }
}

/// A page of entries as plain values.
pub open spec fn flags_view(p: Seq<(String, bool)>) -> Seq<(Seq<char>, bool)> {
    p.map_values(|e: (String, bool)| (e.0@, e.1))
}

pub open spec fn records_view(p: Seq<(String, WhitelistData)>) -> Seq<(Seq<char>, RecordView)> {
    p.map_values(|e: (String, WhitelistData)| (e.0@, e.1@))
}

pub open spec fn cursor_view(c: Option<String>) -> Option<Seq<char>> {
    match c {
        Some(s) => Some(s@),
        None => None,
    }
}

pub open spec fn limit_view(l: Option<u32>) -> Option<nat> {
    match l {
        Some(n) => Some(n as nat),
        None => None,
    }
}

/// Relies on cosmwasm_std::MemoryStorage::new: a store with no entries.
pub assume_specification[ cosmwasm_std::MemoryStorage::new ]() -> (r: MemoryStorage)
    ensures
        whitelist_of(r) =~= Map::empty(),
        referrals_of(r) =~= Map::empty(),
        admin_of(r) is None,
        decodes(r),
;

/// Relies on cw_storage_plus::Map::may_load over the whitelist namespace: the
/// stored flag, `None` where there is no entry; it fails only on bytes that do
/// not decode.
#[verifier::external_body]
pub(crate) fn whitelist_may_load(storage: &MemoryStorage, address: &String) -> (r: Result<
    Option<bool>,
    StdError,
>)
    ensures
        r matches Ok(o) ==> o == lookup(whitelist_of(*storage), address@),
        decodes(*storage) ==> r is Ok,
{
    cw_storage_plus::Map::<String, bool>::new(WHITELIST_NAMESPACE).may_load(storage, address.clone())
}

/// Relies on cw_storage_plus::Map::save over the whitelist namespace: it writes
/// the JSON of a bool, which cannot fail, under a key of this namespace alone.
#[verifier::external_body]
pub(crate) fn whitelist_save(storage: &mut MemoryStorage, address: &String, joined: bool) -> (r:
    Result<(), StdError>)
    ensures
        r is Ok,
        whitelist_of(*final(storage)) == whitelist_of(*old(storage)).insert(address@, joined),
        referrals_of(*final(storage)) == referrals_of(*old(storage)),
        admin_of(*final(storage)) == admin_of(*old(storage)),
        decodes(*old(storage)) ==> decodes(*final(storage)),
{
    cw_storage_plus::Map::<String, bool>::new(WHITELIST_NAMESPACE).save(storage, address.clone(), &joined)
}

/// Relies on cw_storage_plus::Map::may_load over the referral namespace: the
/// stored record, `None` where there is none; it fails only on bytes that do not
/// decode.
#[verifier::external_body]
pub(crate) fn referral_may_load(storage: &MemoryStorage, code: &String) -> (r: Result<
    Option<WhitelistData>,
    StdError,
>)
    ensures
        r matches Ok(o) ==> match o {
            Some(d) => lookup(referrals_of(*storage), code@) == Some(d@),
            None => !referrals_of(*storage).contains_key(code@),
        },
        decodes(*storage) ==> r is Ok,
{
    let m = cw_storage_plus::Map::<String, (String, String, u64)>::new(REFERRALS_NAMESPACE);
    Ok(m.may_load(storage, code.clone())?.map(
        |(ref_code, ref_address, count)| WhitelistData { ref_code, ref_address, count },
    ))
}

/// Relies on cw_storage_plus::Map::load over the referral namespace: the stored
/// record, and an error where there is none.
#[verifier::external_body]
pub(crate) fn referral_load(storage: &MemoryStorage, code: &String) -> (r: Result<
    WhitelistData,
    StdError,
>)
    ensures
        r matches Ok(d) ==> lookup(referrals_of(*storage), code@) == Some(d@),
        decodes(*storage) ==> (r is Ok <==> referrals_of(*storage).contains_key(code@)),
{
    let m = cw_storage_plus::Map::<String, (String, String, u64)>::new(REFERRALS_NAMESPACE);
    let (ref_code, ref_address, count) = m.load(storage, code.clone())?;
    Ok(WhitelistData { ref_code, ref_address, count })
}

/// Relies on cw_storage_plus::Map::save over the referral namespace: it writes the
/// JSON of two strings and an integer, which cannot fail, under a key of this
/// namespace alone.
#[verifier::external_body]
pub(crate) fn referral_save(storage: &mut MemoryStorage, code: &String, data: &WhitelistData) -> (r:
    Result<(), StdError>)
    ensures
        r is Ok,
        referrals_of(*final(storage)) == referrals_of(*old(storage)).insert(code@, data@),
        whitelist_of(*final(storage)) == whitelist_of(*old(storage)),
        admin_of(*final(storage)) == admin_of(*old(storage)),
        decodes(*old(storage)) ==> decodes(*final(storage)),
{
    let value = (data.ref_code.clone(), data.ref_address.clone(), data.count);
    cw_storage_plus::Map::<String, (String, String, u64)>::new(REFERRALS_NAMESPACE).save(storage, code.clone(), &value)
}

/// Relies on cw_storage_plus::Item::save of the administrator: it writes the JSON
/// of a string, which cannot fail, under the administrator's key alone.
#[verifier::external_body]
pub(crate) fn admin_save(storage: &mut MemoryStorage, admin: &String) -> (r: Result<(), StdError>)
    ensures
        r is Ok,
        admin_of(*final(storage)) == Some(admin@),
        whitelist_of(*final(storage)) == whitelist_of(*old(storage)),
        referrals_of(*final(storage)) == referrals_of(*old(storage)),
        decodes(*old(storage)) ==> decodes(*final(storage)),
{
    cw_storage_plus::Item::<String>::new(ADMIN_NAMESPACE).save(storage, admin)
}

/// Relies on cw_storage_plus::Item::load of the administrator: the stored
/// address, and an error where none is stored.
#[verifier::external_body]
pub(crate) fn admin_load(storage: &MemoryStorage) -> (r: Result<String, StdError>)
    ensures
        r matches Ok(a) ==> admin_of(*storage) == Some(a@),
        decodes(*storage) ==> (r is Ok <==> admin_of(*storage) is Some),
{
    cw_storage_plus::Item::<String>::new(ADMIN_NAMESPACE).load(storage)
}

/// Relies on cw2::set_contract_version: an `Item::save` of two strings, whose JSON
/// cannot fail and is never empty, under its own "contract_info" key, apart from
/// the ledger's namespaces.
#[verifier::external_body]
pub(crate) fn record_version(storage: &mut MemoryStorage, name: &str, version: &str) -> (r: Result<
    (),
    StdError,
>)
    ensures
        r is Ok,
        whitelist_of(*final(storage)) == whitelist_of(*old(storage)),
        referrals_of(*final(storage)) == referrals_of(*old(storage)),
        admin_of(*final(storage)) == admin_of(*old(storage)),
        decodes(*old(storage)) ==> decodes(*final(storage)),
{
    cw2::set_contract_version(storage, name, version)
}

/// Relies on cw_paginate_storage::paginate_map over the whitelist namespace, in
/// descending order: the range walks keys by their bytes below the exclusive
/// bound `start_after` and takes at most `limit` entries. Only `deps.storage` is
/// read; the api and querier it needs are placeholders.
#[verifier::external_body]
pub(crate) fn whitelist_page(
    storage: &MemoryStorage,
    start_after: Option<String>,
    limit: Option<u32>,
) -> (r: Result<Vec<(String, bool)>, StdError>)
    ensures
        r matches Ok(p) ==> is_page(
            whitelist_of(*storage),
            cursor_view(start_after),
            limit_view(limit),
            flags_view(p@),
        ),
        decodes(*storage) ==> r is Ok,
{
    let (api, querier) = (MockApi::default(), MockQuerier::<Empty>::new(&[]));
    let deps = Deps { storage, api: &api, querier: QuerierWrapper::new(&querier) };
    let map = cw_storage_plus::Map::<String, bool>::new(WHITELIST_NAMESPACE);
    paginate_map(deps, &map, start_after, limit, Order::Descending)
}

/// Relies on cw_paginate_storage::paginate_map over the referral namespace, in
/// descending order, as for the whitelist.
#[verifier::external_body]
pub(crate) fn referral_page(
    storage: &MemoryStorage,
    start_after: Option<String>,
    limit: Option<u32>,
) -> (r: Result<Vec<(String, WhitelistData)>, StdError>)
    ensures
        r matches Ok(p) ==> is_page(
            referrals_of(*storage),
            cursor_view(start_after),
            limit_view(limit),
            records_view(p@),
        ),
        decodes(*storage) ==> r is Ok,
{
    let (api, querier) = (MockApi::default(), MockQuerier::<Empty>::new(&[]));
    let deps = Deps { storage, api: &api, querier: QuerierWrapper::new(&querier) };
    let map = cw_storage_plus::Map::<String, (String, String, u64)>::new(REFERRALS_NAMESPACE);
    let page = paginate_map(deps, &map, start_after, limit, Order::Descending)?;
    Ok(page.into_iter().map(|(k, (c, a, n))| (k, WhitelistData { ref_code: c, ref_address: a, count: n })).collect())
}

} // verus!
