//! The ledger's actions and queries: joining, withdrawing, and reading the store.

use cosmwasm_std::{MemoryStorage, StdError};
use crate::error::ContractError;
use crate::keys::is_page;
use crate::msg::{
    attr_is, Attribute, BankSend, Coin, ExecuteMsg, GetReferralResponse, InstantiateMsg,
    IsWhitelistedResponse, MessageInfo, QueryMsg, QueryResponse, Response,
};
use crate::state::{
    admin_load, admin_of, admin_save, cursor_view, decodes, flags_view, limit_view,
    record_version, records_view, referral_load, referral_may_load, referral_page, referral_save,
    referrals_of, whitelist_may_load, whitelist_of, whitelist_page, whitelist_save, RecordView,
    WhitelistData,
};
use vstd::prelude::*;

verus! {

/// The currency in which the fee is paid and the treasury is swept.
pub const NATIVE_DENOM: &'static str = "inj";

/// The fee for joining: one unit of the native currency, in minor units.
pub const JOIN_FEE: u128 = 1_000_000_000_000_000_000;

/// Every referral code minted at join time starts with this.
pub const REF_CODE_PREFIX: &'static str = "jecta";

/// How many leading characters of an address (its chain prefix, such as "inj")
/// are dropped when its referral code is derived. Addresses are assumed to share
/// a prefix of this length; a shorter address is dropped whole.
pub const ADDRESS_PREFIX_LEN: usize = 3;

pub const CONTRACT_NAME: &'static str = "crates.io:early-access";

pub const CONTRACT_VERSION: &'static str = "0.1.0";

pub open spec fn is_native(c: Coin) -> bool {
    c.denom@ == NATIVE_DENOM@
}

/// Why the funds attached to a join do not pay the fee, if they do not.
pub open spec fn payment_refusal(funds: Seq<Coin>) -> Option<ContractError> {
    if exists|i: int| 0 <= i < funds.len() && is_native(funds[i]) && funds[i].amount != JOIN_FEE {
        Some(ContractError::PaymentError {  })
    } else if !(exists|i: int| 0 <= i < funds.len() && is_native(funds[i])) {
        Some(ContractError::PaymentFailed {  })
    } else {
        None
    }
}

/// The referral code that an address receives when it joins.
pub open spec fn self_ref_code(address: Seq<char>) -> Seq<char> {
    let skip = if address.len() < ADDRESS_PREFIX_LEN {
        address.len()
    } else {
        ADDRESS_PREFIX_LEN as nat
    };
    REF_CODE_PREFIX@ + address.subrange(skip as int, address.len() as int)
}

/// Why a join by `sender` with `funds` and referral `code` is refused, if it is.
pub open spec fn join_refusal(
    whitelist: Map<Seq<char>, bool>,
    referrals: Map<Seq<char>, RecordView>,
    sender: Seq<char>,
    funds: Seq<Coin>,
    code: Seq<char>,
) -> Option<ContractError> {
    if whitelist.contains_key(sender) {
        Some(ContractError::AlreadyWhitelisted {  })
    } else if payment_refusal(funds) is Some {
        payment_refusal(funds)
    } else if !referrals.contains_key(code) && code.len() > 0 {
        Some(ContractError::InvalidRefCode {  })
    } else {
        None
    }
}

/// The referral map after a non-empty `code`, where it is owned, has been credited
/// one join; an empty code credits nothing.
pub open spec fn credited(referrals: Map<Seq<char>, RecordView>, code: Seq<char>) -> Map<
    Seq<char>,
    RecordView,
> {
    if code.len() > 0 && referrals.contains_key(code) {
        let rec = referrals[code];
        referrals.insert(code, (rec.0, rec.1, (rec.2 + 1) as u64))
    } else {
        referrals
    }
}

/// The referral map after `sender` joined with referral `code`: the code credited,
/// and a fresh record for the sender's own code.
pub open spec fn joined_referrals(
    referrals: Map<Seq<char>, RecordView>,
    sender: Seq<char>,
    code: Seq<char>,
) -> Map<Seq<char>, RecordView> {
    credited(referrals, code).insert(self_ref_code(sender), (self_ref_code(sender), sender, 0u64))
}

/// Crediting `code` stays within a count's range.
pub open spec fn credit_fits(s: MemoryStorage, code: Seq<char>) -> bool {
    code.len() > 0 && referrals_of(s).contains_key(code) ==> referrals_of(s)[code].2 < u64::MAX
}

/// What a join from store `s0` to store `s1` with result `r` satisfies.
pub open spec fn join_post(
    s0: MemoryStorage,
    s1: MemoryStorage,
    info: MessageInfo,
    code: Seq<char>,
    r: Result<Response, ContractError>,
) -> bool {
    let whitelist = whitelist_of(s0);
    let referrals = referrals_of(s0);
    let sender = info.sender@;
    &&& decodes(s0) ==> decodes(s1)
    &&& decodes(s0) ==> match join_refusal(whitelist, referrals, sender, info.funds@, code) {
        Some(e) => r == Err::<Response, ContractError>(e),
        None => r is Ok,
    }
    &&& r is Err ==> s1 == s0
    &&& r matches Ok(resp) ==> {
        &&& join_refusal(whitelist, referrals, sender, info.funds@, code) is None
        &&& whitelist_of(s1) == whitelist.insert(sender, true)
        &&& referrals_of(s1) == joined_referrals(referrals, sender, code)
        &&& admin_of(s1) == admin_of(s0)
        &&& resp.messages@.len() == 0
        &&& resp.attributes@.len() == 3
        &&& attr_is(resp.attributes@[0], "action"@, "join_whitelist"@)
        &&& attr_is(resp.attributes@[1], "ref_code"@, self_ref_code(sender))
        &&& attr_is(resp.attributes@[2], "address"@, sender)
    }
}

/// The first native-currency entry among `coins`.
pub open spec fn first_native(coins: Seq<Coin>) -> Option<Coin>
    decreases coins.len(),
{
    if coins.len() == 0 {
        None
    } else if is_native(coins[0]) {
        Some(coins[0])
    } else {
        first_native(coins.drop_first())
    }
}

/// What a withdrawal by `info.sender` against store `s`, whose account holds
/// `balances`, satisfies.
pub open spec fn withdraw_post(
    s: MemoryStorage,
    info: MessageInfo,
    balances: Seq<Coin>,
    r: Result<Response, ContractError>,
) -> bool {
    &&& decodes(s) ==> match admin_of(s) {
        None => r matches Err(ContractError::Std(_)),
        Some(admin) => if admin != info.sender@ {
            r == Err::<Response, ContractError>(ContractError::Unauthorized {  })
        } else if first_native(balances) matches Some(c) && c.amount > 0 {
            r is Ok
        } else {
            r == Err::<Response, ContractError>(ContractError::Unauthorized {  })
        },
    }
    &&& r matches Ok(resp) ==> {
        &&& admin_of(s) == Some(info.sender@)
        &&& first_native(balances) matches Some(c) && c.amount > 0
        &&& resp.messages@.len() == 1
        &&& resp.messages@[0].to_address@ == info.sender@
        &&& resp.messages@[0].amount@ == seq![first_native(balances).unwrap()]
        &&& resp.attributes@.len() == 2
        &&& attr_is(resp.attributes@[0], "action"@, "withdraw"@)
        &&& attr_is(resp.attributes@[1], "admin"@, info.sender@)
    }
}

fn attribute(key: &str, value: String) -> (a: Attribute)
    ensures
        a.key@ == key@,
        a.value@ == value@,
{
    Attribute { key: String::from_str(key), value }
}

/// Checks the funds attached to a join: exactly the fee in the native currency;
/// other currencies are ignored.
pub fn validate_payment(funds: &Vec<Coin>) -> (r: Result<(), ContractError>)
    ensures
        r == match payment_refusal(funds@) {
            Some(e) => Err::<(), ContractError>(e),
            None => Ok(()),
        },
{
    let native = String::from_str(NATIVE_DENOM);
    let mut found = false;
    let mut i: usize = 0;
    while i < funds.len()
        invariant
            0 <= i <= funds.len(),
            native@ == NATIVE_DENOM@,
            found == exists|j: int| 0 <= j < i && is_native(funds@[j]),
            forall|j: int| 0 <= j < i && is_native(funds@[j]) ==> funds@[j].amount == JOIN_FEE,
        decreases funds.len() - i,
    {
        let coin = &funds[i];
        if coin.denom == native {
            if coin.amount != JOIN_FEE {
                return Err(ContractError::PaymentError {  });
            }
            found = true;
        }
        i = i + 1;
    }
    if !found {
        return Err(ContractError::PaymentFailed {  });
    }
    Ok(())
}

/// The referral code minted for `address`: the prefix, then the address without
/// its leading chain prefix.
pub fn self_referral_code(address: &String) -> (r: String)
    ensures
        r@ == self_ref_code(address@),
{
    let n = address.as_str().unicode_len();
    let skip = if n < ADDRESS_PREFIX_LEN {
        n
    } else {
        ADDRESS_PREFIX_LEN
    };
    let mut code = String::from_str(REF_CODE_PREFIX);
    code.append(address.as_str().substring_char(skip, n));
    code
}

/// Records the administrator and the contract's version.
pub fn instantiate(storage: &mut MemoryStorage, msg: InstantiateMsg) -> (r: Result<
    Response,
    ContractError,
>)
    ensures
        decodes(*old(storage)) ==> decodes(*final(storage)),
        whitelist_of(*final(storage)) == whitelist_of(*old(storage)),
        referrals_of(*final(storage)) == referrals_of(*old(storage)),
        r is Ok,
        r matches Ok(resp) ==> {
            &&& admin_of(*final(storage)) == Some(msg.admin@)
            &&& resp.messages@.len() == 0
            &&& resp.attributes@.len() == 2
            &&& attr_is(resp.attributes@[0], "action"@, "instantiate"@)
            &&& attr_is(resp.attributes@[1], "admin"@, msg.admin@)
        },
{
    if let Err(e) = record_version(storage, CONTRACT_NAME, CONTRACT_VERSION) {
        return Err(ContractError::Std(e));
    }
    if let Err(e) = admin_save(storage, &msg.admin) {
        return Err(ContractError::Std(e));
    }
    let mut attributes = Vec::new();
    attributes.push(attribute("action", String::from_str("instantiate")));
    attributes.push(attribute("admin", msg.admin));
    Ok(Response { messages: Vec::new(), attributes })
}

/// Credits one join to a non-empty `code` where someone owns it; an empty code
/// needs no owner and credits nothing.
fn resolve_referral(storage: &mut MemoryStorage, code: &String) -> (r: Result<(), ContractError>)
    requires
        credit_fits(*old(storage), code@),
    ensures
        decodes(*old(storage)) ==> decodes(*final(storage)),
        decodes(*old(storage)) ==> (r is Ok <==> (referrals_of(*old(storage)).contains_key(code@)
            || code@.len() == 0)),
        decodes(*old(storage)) && r is Err ==> r == Err::<(), ContractError>(
            ContractError::InvalidRefCode {  },
        ),
        r is Err ==> *final(storage) == *old(storage),
        r is Ok ==> (referrals_of(*old(storage)).contains_key(code@) || code@.len() == 0),
        r is Ok ==> referrals_of(*final(storage)) == credited(referrals_of(*old(storage)), code@),
        whitelist_of(*final(storage)) == whitelist_of(*old(storage)),
        admin_of(*final(storage)) == admin_of(*old(storage)),
{
    if code.as_str().unicode_len() == 0 {
        return Ok(());
    }
    match referral_may_load(storage, code) {
        Err(e) => Err(ContractError::Std(e)),
        Ok(Some(mut referrer)) => {
            referrer.count = referrer.count + 1;
            match referral_save(storage, code, &referrer) {
                Ok(()) => Ok(()),
                Err(e) => Err(ContractError::Std(e)),
            }
        },
        Ok(None) => Err(ContractError::InvalidRefCode {  }),
    }
}

/// Joins `info.sender` to the whitelist, paying the fee and optionally crediting
/// the referral code `ref_code` (empty: no referrer), and mints the sender's own
/// referral code with a count of zero. A refused join changes nothing.
pub fn execute_join_whitelist(storage: &mut MemoryStorage, info: MessageInfo, ref_code: String) -> (r:
    Result<Response, ContractError>)
    requires
        credit_fits(*old(storage), ref_code@),
    ensures
        join_post(*old(storage), *final(storage), info, ref_code@, r),
{
    match whitelist_may_load(storage, &info.sender) {
        Err(e) => return Err(ContractError::Std(e)),
        Ok(Some(_)) => return Err(ContractError::AlreadyWhitelisted {  }),
        Ok(None) => {},
    }
    validate_payment(&info.funds)?;
    resolve_referral(storage, &ref_code)?;
    let own_code = self_referral_code(&info.sender);
    let entry = WhitelistData {
        ref_code: own_code.clone(),
        ref_address: info.sender.clone(),
        count: 0,
    };
    if let Err(e) = referral_save(storage, &own_code, &entry) {
        return Err(ContractError::Std(e));
    }
    if let Err(e) = whitelist_save(storage, &info.sender, true) {
        return Err(ContractError::Std(e));
    }
    let mut attributes = Vec::new();
    attributes.push(attribute("action", String::from_str("join_whitelist")));
    attributes.push(attribute("ref_code", own_code));
    attributes.push(attribute("address", info.sender));
    Ok(Response { messages: Vec::new(), attributes })
}

/// Sends the whole native-currency balance of the ledger's account, `balances`,
/// to the administrator. Only the administrator may ask, and only when that
/// balance is positive.
pub fn execute_withdraw(storage: &MemoryStorage, info: MessageInfo, balances: Vec<Coin>) -> (r:
    Result<Response, ContractError>)
    ensures
        withdraw_post(*storage, info, balances@, r),
{
    let admin = match admin_load(storage) {
        Ok(a) => a,
        Err(e) => return Err(ContractError::Std(e)),
    };
    if info.sender != admin {
        return Err(ContractError::Unauthorized {  });
    }
    let native = String::from_str(NATIVE_DENOM);
    let mut balances = balances;
    let ghost all = balances@;
    let mut i: usize = 0;
    let mut found = false;
    assert(all.subrange(0, all.len() as int) =~= all);
    while !found && i < balances.len()
        invariant
            0 <= i <= balances.len(),
            balances@ == all,
            native@ == NATIVE_DENOM@,
            found ==> i < all.len() && first_native(all) == Some(all[i as int]),
            !found ==> first_native(all) == first_native(all.subrange(i as int, all.len() as int)),
        decreases balances.len() - i + (if found { 0int } else { 1int }),
    {
        assert(all.subrange(i as int, all.len() as int).drop_first() =~= all.subrange(
            i + 1,
            all.len() as int,
        ));
        if balances[i].denom == native {
            found = true;
        } else {
            i = i + 1;
        }
    }
    if !found {
        assert(all.subrange(i as int, all.len() as int).len() == 0);
        return Err(ContractError::Unauthorized {  });
    }
    let coin = balances.remove(i);
    if coin.amount == 0 {
        return Err(ContractError::Unauthorized {  });
    }
    let mut amount = Vec::new();
    amount.push(coin);
    let mut messages = Vec::new();
    messages.push(BankSend { to_address: admin.clone(), amount });
    let mut attributes = Vec::new();
    attributes.push(attribute("action", String::from_str("withdraw")));
    attributes.push(attribute("admin", admin));
    Ok(Response { messages, attributes })
}

/// Whether `address` has a whitelist entry, that is, whether it has joined. The address
/// is expected to be validated by the host beforehand.
pub fn query_is_whitelisted(storage: &MemoryStorage, address: String) -> (r: Result<
    IsWhitelistedResponse,
    StdError,
>)
    ensures
        decodes(*storage) ==> r is Ok,
        r matches Ok(resp) ==> resp.is_whitelisted == whitelist_of(*storage).contains_key(address@),
{
    let is_whitelisted = match whitelist_may_load(storage, &address)? {
        Some(_) => true,
        None => false,
    };
    Ok(IsWhitelistedResponse { is_whitelisted })
}

/// The referral record under `ref_code`; a code that no one owns is an error.
pub fn query_get_refferal(storage: &MemoryStorage, ref_code: String) -> (r: Result<
    GetReferralResponse,
    StdError,
>)
    ensures
        decodes(*storage) ==> (r is Ok <==> referrals_of(*storage).contains_key(ref_code@)),
        r matches Ok(resp) ==> {
            &&& referrals_of(*storage).contains_key(ref_code@)
            &&& resp.ref_code@ == ref_code@
            &&& resp.ref_address@ == referrals_of(*storage)[ref_code@].1
            &&& resp.count == referrals_of(*storage)[ref_code@].2
        },
{
    let record = referral_load(storage, &ref_code)?;
    Ok(GetReferralResponse { ref_code, ref_address: record.ref_address, count: record.count })
}

/// One page of the whitelist in descending address order: entries strictly below
/// `start_after`, at most `limit` of them.
pub fn query_list_whitelisted(
    storage: &MemoryStorage,
    start_after: Option<String>,
    limit: Option<u32>,
) -> (r: Result<Vec<(String, bool)>, StdError>)
    ensures
        decodes(*storage) ==> r is Ok,
        r matches Ok(p) ==> is_page(
            whitelist_of(*storage),
            cursor_view(start_after),
            limit_view(limit),
            flags_view(p@),
        ),
{
    whitelist_page(storage, start_after, limit)
}

/// One page of the referral records in descending code order: entries strictly
/// below `start_after`, at most `limit` of them.
pub fn query_list_ref_codes(
    storage: &MemoryStorage,
    start_after: Option<String>,
    limit: Option<u32>,
) -> (r: Result<Vec<(String, WhitelistData)>, StdError>)
    ensures
        decodes(*storage) ==> r is Ok,
        r matches Ok(p) ==> is_page(
            referrals_of(*storage),
            cursor_view(start_after),
            limit_view(limit),
            records_view(p@),
        ),
{
    referral_page(storage, start_after, limit)
}

/// Runs an action. `balances` is what the ledger's account holds; only a
/// withdrawal reads it.
pub fn execute(
    storage: &mut MemoryStorage,
    info: MessageInfo,
    msg: ExecuteMsg,
    balances: Vec<Coin>,
) -> (r: Result<Response, ContractError>)
    requires
        msg matches ExecuteMsg::JoinWhitelist { ref_code } ==> credit_fits(*old(storage), ref_code@),
    ensures
        match msg {
            ExecuteMsg::JoinWhitelist { ref_code } => join_post(
                *old(storage),
                *final(storage),
                info,
                ref_code@,
                r,
            ),
            ExecuteMsg::Withdraw {  } => *final(storage) == *old(storage) && withdraw_post(
                *old(storage),
                info,
                balances@,
                r,
            ),
        },
{
    match msg {
        ExecuteMsg::JoinWhitelist { ref_code } => execute_join_whitelist(storage, info, ref_code),
        ExecuteMsg::Withdraw {  } => execute_withdraw(storage, info, balances),
    }
}

/// Answers a query; each kind is answered as its own function answers it.
pub fn query(storage: &MemoryStorage, msg: QueryMsg) -> (r: Result<QueryResponse, StdError>)
    ensures
        decodes(*storage) && r is Err ==> (msg matches QueryMsg::GetReferral { ref_code }
            && !referrals_of(*storage).contains_key(ref_code@)),
        r matches Ok(resp) ==> match msg {
            QueryMsg::IsWhitelisted { address } => resp matches QueryResponse::IsWhitelisted(x)
                && x.is_whitelisted == whitelist_of(*storage).contains_key(address@),
            QueryMsg::GetReferral { ref_code } => resp matches QueryResponse::GetReferral(x)
                && referrals_of(*storage).contains_key(ref_code@) && x.ref_code@ == ref_code@
                && x.ref_address@ == referrals_of(*storage)[ref_code@].1 && x.count
                == referrals_of(*storage)[ref_code@].2,
            QueryMsg::ListWhitelisted { start_after, limit } => resp matches QueryResponse::ListWhitelisted(p)
                && is_page(
                whitelist_of(*storage),
                cursor_view(start_after),
                limit_view(limit),
                flags_view(p@),
            ),
            QueryMsg::ListReferrals { start_after, limit } => resp matches QueryResponse::ListReferrals(p)
                && is_page(
                referrals_of(*storage),
                cursor_view(start_after),
                limit_view(limit),
                records_view(p@),
            ),
        },
{
    match msg {
        QueryMsg::IsWhitelisted { address } => Ok(
            QueryResponse::IsWhitelisted(query_is_whitelisted(storage, address)?),
        ),
        QueryMsg::GetReferral { ref_code } => Ok(
            QueryResponse::GetReferral(query_get_refferal(storage, ref_code)?),
        ),
        QueryMsg::ListWhitelisted { start_after, limit } => Ok(
            QueryResponse::ListWhitelisted(query_list_whitelisted(storage, start_after, limit)?),
        ),
        QueryMsg::ListReferrals { start_after, limit } => Ok(
            QueryResponse::ListReferrals(query_list_ref_codes(storage, start_after, limit)?),
        ),
    }
}

} // verus!
