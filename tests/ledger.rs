use cosmwasm_std::MemoryStorage;
use early_access::{
    execute, execute_join_whitelist, execute_withdraw, instantiate, query, query_get_refferal,
    query_is_whitelisted, query_list_ref_codes, query_list_whitelisted, self_referral_code,
    validate_payment, Coin, ContractError, ExecuteMsg, InstantiateMsg, MessageInfo, QueryMsg,
    QueryResponse, Response, JOIN_FEE,
};

const ONE: u128 = 1_000_000_000_000_000_000;

fn coin(denom: &str, amount: u128) -> Coin {
    Coin { denom: denom.to_string(), amount }
}

fn info(sender: &str, funds: Vec<Coin>) -> MessageInfo {
    MessageInfo { sender: sender.to_string(), funds }
}

fn fee() -> Vec<Coin> {
    vec![coin("inj", ONE)]
}

fn setup(admin: &str) -> MemoryStorage {
    let mut storage = MemoryStorage::new();
    instantiate(&mut storage, InstantiateMsg { admin: admin.to_string() }).unwrap();
    storage
}

fn join(storage: &mut MemoryStorage, sender: &str, code: &str) -> Result<Response, ContractError> {
    execute_join_whitelist(storage, info(sender, fee()), code.to_string())
}

fn attr(resp: &Response, i: usize) -> (String, String) {
    (resp.attributes[i].key.clone(), resp.attributes[i].value.clone())
}

fn snapshot(storage: &MemoryStorage) -> (Vec<(String, bool)>, Vec<(String, early_access::WhitelistData)>) {
    (
        query_list_whitelisted(storage, None, None).unwrap(),
        query_list_ref_codes(storage, None, None).unwrap(),
    )
}

#[test]
fn instantiate_reports_admin() {
    let mut storage = MemoryStorage::new();
    let resp = instantiate(&mut storage, InstantiateMsg { admin: "addr_admin".to_string() }).unwrap();
    assert!(resp.messages.is_empty());
    assert_eq!(attr(&resp, 0), ("action".to_string(), "instantiate".to_string()));
    assert_eq!(attr(&resp, 1), ("admin".to_string(), "addr_admin".to_string()));
}

#[test]
fn example_two_joiners_with_referral() {
    let mut storage = setup("addr_admin");
    let resp = join(&mut storage, "addr_1", "").unwrap();
    let code = self_referral_code(&"addr_1".to_string());
    assert_eq!(code, "jectar_1");
    assert_eq!(attr(&resp, 0), ("action".to_string(), "join_whitelist".to_string()));
    assert_eq!(attr(&resp, 1), ("ref_code".to_string(), code.clone()));
    assert_eq!(attr(&resp, 2), ("address".to_string(), "addr_1".to_string()));
    let rec = query_get_refferal(&storage, code.clone()).unwrap();
    assert_eq!(rec.ref_address, "addr_1");
    assert_eq!(rec.count, 0);
    join(&mut storage, "addr_2", &code).unwrap();
    let rec = query_get_refferal(&storage, code).unwrap();
    assert_eq!(rec.count, 1);
    assert_eq!(rec.ref_address, "addr_1");
}

#[test]
fn self_code_drops_chain_prefix() {
    assert_eq!(self_referral_code(&"inj1alice".to_string()), "jecta1alice");
    assert_eq!(self_referral_code(&"ab".to_string()), "jecta");
    assert_eq!(self_referral_code(&"".to_string()), "jecta");
}

#[test]
fn second_join_is_refused_and_changes_nothing() {
    let mut storage = setup("addr_admin");
    join(&mut storage, "inj1alice", "").unwrap();
    let before = snapshot(&storage);
    let err = join(&mut storage, "inj1alice", "").unwrap_err();
    assert_eq!(err, ContractError::AlreadyWhitelisted {});
    assert_eq!(snapshot(&storage), before);
}

#[test]
fn wrong_fee_is_payment_error() {
    let mut storage = setup("addr_admin");
    let err = execute_join_whitelist(&mut storage, info("inj1bob", vec![coin("inj", ONE - 1)]), String::new())
        .unwrap_err();
    assert_eq!(err, ContractError::PaymentError {});
    let err = execute_join_whitelist(&mut storage, info("inj1bob", vec![coin("inj", 2 * ONE)]), String::new())
        .unwrap_err();
    assert_eq!(err, ContractError::PaymentError {});
    assert!(!query_is_whitelisted(&storage, "inj1bob".to_string()).unwrap().is_whitelisted);
}

#[test]
fn missing_fee_is_payment_failed() {
    let mut storage = setup("addr_admin");
    let err = execute_join_whitelist(&mut storage, info("inj1bob", vec![]), String::new()).unwrap_err();
    assert_eq!(err, ContractError::PaymentFailed {});
    let err = execute_join_whitelist(&mut storage, info("inj1bob", vec![coin("usdt", ONE)]), String::new())
        .unwrap_err();
    assert_eq!(err, ContractError::PaymentFailed {});
}

#[test]
fn exact_fee_with_other_currencies_succeeds() {
    let mut storage = setup("addr_admin");
    let funds = vec![coin("usdt", 5), coin("inj", ONE), coin("atom", 7)];
    execute_join_whitelist(&mut storage, info("inj1carol", funds), String::new()).unwrap();
    assert!(query_is_whitelisted(&storage, "inj1carol".to_string()).unwrap().is_whitelisted);
}

#[test]
fn validate_payment_cases() {
    assert_eq!(JOIN_FEE, ONE);
    assert_eq!(validate_payment(&vec![coin("inj", ONE)]), Ok(()));
    assert_eq!(validate_payment(&vec![coin("inj", 0)]), Err(ContractError::PaymentError {}));
    assert_eq!(validate_payment(&vec![coin("x", 1)]), Err(ContractError::PaymentFailed {}));
    assert_eq!(
        validate_payment(&vec![coin("inj", ONE), coin("inj", 3)]),
        Err(ContractError::PaymentError {})
    );
}

#[test]
fn unknown_code_is_refused_without_effect() {
    let mut storage = setup("addr_admin");
    join(&mut storage, "inj1alice", "").unwrap();
    let before = snapshot(&storage);
    let err = join(&mut storage, "inj1bob", "jectanobody").unwrap_err();
    assert_eq!(err, ContractError::InvalidRefCode {});
    assert_eq!(snapshot(&storage), before);
    assert!(!query_is_whitelisted(&storage, "inj1bob".to_string()).unwrap().is_whitelisted);
}

#[test]
fn referral_credits_only_its_code() {
    let mut storage = setup("addr_admin");
    join(&mut storage, "inj1alice", "").unwrap();
    join(&mut storage, "inj1bob", "").unwrap();
    join(&mut storage, "inj1carol", "jecta1alice").unwrap();
    join(&mut storage, "inj1dave", "jecta1alice").unwrap();
    assert_eq!(query_get_refferal(&storage, "jecta1alice".to_string()).unwrap().count, 2);
    assert_eq!(query_get_refferal(&storage, "jecta1bob".to_string()).unwrap().count, 0);
    assert_eq!(query_get_refferal(&storage, "jecta1carol".to_string()).unwrap().count, 0);
    assert_eq!(query_get_refferal(&storage, "jecta1dave".to_string()).unwrap().count, 0);
}

#[test]
fn n_joins_give_n_entries_each() {
    let mut storage = setup("addr_admin");
    let names = ["inj1a", "inj1b", "inj1c", "inj1d", "inj1e"];
    for (n, name) in names.iter().enumerate() {
        let code = self_referral_code(&name.to_string());
        assert!(query_get_refferal(&storage, code.clone()).is_err());
        join(&mut storage, name, "").unwrap();
        assert!(query_get_refferal(&storage, code).is_ok());
        let (wl, refs) = snapshot(&storage);
        assert_eq!(wl.len(), n + 1);
        assert_eq!(refs.len(), n + 1);
    }
}

#[test]
fn pages_rebuild_full_listing() {
    let mut storage = setup("addr_admin");
    for name in ["inj1c", "inj1a", "inj1e", "inj1b", "inj1d"] {
        join(&mut storage, name, "").unwrap();
    }
    let full = query_list_whitelisted(&storage, None, None).unwrap();
    let keys: Vec<String> = full.iter().map(|e| e.0.clone()).collect();
    assert_eq!(keys, vec!["inj1e", "inj1d", "inj1c", "inj1b", "inj1a"]);
    let mut pages = Vec::new();
    let mut cursor: Option<String> = None;
    loop {
        let page = query_list_whitelisted(&storage, cursor.clone(), Some(2)).unwrap();
        if page.is_empty() {
            break;
        }
        cursor = Some(page.last().unwrap().0.clone());
        pages.extend(page);
    }
    assert_eq!(pages, full);

    let full = query_list_ref_codes(&storage, None, None).unwrap();
    let mut pages = Vec::new();
    let mut cursor: Option<String> = None;
    loop {
        let page = query_list_ref_codes(&storage, cursor.clone(), Some(3)).unwrap();
        let short = page.len() < 3;
        if let Some(last) = page.last() {
            cursor = Some(last.0.clone());
        }
        pages.extend(page);
        if short {
            break;
        }
    }
    assert_eq!(pages, full);
    assert_eq!(full[0].0, "jecta1e");
    assert_eq!(full[4].0, "jecta1a");
}

#[test]
fn zero_limit_gives_empty_page() {
    let mut storage = setup("addr_admin");
    join(&mut storage, "inj1a", "").unwrap();
    assert!(query_list_whitelisted(&storage, None, Some(0)).unwrap().is_empty());
    assert!(query_list_whitelisted(&storage, Some("inj1a".to_string()), None).unwrap().is_empty());
}

#[test]
fn withdraw_by_stranger_is_unauthorized() {
    let storage = setup("addr_admin");
    let err = execute_withdraw(&storage, info("addr_x", vec![]), vec![coin("inj", 5)]).unwrap_err();
    assert_eq!(err, ContractError::Unauthorized {});
}

#[test]
fn withdraw_with_nothing_is_refused() {
    let storage = setup("addr_admin");
    let err = execute_withdraw(&storage, info("addr_admin", vec![]), vec![coin("inj", 0)]).unwrap_err();
    assert_eq!(err, ContractError::Unauthorized {});
    let err = execute_withdraw(&storage, info("addr_admin", vec![]), vec![coin("usdt", 9)]).unwrap_err();
    assert_eq!(err, ContractError::Unauthorized {});
}

#[test]
fn withdraw_sends_native_balance_to_admin() {
    let storage = setup("addr_admin");
    let balances = vec![coin("usdt", 9), coin("inj", 3 * ONE), coin("atom", 1)];
    let resp = execute_withdraw(&storage, info("addr_admin", vec![]), balances).unwrap();
    assert_eq!(resp.messages.len(), 1);
    assert_eq!(resp.messages[0].to_address, "addr_admin");
    assert_eq!(resp.messages[0].amount, vec![coin("inj", 3 * ONE)]);
    assert_eq!(attr(&resp, 0), ("action".to_string(), "withdraw".to_string()));
    assert_eq!(attr(&resp, 1), ("admin".to_string(), "addr_admin".to_string()));
}

#[test]
fn withdraw_without_admin_is_storage_error() {
    let storage = MemoryStorage::new();
    let err = execute_withdraw(&storage, info("addr_admin", vec![]), vec![coin("inj", 1)]).unwrap_err();
    assert!(matches!(err, ContractError::Std(_)));
}

#[test]
fn missing_referral_lookup_is_error() {
    let storage = setup("addr_admin");
    assert!(query_get_refferal(&storage, "jectanone".to_string()).is_err());
    assert!(!query_is_whitelisted(&storage, "inj1zzz".to_string()).unwrap().is_whitelisted);
}

#[test]
fn dispatch_runs_actions_and_queries() {
    let mut storage = setup("addr_admin");
    execute(
        &mut storage,
        info("inj1alice", fee()),
        ExecuteMsg::JoinWhitelist { ref_code: String::new() },
        vec![],
    )
    .unwrap();
    let resp = execute(&mut storage, info("addr_admin", vec![]), ExecuteMsg::Withdraw {}, vec![coin("inj", ONE)])
        .unwrap();
    assert_eq!(resp.messages[0].amount, vec![coin("inj", ONE)]);
    match query(&storage, QueryMsg::IsWhitelisted { address: "inj1alice".to_string() }).unwrap() {
        QueryResponse::IsWhitelisted(r) => assert!(r.is_whitelisted),
        other => panic!("unexpected {:?}", other),
    }
    match query(&storage, QueryMsg::GetReferral { ref_code: "jecta1alice".to_string() }).unwrap() {
        QueryResponse::GetReferral(r) => {
            assert_eq!(r.ref_code, "jecta1alice");
            assert_eq!(r.ref_address, "inj1alice");
            assert_eq!(r.count, 0);
        }
        other => panic!("unexpected {:?}", other),
    }
    match query(&storage, QueryMsg::ListWhitelisted { start_after: None, limit: Some(10) }).unwrap() {
        QueryResponse::ListWhitelisted(p) => assert_eq!(p, vec![("inj1alice".to_string(), true)]),
        other => panic!("unexpected {:?}", other),
    }
    match query(&storage, QueryMsg::ListReferrals { start_after: None, limit: None }).unwrap() {
        QueryResponse::ListReferrals(p) => assert_eq!(p.len(), 1),
        other => panic!("unexpected {:?}", other),
    }
    assert!(query(&storage, QueryMsg::GetReferral { ref_code: "nope".to_string() }).is_err());
}

#[test]
fn empty_code_credits_no_record() {
    let mut storage = setup("addr_admin");
    join(&mut storage, "inj1alice", "").unwrap();
    join(&mut storage, "inj1bob", "").unwrap();
    assert_eq!(query_get_refferal(&storage, "jecta1alice".to_string()).unwrap().count, 0);
    assert_eq!(query_get_refferal(&storage, "jecta1bob".to_string()).unwrap().count, 0);
    assert!(query_get_refferal(&storage, String::new()).is_err());
}
