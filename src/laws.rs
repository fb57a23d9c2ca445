//! Laws of the ledger that relate several actions, proved from the contracts of
//! the actions themselves.

use cosmwasm_std::MemoryStorage;
use crate::contract::{
    credit_fits, credited, is_native, ADDRESS_PREFIX_LEN, REF_CODE_PREFIX, join_post, joined_referrals, payment_refusal, self_ref_code,
    JOIN_FEE,
};
use crate::error::ContractError;
use crate::msg::{MessageInfo, Response};
use crate::state::{decodes, referrals_of, whitelist_of, RecordView};
use vstd::prelude::*;

verus! {

/// An address that has joined cannot join again: the second attempt is refused
/// as already whitelisted and leaves the store exactly as the first join left it.
pub proof fn lemma_second_join_refused(
    s0: MemoryStorage,
    s1: MemoryStorage,
    s2: MemoryStorage,
    first: MessageInfo,
    first_code: Seq<char>,
    r1: Result<Response, ContractError>,
    second: MessageInfo,
    second_code: Seq<char>,
    r2: Result<Response, ContractError>,
)
    requires
        decodes(s0),
        join_post(s0, s1, first, first_code, r1),
        r1 is Ok,
        second.sender@ == first.sender@,
        join_post(s1, s2, second, second_code, r2),
    ensures
        r2 == Err::<Response, ContractError>(ContractError::AlreadyWhitelisted {  }),
        s2 == s1,
{
    assert(whitelist_of(s1).contains_key(second.sender@));
}

/// For an address that has not joined, offering a code that is empty or owned,
/// the fee alone decides: a native payment of another amount is a payment error,
/// no native payment is a failed payment, and exactly the fee is a success.
pub proof fn lemma_fee_decides(
    s0: MemoryStorage,
    s1: MemoryStorage,
    info: MessageInfo,
    code: Seq<char>,
    r: Result<Response, ContractError>,
)
    requires
        decodes(s0),
        !whitelist_of(s0).contains_key(info.sender@),
        code.len() == 0 || referrals_of(s0).contains_key(code),
        join_post(s0, s1, info, code, r),
    ensures
        (exists|i: int|
            0 <= i < info.funds@.len() && is_native(info.funds@[i]) && info.funds@[i].amount
                != JOIN_FEE) ==> r == Err::<Response, ContractError>(
            ContractError::PaymentError {  },
        ),
        !(exists|i: int| 0 <= i < info.funds@.len() && is_native(info.funds@[i])) ==> r == Err::<
            Response,
            ContractError,
        >(ContractError::PaymentFailed {  }),
        (exists|i: int| 0 <= i < info.funds@.len() && is_native(info.funds@[i])) && (forall|i: int|
            0 <= i < info.funds@.len() && is_native(info.funds@[i]) ==> info.funds@[i].amount
                == JOIN_FEE) ==> r is Ok,
        r is Err ==> s1 == s0,
{
}

/// A join by an address that has not joined, with the fee paid, naming a
/// non-empty code that no one owns, is refused as an invalid code and changes
/// nothing: in particular the address gets no whitelist entry.
pub proof fn lemma_unknown_code_refused(
    s0: MemoryStorage,
    s1: MemoryStorage,
    info: MessageInfo,
    code: Seq<char>,
    r: Result<Response, ContractError>,
)
    requires
        decodes(s0),
        !whitelist_of(s0).contains_key(info.sender@),
        payment_refusal(info.funds@) is None,
        code.len() > 0,
        !referrals_of(s0).contains_key(code),
        join_post(s0, s1, info, code, r),
    ensures
        r == Err::<Response, ContractError>(ContractError::InvalidRefCode {  }),
        s1 == s0,
        !whitelist_of(s1).contains_key(info.sender@),
{
}

/// A successful join naming an owned, non-empty code raises that code's count by exactly one
/// and leaves every other record that existed before as it was, where the
/// joiner's own code was not already taken.
pub proof fn lemma_referral_credited(
    s0: MemoryStorage,
    s1: MemoryStorage,
    info: MessageInfo,
    code: Seq<char>,
    r: Result<Response, ContractError>,
)
    requires
        credit_fits(s0, code),
        code.len() > 0,
        referrals_of(s0).contains_key(code),
        !referrals_of(s0).contains_key(self_ref_code(info.sender@)),
        join_post(s0, s1, info, code, r),
        r is Ok,
    ensures
        referrals_of(s1).contains_key(code),
        referrals_of(s1)[code].2 == referrals_of(s0)[code].2 + 1,
        referrals_of(s1)[code].0 == referrals_of(s0)[code].0,
        referrals_of(s1)[code].1 == referrals_of(s0)[code].1,
        forall|k: Seq<char>|
            #![trigger referrals_of(s0)[k]]
            referrals_of(s0).contains_key(k) && k != code ==> referrals_of(s1).contains_key(k)
                && referrals_of(s1)[k] == referrals_of(s0)[k],
{
}

/// A successful join with an empty referral code credits no one: every record
/// that existed before is left as it was, where the joiner's own code was not
/// already taken.
pub proof fn lemma_empty_code_credits_nothing(
    s0: MemoryStorage,
    s1: MemoryStorage,
    info: MessageInfo,
    r: Result<Response, ContractError>,
)
    requires
        !referrals_of(s0).contains_key(self_ref_code(info.sender@)),
        join_post(s0, s1, info, Seq::empty(), r),
        r is Ok,
    ensures
        forall|k: Seq<char>|
            #![trigger referrals_of(s0)[k]]
            referrals_of(s0).contains_key(k) ==> referrals_of(s1).contains_key(k)
                && referrals_of(s1)[k] == referrals_of(s0)[k],
{
}

/// A run of successful joins from an empty store, one after another.
pub open spec fn join_run(
    states: Seq<MemoryStorage>,
    infos: Seq<MessageInfo>,
    codes: Seq<Seq<char>>,
    results: Seq<Result<Response, ContractError>>,
) -> bool {
    &&& states.len() == infos.len() + 1
    &&& codes.len() == infos.len()
    &&& results.len() == infos.len()
    &&& whitelist_of(states[0]) == Map::<Seq<char>, bool>::empty()
    &&& referrals_of(states[0]) == Map::<Seq<char>, RecordView>::empty()
    &&& forall|i: int|
        0 <= i < infos.len() ==> #[trigger] join_post(
            states[i],
            states[i + 1],
            infos[i],
            codes[i],
            results[i],
        ) && results[i] is Ok
}

proof fn lemma_join_run_prefix(
    states: Seq<MemoryStorage>,
    infos: Seq<MessageInfo>,
    codes: Seq<Seq<char>>,
    results: Seq<Result<Response, ContractError>>,
    k: int,
)
    requires
        join_run(states, infos, codes, results),
        forall|i: int, j: int|
            0 <= i < j < infos.len() ==> self_ref_code(#[trigger] infos[i].sender@)
                != self_ref_code(#[trigger] infos[j].sender@),
        0 <= k <= infos.len(),
    ensures
        whitelist_of(states[k]).dom().finite(),
        whitelist_of(states[k]).dom().len() == k,
        referrals_of(states[k]).dom().finite(),
        referrals_of(states[k]).dom().len() == k,
        forall|c: Seq<char>|
            #![trigger referrals_of(states[k]).contains_key(c)]
            referrals_of(states[k]).contains_key(c) <==> exists|j: int|
                0 <= j < k && self_ref_code(infos[j].sender@) == c,
    decreases k,
{
    if k == 0 {
        assert(whitelist_of(states[0]).dom() =~= Set::<Seq<char>>::empty());
        assert(referrals_of(states[0]).dom() =~= Set::<Seq<char>>::empty());
    } else {
        let i = k - 1;
        lemma_join_run_prefix(states, infos, codes, results, i);
        assert(join_post(states[i], states[i + 1], infos[i], codes[i], results[i]));
        let sender = infos[i].sender@;
        let own = self_ref_code(sender);
        let refs = referrals_of(states[i]);
        assert(!refs.contains_key(own)) by {
            if refs.contains_key(own) {
                let j = choose|j: int| 0 <= j < i && self_ref_code(infos[j].sender@) == own;
                assert(self_ref_code(infos[j].sender@) != self_ref_code(infos[i].sender@));
            }
        }
        assert(credited(refs, codes[i]).dom() =~= refs.dom());
        assert(referrals_of(states[k]).dom() =~= refs.dom().insert(own));
        assert(whitelist_of(states[k]).dom() =~= whitelist_of(states[i]).dom().insert(sender));
        assert forall|c: Seq<char>|
            #![trigger referrals_of(states[k]).contains_key(c)]
            referrals_of(states[k]).contains_key(c) <==> exists|j: int|
                0 <= j < k && self_ref_code(infos[j].sender@) == c by {
            if c == own {
                assert(self_ref_code(infos[i].sender@) == c);
            } else if referrals_of(states[k]).contains_key(c) {
                assert(refs.contains_key(c));
            } else if exists|j: int| 0 <= j < k && self_ref_code(infos[j].sender@) == c {
                let j = choose|j: int| 0 <= j < k && self_ref_code(infos[j].sender@) == c;
                assert(j < i);
                assert(refs.contains_key(c));
            }
        }
    }
}

/// After a run of successful joins from an empty store, the whitelist and the
/// referral map hold exactly as many entries as there were joins, and each
/// joiner's own code is absent before its join and present right after, where
/// the joiners' own codes are pairwise distinct.
pub proof fn lemma_joins_count(
    states: Seq<MemoryStorage>,
    infos: Seq<MessageInfo>,
    codes: Seq<Seq<char>>,
    results: Seq<Result<Response, ContractError>>,
)
    requires
        join_run(states, infos, codes, results),
        forall|i: int, j: int|
            0 <= i < j < infos.len() ==> self_ref_code(#[trigger] infos[i].sender@)
                != self_ref_code(#[trigger] infos[j].sender@),
    ensures
        whitelist_of(states.last()).dom().len() == infos.len(),
        referrals_of(states.last()).dom().len() == infos.len(),
        forall|i: int|
            0 <= i < infos.len() ==> !referrals_of(states[i]).contains_key(
                self_ref_code(#[trigger] infos[i].sender@),
            ) && referrals_of(states[i + 1]).contains_key(self_ref_code(infos[i].sender@)),
{
    lemma_join_run_prefix(states, infos, codes, results, infos.len() as int);
    assert forall|i: int| 0 <= i < infos.len() implies !referrals_of(states[i]).contains_key(
        self_ref_code(#[trigger] infos[i].sender@),
    ) && referrals_of(states[i + 1]).contains_key(self_ref_code(infos[i].sender@)) by {
        lemma_join_run_prefix(states, infos, codes, results, i);
        assert(join_post(states[i], states[i + 1], infos[i], codes[i], results[i]));
        let own = self_ref_code(infos[i].sender@);
        if referrals_of(states[i]).contains_key(own) {
            let j = choose|j: int| 0 <= j < i && self_ref_code(infos[j].sender@) == own;
            assert(self_ref_code(infos[j].sender@) != self_ref_code(infos[i].sender@));
        }
    }
}

proof fn lemma_run_keeps_joiners(
    states: Seq<MemoryStorage>,
    infos: Seq<MessageInfo>,
    codes: Seq<Seq<char>>,
    results: Seq<Result<Response, ContractError>>,
    k: int,
)
    requires
        join_run(states, infos, codes, results),
        0 <= k <= infos.len(),
    ensures
        forall|i: int|
            0 <= i < k ==> whitelist_of(states[k]).contains_key(#[trigger] infos[i].sender@),
    decreases k,
{
    if k > 0 {
        let i = k - 1;
        lemma_run_keeps_joiners(states, infos, codes, results, i);
        assert(join_post(states[i], states[i + 1], infos[i], codes[i], results[i]));
    }
}

/// The count law for joiners whose addresses share one chain prefix of the
/// expected length: their own codes are then distinct, since an address joins at
/// most once, so the whitelist and the referral map each hold exactly one entry
/// per join, and each joiner's own code is absent before its join and present
/// right after.
pub proof fn lemma_joins_count_common_prefix(
    states: Seq<MemoryStorage>,
    infos: Seq<MessageInfo>,
    codes: Seq<Seq<char>>,
    results: Seq<Result<Response, ContractError>>,
)
    requires
        join_run(states, infos, codes, results),
        forall|i: int|
            0 <= i < infos.len() ==> (#[trigger] infos[i].sender@).len() >= ADDRESS_PREFIX_LEN,
        forall|i: int, j: int|
            0 <= i < infos.len() && 0 <= j < infos.len() ==> (#[trigger] infos[i].sender@).subrange(
                0,
                ADDRESS_PREFIX_LEN as int,
            ) == (#[trigger] infos[j].sender@).subrange(0, ADDRESS_PREFIX_LEN as int),
    ensures
        whitelist_of(states.last()).dom().len() == infos.len(),
        referrals_of(states.last()).dom().len() == infos.len(),
        forall|i: int|
            0 <= i < infos.len() ==> !referrals_of(states[i]).contains_key(
                self_ref_code(#[trigger] infos[i].sender@),
            ) && referrals_of(states[i + 1]).contains_key(self_ref_code(infos[i].sender@)),
{
    let n = ADDRESS_PREFIX_LEN as int;
    assert forall|i: int, j: int| 0 <= i < j < infos.len() implies self_ref_code(
        #[trigger] infos[i].sender@,
    ) != self_ref_code(#[trigger] infos[j].sender@) by {
        lemma_run_keeps_joiners(states, infos, codes, results, j);
        assert(join_post(states[j], states[j + 1], infos[j], codes[j], results[j]));
        let a = infos[i].sender@;
        let b = infos[j].sender@;
        assert(whitelist_of(states[j]).contains_key(a));
        assert(!whitelist_of(states[j]).contains_key(b));
        if self_ref_code(a) == self_ref_code(b) {
            let p = REF_CODE_PREFIX@;
            let ta = a.subrange(n, a.len() as int);
            let tb = b.subrange(n, b.len() as int);
            assert((p + ta).subrange(p.len() as int, (p + ta).len() as int) =~= ta);
            assert((p + tb).subrange(p.len() as int, (p + tb).len() as int) =~= tb);
            assert(a.subrange(0, n) == b.subrange(0, n));
            assert(a =~= a.subrange(0, n) + ta);
            assert(b =~= b.subrange(0, n) + tb);
        }
    }
    lemma_joins_count(states, infos, codes, results);
}

} // verus!
