//! Reading the tables as records: which stored bytes are in order, and the
//! records that they hold.
use vstd::prelude::*;
use crate::codec::{
    dec_offer, dec_request, dec_transaction, dec_user, decode_offer, decode_request,
    decode_transaction, decode_user,
};
use crate::records::{
    InvestmentOffer, InvestmentOfferView, InvestmentRequest, InvestmentRequestView, Transaction,
    TransactionView, UserProfile, UserProfileView,
};
use crate::table::{
    lemma_listed_principals_finite, lemma_listed_text_finite, lists_principals, lists_text,
    principal_entries, principal_scan, text_entries, text_scan, PrincipalTable, TextTable,
};
use crate::listing::{
    offers_listed, requests_listed, transactions_listed, users_listed, views, OfferFilter,
    RequestFilter, TransactionFilter,
};
use crate::table::{principal_before, text_before};
use crate::types::{same_bytes, OfferStatus};

verus! {

/// There are finitely many stored users, and every one can be read and
/// stands under its own principal.
pub open spec fn users_ok(raw: Map<Seq<u8>, Seq<u8>>) -> bool {
    &&& raw.dom().finite()
    &&& forall|k: Seq<u8>| #[trigger]
        raw.contains_key(k) ==> (dec_user(raw[k]) matches Some(v) && v.principal == k)
}

/// There are finitely many stored offers, and every one can be read,
/// stands under its own identifier and is balanced.
pub open spec fn offers_ok(raw: Map<Seq<char>, Seq<u8>>) -> bool {
    &&& raw.dom().finite()
    &&& forall|k: Seq<char>| #[trigger]
        raw.contains_key(k) ==> (dec_offer(raw[k]) matches Some(v) && v.id == k && v.balanced())
}

/// There are finitely many stored requests, and every one can be read and
/// stands under its own identifier.
pub open spec fn requests_ok(raw: Map<Seq<char>, Seq<u8>>) -> bool {
    &&& raw.dom().finite()
    &&& forall|k: Seq<char>| #[trigger]
        raw.contains_key(k) ==> (dec_request(raw[k]) matches Some(v) && v.id == k)
}

/// There are finitely many stored transactions, and every one can be read
/// and stands under its own identifier.
pub open spec fn transactions_ok(raw: Map<Seq<char>, Seq<u8>>) -> bool {
    &&& raw.dom().finite()
    &&& forall|k: Seq<char>| #[trigger]
        raw.contains_key(k) ==> (dec_transaction(raw[k]) matches Some(v) && v.id == k)
}

/// The users that the bytes hold.
pub open spec fn users_in(raw: Map<Seq<u8>, Seq<u8>>) -> Map<Seq<u8>, UserProfileView> {
    Map::new(|k: Seq<u8>| raw.contains_key(k), |k: Seq<u8>| dec_user(raw[k])->Some_0)
}

/// The offers that the bytes hold.
pub open spec fn offers_in(raw: Map<Seq<char>, Seq<u8>>) -> Map<Seq<char>, InvestmentOfferView> {
    Map::new(|k: Seq<char>| raw.contains_key(k), |k: Seq<char>| dec_offer(raw[k])->Some_0)
}

/// The requests that the bytes hold.
pub open spec fn requests_in(raw: Map<Seq<char>, Seq<u8>>) -> Map<
    Seq<char>,
    InvestmentRequestView,
> {
    Map::new(|k: Seq<char>| raw.contains_key(k), |k: Seq<char>| dec_request(raw[k])->Some_0)
}

/// The transactions that the bytes hold.
pub open spec fn transactions_in(raw: Map<Seq<char>, Seq<u8>>) -> Map<Seq<char>, TransactionView> {
    Map::new(|k: Seq<char>| raw.contains_key(k), |k: Seq<char>| dec_transaction(raw[k])->Some_0)
}

/// Whether the stored users are in order.
pub fn check_users(t: &PrincipalTable) -> (ok: bool)
    ensures
        ok == users_ok(principal_entries(*t)),
{
    let entries = principal_scan(t);
    let ghost raw = principal_entries(*t);
    let mut i: usize = 0;
    while i < entries.len()
        invariant
            i <= entries.len(),
            raw == principal_entries(*t),
            lists_principals(entries@, raw),
            forall|j: int|
                0 <= j < i ==> (dec_user(#[trigger] entries@[j].1@) matches Some(v)
                    && v.principal == entries@[j].0@),
        decreases entries.len() - i,
    {
        assert(raw.contains_pair(entries@[i as int].0@, entries@[i as int].1@));
        match decode_user(&entries[i].1) {
            Some(user) => {
                let same = same_bytes(user.principal.as_bytes(), &entries[i].0);
                if !same {
                    return false;
                }
            },
            None => {
                return false;
            },
        }
        i += 1;
    }
    assert forall|k: Seq<u8>| #[trigger] raw.contains_key(k) implies (dec_user(raw[k]) matches Some(
        v,
    ) && v.principal == k) by {
        let j = choose|j: int| 0 <= j < entries@.len() && #[trigger] entries@[j].0@ == k;
        assert(raw.contains_pair(entries@[j].0@, entries@[j].1@));
    }
    proof {
        lemma_listed_principals_finite(entries@, raw);
    }
    true
}

/// Whether the stored offers are in order.
pub fn check_offers(t: &TextTable) -> (ok: bool)
    ensures
        ok == offers_ok(text_entries(*t)),
{
    let entries = text_scan(t);
    let ghost raw = text_entries(*t);
    let mut i: usize = 0;
    while i < entries.len()
        invariant
            i <= entries.len(),
            raw == text_entries(*t),
            lists_text(entries@, raw),
            forall|j: int|
                0 <= j < i ==> (dec_offer(#[trigger] entries@[j].1@) matches Some(v) && v.id
                    == entries@[j].0@ && v.balanced()),
        decreases entries.len() - i,
    {
        assert(raw.contains_pair(entries@[i as int].0@, entries@[i as int].1@));
        match decode_offer(&entries[i].1) {
            Some(offer) => {
                let done = match offer.status {
                    OfferStatus::Completed => true,
                    _ => false,
                };
                if offer.id != entries[i].0 || offer.available_quantity > offer.total_quantity
                    || (done && offer.available_quantity != 0) {
                    return false;
                }
            },
            None => {
                return false;
            },
        }
        i += 1;
    }
    assert forall|k: Seq<char>| #[trigger] raw.contains_key(k) implies (dec_offer(
        raw[k],
    ) matches Some(v) && v.id == k && v.balanced()) by {
        let j = choose|j: int| 0 <= j < entries@.len() && #[trigger] entries@[j].0@ == k;
        assert(raw.contains_pair(entries@[j].0@, entries@[j].1@));
    }
    proof {
        lemma_listed_text_finite(entries@, raw);
    }
    true
}

/// Whether the stored requests are in order.
pub fn check_requests(t: &TextTable) -> (ok: bool)
    ensures
        ok == requests_ok(text_entries(*t)),
{
    let entries = text_scan(t);
    let ghost raw = text_entries(*t);
    let mut i: usize = 0;
    while i < entries.len()
        invariant
            i <= entries.len(),
            raw == text_entries(*t),
            lists_text(entries@, raw),
            forall|j: int|
                0 <= j < i ==> (dec_request(#[trigger] entries@[j].1@) matches Some(v) && v.id
                    == entries@[j].0@),
        decreases entries.len() - i,
    {
        assert(raw.contains_pair(entries@[i as int].0@, entries@[i as int].1@));
        match decode_request(&entries[i].1) {
            Some(request) => {
                if request.id != entries[i].0 {
                    return false;
                }
            },
            None => {
                return false;
            },
        }
        i += 1;
    }
    assert forall|k: Seq<char>| #[trigger] raw.contains_key(k) implies (dec_request(
        raw[k],
    ) matches Some(v) && v.id == k) by {
        let j = choose|j: int| 0 <= j < entries@.len() && #[trigger] entries@[j].0@ == k;
        assert(raw.contains_pair(entries@[j].0@, entries@[j].1@));
    }
    proof {
        lemma_listed_text_finite(entries@, raw);
    }
    true
}

/// Whether the stored transactions are in order.
pub fn check_transactions(t: &TextTable) -> (ok: bool)
    ensures
        ok == transactions_ok(text_entries(*t)),
{
    let entries = text_scan(t);
    let ghost raw = text_entries(*t);
    let mut i: usize = 0;
    while i < entries.len()
        invariant
            i <= entries.len(),
            raw == text_entries(*t),
            lists_text(entries@, raw),
            forall|j: int|
                0 <= j < i ==> (dec_transaction(#[trigger] entries@[j].1@) matches Some(v) && v.id
                    == entries@[j].0@),
        decreases entries.len() - i,
    {
        assert(raw.contains_pair(entries@[i as int].0@, entries@[i as int].1@));
        match decode_transaction(&entries[i].1) {
            Some(transaction) => {
                if transaction.id != entries[i].0 {
                    return false;
                }
            },
            None => {
                return false;
            },
        }
        i += 1;
    }
    assert forall|k: Seq<char>| #[trigger] raw.contains_key(k) implies (dec_transaction(
        raw[k],
    ) matches Some(v) && v.id == k) by {
        let j = choose|j: int| 0 <= j < entries@.len() && #[trigger] entries@[j].0@ == k;
        assert(raw.contains_pair(entries@[j].0@, entries@[j].1@));
    }
    proof {
        lemma_listed_text_finite(entries@, raw);
    }
    true
}

/// The stored offers that the filter lets through, in the order of their
/// identifiers.
pub fn select_offers(t: &TextTable, filter: &OfferFilter) -> (out: Vec<InvestmentOffer>)
    requires
        offers_ok(text_entries(*t)),
    ensures
        offers_listed(views(out@), offers_in(text_entries(*t)), filter@),
{
    let entries = text_scan(t);
    let ghost raw = text_entries(*t);
    let ghost m = offers_in(raw);
    let mut out: Vec<InvestmentOffer> = Vec::new();
    let mut i: usize = 0;
    while i < entries.len()
        invariant
            i <= entries.len(),
            raw == text_entries(*t),
            m == offers_in(raw),
            offers_ok(raw),
            lists_text(entries@, raw),
            forall|x: int|
                0 <= x < out.len() ==> m.contains_key((#[trigger] out@[x])@.id) && m[out@[x]@.id]
                    == out@[x]@ && filter@.admits(out@[x]@),
            forall|a: int|
                0 <= a < i && filter@.admits(m[(#[trigger] entries@[a]).0@]) ==> exists|x: int|
                    0 <= x < out.len() && (#[trigger] out@[x])@ == m[entries@[a].0@],
            forall|x: int, y: int|
                0 <= x < y < out.len() ==> text_before(
                    (#[trigger] out@[x])@.id,
                    (#[trigger] out@[y])@.id,
                ),
            forall|x: int, a: int|
                0 <= x < out.len() && i <= a < entries.len() ==> text_before(
                    (#[trigger] out@[x])@.id,
                    (#[trigger] entries@[a]).0@,
                ),
        decreases entries.len() - i,
    {
        assert(raw.contains_pair(entries@[i as int].0@, entries@[i as int].1@));
        match decode_offer(&entries[i].1) {
            Some(offer) => {
                if filter.admits(&offer) {
                    let ghost before = out@;
                    let ghost v = offer@;
                    out.push(offer);
                    assert(forall|x: int| 0 <= x < before.len() ==> out@[x] == before[x]);
                    assert(out@[before.len() as int]@ == v);
                }
            },
            None => {},
        }
        i += 1;
    }
    proof {
        let got = views(out@);
        assert forall|k: Seq<char>| #[trigger] m.contains_key(k) && filter@.admits(m[k]) implies exists|
            x: int,
        | 0 <= x < got.len() && #[trigger] got[x] == m[k] by {
            let a = choose|a: int| 0 <= a < entries@.len() && #[trigger] entries@[a].0@ == k;
            let x = choose|x: int| 0 <= x < out.len() && (#[trigger] out@[x])@ == m[entries@[a].0@];
            assert(got[x] == m[k]);
        }
        assert forall|x: int| 0 <= x < got.len() implies m.contains_key((#[trigger] got[x]).id)
            && m[got[x].id] == got[x] && filter@.admits(got[x]) by {
            assert(got[x] == out@[x]@);
        }
        assert forall|x: int, y: int| 0 <= x < y < got.len() implies text_before(
            (#[trigger] got[x]).id,
            (#[trigger] got[y]).id,
        ) by {
            assert(got[x] == out@[x]@);
            assert(got[y] == out@[y]@);
        }
    }
    out
}

/// The stored requests that the filter lets through, in the order of their
/// identifiers.
pub fn select_requests(t: &TextTable, filter: &RequestFilter) -> (out: Vec<InvestmentRequest>)
    requires
        requests_ok(text_entries(*t)),
    ensures
        requests_listed(views(out@), requests_in(text_entries(*t)), filter@),
{
    let entries = text_scan(t);
    let ghost raw = text_entries(*t);
    let ghost m = requests_in(raw);
    let mut out: Vec<InvestmentRequest> = Vec::new();
    let mut i: usize = 0;
    while i < entries.len()
        invariant
            i <= entries.len(),
            raw == text_entries(*t),
            m == requests_in(raw),
            requests_ok(raw),
            lists_text(entries@, raw),
            forall|x: int|
                0 <= x < out.len() ==> m.contains_key((#[trigger] out@[x])@.id) && m[out@[x]@.id]
                    == out@[x]@ && filter@.admits(out@[x]@),
            forall|a: int|
                0 <= a < i && filter@.admits(m[(#[trigger] entries@[a]).0@]) ==> exists|x: int|
                    0 <= x < out.len() && (#[trigger] out@[x])@ == m[entries@[a].0@],
            forall|x: int, y: int|
                0 <= x < y < out.len() ==> text_before(
                    (#[trigger] out@[x])@.id,
                    (#[trigger] out@[y])@.id,
                ),
            forall|x: int, a: int|
                0 <= x < out.len() && i <= a < entries.len() ==> text_before(
                    (#[trigger] out@[x])@.id,
                    (#[trigger] entries@[a]).0@,
                ),
        decreases entries.len() - i,
    {
        assert(raw.contains_pair(entries@[i as int].0@, entries@[i as int].1@));
        match decode_request(&entries[i].1) {
            Some(request) => {
                if filter.admits(&request) {
                    let ghost before = out@;
                    let ghost v = request@;
                    out.push(request);
                    assert(forall|x: int| 0 <= x < before.len() ==> out@[x] == before[x]);
                    assert(out@[before.len() as int]@ == v);
                }
            },
            None => {},
        }
        i += 1;
    }
    proof {
        let got = views(out@);
        assert forall|k: Seq<char>| #[trigger] m.contains_key(k) && filter@.admits(m[k]) implies exists|
            x: int,
        | 0 <= x < got.len() && #[trigger] got[x] == m[k] by {
            let a = choose|a: int| 0 <= a < entries@.len() && #[trigger] entries@[a].0@ == k;
            let x = choose|x: int| 0 <= x < out.len() && (#[trigger] out@[x])@ == m[entries@[a].0@];
            assert(got[x] == m[k]);
        }
        assert forall|x: int| 0 <= x < got.len() implies m.contains_key((#[trigger] got[x]).id)
            && m[got[x].id] == got[x] && filter@.admits(got[x]) by {
            assert(got[x] == out@[x]@);
        }
        assert forall|x: int, y: int| 0 <= x < y < got.len() implies text_before(
            (#[trigger] got[x]).id,
            (#[trigger] got[y]).id,
        ) by {
            assert(got[x] == out@[x]@);
            assert(got[y] == out@[y]@);
        }
    }
    out
}

/// The stored transactions that the filter lets through, in the order of their
/// identifiers.
pub fn select_transactions(t: &TextTable, filter: &TransactionFilter) -> (out: Vec<Transaction>)
    requires
        transactions_ok(text_entries(*t)),
    ensures
        transactions_listed(views(out@), transactions_in(text_entries(*t)), filter@),
{
    let entries = text_scan(t);
    let ghost raw = text_entries(*t);
    let ghost m = transactions_in(raw);
    let mut out: Vec<Transaction> = Vec::new();
    let mut i: usize = 0;
    while i < entries.len()
        invariant
            i <= entries.len(),
            raw == text_entries(*t),
            m == transactions_in(raw),
            transactions_ok(raw),
            lists_text(entries@, raw),
            forall|x: int|
                0 <= x < out.len() ==> m.contains_key((#[trigger] out@[x])@.id) && m[out@[x]@.id]
                    == out@[x]@ && filter@.admits(out@[x]@),
            forall|a: int|
                0 <= a < i && filter@.admits(m[(#[trigger] entries@[a]).0@]) ==> exists|x: int|
                    0 <= x < out.len() && (#[trigger] out@[x])@ == m[entries@[a].0@],
            forall|x: int, y: int|
                0 <= x < y < out.len() ==> text_before(
                    (#[trigger] out@[x])@.id,
                    (#[trigger] out@[y])@.id,
                ),
            forall|x: int, a: int|
                0 <= x < out.len() && i <= a < entries.len() ==> text_before(
                    (#[trigger] out@[x])@.id,
                    (#[trigger] entries@[a]).0@,
                ),
        decreases entries.len() - i,
    {
        assert(raw.contains_pair(entries@[i as int].0@, entries@[i as int].1@));
        match decode_transaction(&entries[i].1) {
            Some(transaction) => {
                if filter.admits(&transaction) {
                    let ghost before = out@;
                    let ghost v = transaction@;
                    out.push(transaction);
                    assert(forall|x: int| 0 <= x < before.len() ==> out@[x] == before[x]);
                    assert(out@[before.len() as int]@ == v);
                }
            },
            None => {},
        }
        i += 1;
    }
    proof {
        let got = views(out@);
        assert forall|k: Seq<char>| #[trigger] m.contains_key(k) && filter@.admits(m[k]) implies exists|
            x: int,
        | 0 <= x < got.len() && #[trigger] got[x] == m[k] by {
            let a = choose|a: int| 0 <= a < entries@.len() && #[trigger] entries@[a].0@ == k;
            let x = choose|x: int| 0 <= x < out.len() && (#[trigger] out@[x])@ == m[entries@[a].0@];
            assert(got[x] == m[k]);
        }
        assert forall|x: int| 0 <= x < got.len() implies m.contains_key((#[trigger] got[x]).id)
            && m[got[x].id] == got[x] && filter@.admits(got[x]) by {
            assert(got[x] == out@[x]@);
        }
        assert forall|x: int, y: int| 0 <= x < y < got.len() implies text_before(
            (#[trigger] got[x]).id,
            (#[trigger] got[y]).id,
        ) by {
            assert(got[x] == out@[x]@);
            assert(got[y] == out@[y]@);
        }
    }
    out
}

/// The stored users, in the order of their principals.
pub fn select_users(t: &PrincipalTable) -> (out: Vec<UserProfile>)
    requires
        users_ok(principal_entries(*t)),
    ensures
        users_listed(views(out@), users_in(principal_entries(*t))),
{
    let entries = principal_scan(t);
    let ghost raw = principal_entries(*t);
    let ghost m = users_in(raw);
    let mut out: Vec<UserProfile> = Vec::new();
    let mut i: usize = 0;
    while i < entries.len()
        invariant
            i <= entries.len(),
            raw == principal_entries(*t),
            m == users_in(raw),
            users_ok(raw),
            lists_principals(entries@, raw),
            forall|x: int|
                0 <= x < out.len() ==> m.contains_key((#[trigger] out@[x])@.principal) && m[out@[x]@.principal]
                    == out@[x]@,
            forall|a: int|
                0 <= a < i ==> exists|x: int|
                    0 <= x < out.len() && (#[trigger] out@[x])@ == m[(#[trigger] entries@[a]).0@],
            forall|x: int, y: int|
                0 <= x < y < out.len() ==> principal_before(
                    (#[trigger] out@[x])@.principal,
                    (#[trigger] out@[y])@.principal,
                ),
            forall|x: int, a: int|
                0 <= x < out.len() && i <= a < entries.len() ==> principal_before(
                    (#[trigger] out@[x])@.principal,
                    (#[trigger] entries@[a]).0@,
                ),
        decreases entries.len() - i,
    {
        assert(raw.contains_pair(entries@[i as int].0@, entries@[i as int].1@));
        match decode_user(&entries[i].1) {
            Some(user) => {
                let ghost before = out@;
                let ghost v = user@;
                out.push(user);
                assert(forall|x: int| 0 <= x < before.len() ==> out@[x] == before[x]);
                assert(out@[before.len() as int]@ == v);
            },
            None => {},
        }
        i += 1;
    }
    proof {
        let got = views(out@);
        assert forall|k: Seq<u8>| #[trigger] m.contains_key(k) implies exists|
            x: int,
        | 0 <= x < got.len() && #[trigger] got[x] == m[k] by {
            let a = choose|a: int| 0 <= a < entries@.len() && #[trigger] entries@[a].0@ == k;
            let x = choose|x: int| 0 <= x < out.len() && (#[trigger] out@[x])@ == m[entries@[a].0@];
            assert(got[x] == m[k]);
        }
        assert forall|x: int| 0 <= x < got.len() implies m.contains_key((#[trigger] got[x]).principal)
            && m[got[x].principal] == got[x] by {
            assert(got[x] == out@[x]@);
        }
        assert forall|x: int, y: int| 0 <= x < y < got.len() implies principal_before(
            (#[trigger] got[x]).principal,
            (#[trigger] got[y]).principal,
        ) by {
            assert(got[x] == out@[x]@);
            assert(got[y] == out@[y]@);
        }
    }
    out
}

} // verus!
