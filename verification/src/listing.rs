//! What a listing is: the records of a table that a query admits, each
//! once, in the order of their keys.
use vstd::prelude::*;
use crate::records::{
    InvestmentOffer, InvestmentOfferView, InvestmentRequest, InvestmentRequestView, Transaction,
    TransactionView, UserProfileView,
};
use crate::table::{principal_before, text_before};
use crate::types::{Identity, OfferStatus};

verus! {

/// The views of the records of a sequence.
pub open spec fn views<T: View>(s: Seq<T>) -> Seq<T::V> {
    Seq::new(s.len(), |i: int| s[i]@)
}

/// Which offers a listing asks for.
pub enum OfferFilter {
    /// The active ones.
    Active,
    /// Those of one farmer.
    OwnedBy(Identity),
}

pub ghost enum OfferQuery {
    Active,
    OwnedBy(Seq<u8>),
}

impl View for OfferFilter {
    type V = OfferQuery;

    open spec fn view(&self) -> OfferQuery {
        match self {
            OfferFilter::Active => OfferQuery::Active,
            OfferFilter::OwnedBy(who) => OfferQuery::OwnedBy(who@),
        }
    }
}

impl OfferQuery {
    /// Whether the query asks for this offer.
    pub open spec fn admits(self, offer: InvestmentOfferView) -> bool {
        match self {
            OfferQuery::Active => offer.status == OfferStatus::Active,
            OfferQuery::OwnedBy(who) => offer.farmer == who,
        }
    }
}

impl OfferFilter {
    /// Whether the filter lets this offer through.
    pub fn admits(&self, offer: &InvestmentOffer) -> (r: bool)
        ensures
            r == self@.admits(offer@),
    {
        match self {
            OfferFilter::Active => match offer.status {
                OfferStatus::Active => true,
                _ => false,
            },
            OfferFilter::OwnedBy(who) => offer.farmer.same(who),
        }
    }
}

/// Which requests a listing asks for.
pub enum RequestFilter {
    /// Those against one offer.
    ForOffer(String),
    /// Those of one investor.
    FromInvestor(Identity),
}

pub ghost enum RequestQuery {
    ForOffer(Seq<char>),
    FromInvestor(Seq<u8>),
}

impl View for RequestFilter {
    type V = RequestQuery;

    open spec fn view(&self) -> RequestQuery {
        match self {
            RequestFilter::ForOffer(id) => RequestQuery::ForOffer(id@),
            RequestFilter::FromInvestor(who) => RequestQuery::FromInvestor(who@),
        }
    }
}

impl RequestQuery {
    /// Whether the query asks for this request.
    pub open spec fn admits(self, request: InvestmentRequestView) -> bool {
        match self {
            RequestQuery::ForOffer(id) => request.offer_id == id,
            RequestQuery::FromInvestor(who) => request.investor == who,
        }
    }
}

impl RequestFilter {
    /// Whether the filter lets this request through.
    pub fn admits(&self, request: &InvestmentRequest) -> (r: bool)
        ensures
            r == self@.admits(request@),
    {
        match self {
            RequestFilter::ForOffer(id) => request.offer_id == *id,
            RequestFilter::FromInvestor(who) => request.investor.same(who),
        }
    }
}

/// Which transactions a listing asks for.
pub enum TransactionFilter {
    /// Those of one farmer.
    OfFarmer(Identity),
    /// Those of one investor.
    OfInvestor(Identity),
}

pub ghost enum TransactionQuery {
    OfFarmer(Seq<u8>),
    OfInvestor(Seq<u8>),
}

impl View for TransactionFilter {
    type V = TransactionQuery;

    open spec fn view(&self) -> TransactionQuery {
        match self {
            TransactionFilter::OfFarmer(who) => TransactionQuery::OfFarmer(who@),
            TransactionFilter::OfInvestor(who) => TransactionQuery::OfInvestor(who@),
        }
    }
}

impl TransactionQuery {
    /// Whether the query asks for this transaction.
    pub open spec fn admits(self, transaction: TransactionView) -> bool {
        match self {
            TransactionQuery::OfFarmer(who) => transaction.farmer == who,
            TransactionQuery::OfInvestor(who) => transaction.investor == who,
        }
    }
}

impl TransactionFilter {
    /// Whether the filter lets this transaction through.
    pub fn admits(&self, transaction: &Transaction) -> (r: bool)
        ensures
            r == self@.admits(transaction@),
    {
        match self {
            TransactionFilter::OfFarmer(who) => transaction.farmer.same(who),
            TransactionFilter::OfInvestor(who) => transaction.investor.same(who),
        }
    }
}

/// Whether `out` holds exactly the offers of `m` that `q` admits, each
/// once, in the order of their identifiers.
pub open spec fn offers_listed(
    out: Seq<InvestmentOfferView>,
    m: Map<Seq<char>, InvestmentOfferView>,
    q: OfferQuery,
) -> bool {
    &&& forall|i: int|
        0 <= i < out.len() ==> m.contains_key((#[trigger] out[i]).id) && m[out[i].id] == out[i]
            && q.admits(out[i])
    &&& forall|k: Seq<char>| #[trigger]
        m.contains_key(k) && q.admits(m[k]) ==> exists|i: int|
            0 <= i < out.len() && #[trigger] out[i] == m[k]
    &&& forall|i: int, j: int|
        0 <= i < j < out.len() ==> text_before((#[trigger] out[i]).id, (#[trigger] out[j]).id)
}

/// Whether `out` holds exactly the requests of `m` that `q` admits, each
/// once, in the order of their identifiers.
pub open spec fn requests_listed(
    out: Seq<InvestmentRequestView>,
    m: Map<Seq<char>, InvestmentRequestView>,
    q: RequestQuery,
) -> bool {
    &&& forall|i: int|
        0 <= i < out.len() ==> m.contains_key((#[trigger] out[i]).id) && m[out[i].id] == out[i]
            && q.admits(out[i])
    &&& forall|k: Seq<char>| #[trigger]
        m.contains_key(k) && q.admits(m[k]) ==> exists|i: int|
            0 <= i < out.len() && #[trigger] out[i] == m[k]
    &&& forall|i: int, j: int|
        0 <= i < j < out.len() ==> text_before((#[trigger] out[i]).id, (#[trigger] out[j]).id)
}

/// Whether `out` holds exactly the transactions of `m` that `q` admits,
/// each once, in the order of their identifiers.
pub open spec fn transactions_listed(
    out: Seq<TransactionView>,
    m: Map<Seq<char>, TransactionView>,
    q: TransactionQuery,
) -> bool {
    &&& forall|i: int|
        0 <= i < out.len() ==> m.contains_key((#[trigger] out[i]).id) && m[out[i].id] == out[i]
            && q.admits(out[i])
    &&& forall|k: Seq<char>| #[trigger]
        m.contains_key(k) && q.admits(m[k]) ==> exists|i: int|
            0 <= i < out.len() && #[trigger] out[i] == m[k]
    &&& forall|i: int, j: int|
        0 <= i < j < out.len() ==> text_before((#[trigger] out[i]).id, (#[trigger] out[j]).id)
}

/// Whether `out` holds exactly the users of `m`, each once, in the order
/// of their principals.
pub open spec fn users_listed(out: Seq<UserProfileView>, m: Map<Seq<u8>, UserProfileView>) -> bool {
    &&& forall|i: int|
        0 <= i < out.len() ==> m.contains_key((#[trigger] out[i]).principal)
            && m[out[i].principal] == out[i]
    &&& forall|k: Seq<u8>| #[trigger]
        m.contains_key(k) ==> exists|i: int| 0 <= i < out.len() && #[trigger] out[i] == m[k]
    &&& forall|i: int, j: int|
        0 <= i < j < out.len() ==> principal_before(
            (#[trigger] out[i]).principal,
            (#[trigger] out[j]).principal,
        )
}

} // verus!
