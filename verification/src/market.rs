//! The marketplace: the four tables and the operations on them.
//!
//! Every operation takes the caller's identity and, where it records
//! anything, the time; it answers as the matching function of `Ledger`
//! says, and leaves the tables as that function says.
use vstd::prelude::*;
use vstd::pervasive::unreached;
use vstd::set_lib::lemma_len_subset;
use crate::api::{
    CreateInvestmentRequest, CreateOfferRequest, PlatformStats, RegisterUserRequest,
    RespondToRequestRequest,
};
use crate::codec::{
    decode_offer, decode_request, decode_user, encode_offer, encode_request, encode_transaction,
    encode_user, lemma_offer_round_trip, lemma_request_round_trip, lemma_transaction_round_trip,
    lemma_user_round_trip,
};
use crate::errors::MarketError;
use crate::guard::{anonymous, authenticate, is_authenticated, Clearance};
use crate::ident::{id_text, numbered_id};
use crate::ledger::{Ledger, REQUEST_LIFETIME};
use crate::listing::{
    offers_listed, requests_listed, transactions_listed, users_listed, views, OfferFilter,
    OfferQuery, RequestFilter, RequestQuery, TransactionFilter, TransactionQuery,
};
use crate::records::{InvestmentOffer, InvestmentRequest, Transaction, UserProfile};
use crate::store::{
    check_offers, check_requests, check_transactions, check_users, offers_in, offers_ok,
    requests_in, requests_ok, select_offers, select_requests, select_transactions, select_users,
    transactions_in, transactions_ok, users_in, users_ok,
};
use crate::table::{
    lemma_text_before_irreflexive, open_tables, principal_entries, principal_get,
    principal_insert, principal_len, text_before, text_entries, text_get, text_insert, text_len,
    PrincipalTable, TextTable,
};
use crate::types::{Identity, Money, OfferStatus, RequestStatus, TransactionStatus, UserRole};

verus! {

/// The four tables, and the least number that the next identifier may
/// carry. Whatever the tables hold can be read and is sound.
pub struct Marketplace {
    users: PrincipalTable,
    offers: TextTable,
    requests: TextTable,
    transactions: TextTable,
    serial: u64,
}

impl View for Marketplace {
    type V = Ledger;

    closed spec fn view(&self) -> Ledger {
        Ledger {
            users: users_in(principal_entries(self.users)),
            offers: offers_in(text_entries(self.offers)),
            requests: requests_in(text_entries(self.requests)),
            transactions: transactions_in(text_entries(self.transactions)),
            serial: self.serial,
        }
    }
}

impl Marketplace {
    #[verifier::type_invariant]
    spec fn in_order(&self) -> bool {
        &&& users_ok(principal_entries(self.users))
        &&& offers_ok(text_entries(self.offers))
        &&& requests_ok(text_entries(self.requests))
        &&& transactions_ok(text_entries(self.transactions))
    }

    /// Tables that are in order make a sound ledger.
    proof fn lemma_sound(&self)
        requires
            self.in_order(),
        ensures
            self@.sound(),
    {
        assert(self@.users.dom() =~= principal_entries(self.users).dom());
        assert(self@.offers.dom() =~= text_entries(self.offers).dom());
        assert(self@.requests.dom() =~= text_entries(self.requests).dom());
        assert(self@.transactions.dom() =~= text_entries(self.transactions).dom());
    }

    /// The marketplace over these tables, if what they hold is in order.
    /// Its serial starts at nothing.
    pub fn from_tables(
        users: PrincipalTable,
        offers: TextTable,
        requests: TextTable,
        transactions: TextTable,
    ) -> (r: Option<Marketplace>)
        ensures
            r is Some <==> users_ok(principal_entries(users)) && offers_ok(text_entries(offers))
                && requests_ok(text_entries(requests)) && transactions_ok(
                text_entries(transactions),
            ),
            r matches Some(m) ==> m@ == (Ledger {
                users: users_in(principal_entries(users)),
                offers: offers_in(text_entries(offers)),
                requests: requests_in(text_entries(requests)),
                transactions: transactions_in(text_entries(transactions)),
                serial: 0,
            }) && m@.sound(),
    {
        if check_users(&users) && check_offers(&offers) && check_requests(&requests)
            && check_transactions(&transactions) {
            let market = Marketplace { users, offers, requests, transactions, serial: 0 };
            proof {
                market.lemma_sound();
            }
            Some(market)
        } else {
            None
        }
    }

    /// Opens the marketplace in stable memory: users, offers, requests and
    /// transactions in the virtual memories 0 to 3. Gives nothing if what
    /// the memory holds is not in order.
    ///
    /// To be called once in a process. Two marketplaces would stand on the
    /// same memory, and what is known of one would no longer hold after a
    /// write through the other.
    pub fn init() -> (r: Option<Marketplace>)
        ensures
            r matches Some(m) ==> m@.sound(),
    {
        let (users, offers, requests, transactions) = open_tables(0, 1, 2, 3);
        Marketplace::from_tables(users, offers, requests, transactions)
    }

    /// Does nothing. It tells a verified caller what holds of every
    /// marketplace at all times: its ledger is sound.
    pub fn assure(&self)
        ensures
            self@.sound(),
    {
        proof {
            use_type_invariant(self);
            self.lemma_sound();
        }
    }

    /// The user record of `who`, if there is one.
    fn load_user(&self, who: &Identity) -> (r: Option<UserProfile>)
        ensures
            r is Some <==> self@.users.contains_key(who@),
            r matches Some(u) ==> u@ == self@.users[who@],
            self@.sound(),
    {
        proof {
            use_type_invariant(self);
            self.lemma_sound();
        }
        match principal_get(&self.users, who.as_bytes()) {
            Some(bytes) => decode_user(&bytes),
            None => None,
        }
    }

    /// Passes `who` if `who` has the clearance, or says why not: for want
    /// of a user record, or of the role.
    pub fn authorize_role(&self, who: &Identity, clearance: Clearance) -> (r: Result<(), MarketError>)
        ensures
            match self@.authorize_role(who@, clearance) {
                Some(e) => r matches Err(got) && got == e,
                None => r is Ok,
            },
            self@.sound(),
    {
        proof {
            use_type_invariant(self);
            self.lemma_sound();
        }
        match self.load_user(who) {
            None => Err(MarketError::UserNotFound),
            Some(user) => clearance.check(user.role),
        }
    }

    /// Passes the caller to an operation that asks for the clearance, or
    /// says why not.
    fn let_in(&self, caller: &Identity, clearance: Clearance) -> (r: Result<(), MarketError>)
        ensures
            match self@.admission(caller@, clearance) {
                Some(e) => r matches Err(got) && got == e,
                None => r is Ok,
            },
            self@.sound(),
    {
        proof {
            use_type_invariant(self);
            self.lemma_sound();
        }
        match authenticate(caller) {
            Err(e) => Err(e),
            Ok(()) => self.authorize_role(caller, clearance),
        }
    }

    /// Whether a record of any kind stands under `id`.
    fn is_taken(&self, id: &String) -> (r: bool)
        ensures
            r == self@.taken(id@),
    {
        proof {
            use_type_invariant(self);
            self.lemma_sound();
        }
        text_get(&self.offers, id).is_some() || text_get(&self.requests, id).is_some() || text_get(
            &self.transactions,
            id,
        ).is_some()
    }

    /// Issues an identifier with this prefix that no record stands under
    /// and that was not issued before: its number is the least that is
    /// neither before `now`, nor before the serial, nor taken. The serial
    /// moves past it. Refuses where no such number is left.
    pub fn generate_id(&mut self, prefix: &str, now: u64) -> (r: Result<String, MarketError>)
        ensures
            final(self)@ == old(self)@.generate_id(prefix@, now).next,
            match old(self)@.generate_id(prefix@, now).answer {
                Ok(number) => r matches Ok(id) && id@ == id_text(prefix@, number)
                    && !old(self)@.taken(id@) && final(self)@.serial > number,
                Err(e) => r matches Err(got) && got == e,
            },
            final(self)@.sound(),
    {
        proof {
            use_type_invariant(&*self);
            self.lemma_sound();
        }
        let mut number = if now >= self.serial {
            now
        } else {
            self.serial
        };
        while number < u64::MAX
            invariant
                self@ == old(self)@,
                self@.sound(),
                old(self)@.first_free(prefix@, number) == old(self)@.issue(prefix@, now),
            decreases u64::MAX - number,
        {
            let id = numbered_id(prefix, number);
            if !self.is_taken(&id) {
                proof {
                    use_type_invariant(&*self);
                }
                self.serial = number + 1;
                return Ok(id);
            }
            number += 1;
        }
        Err(MarketError::IdentifiersExhausted)
    }

    /// The caller's own user record, if the caller is registered.
    pub fn get_current_user(&self, caller: &Identity) -> (r: Result<Option<UserProfile>, MarketError>)
        ensures
            caller@ == anonymous() ==> (r matches Err(e) && e == MarketError::Unauthenticated),
            caller@ != anonymous() ==> (r matches Ok(found) && (found is Some
                <==> self@.users.contains_key(caller@)) && (found matches Some(u) ==> u@
                == self@.users[caller@])),
            self@.sound(),
    {
        proof {
            use_type_invariant(self);
            self.lemma_sound();
        }
        if !is_authenticated(caller) {
            return Err(MarketError::Unauthenticated);
        }
        Ok(self.load_user(caller))
    }

    /// Registers the caller.
    pub fn register_user(&mut self, caller: &Identity, request: RegisterUserRequest, now: u64) -> (r:
        Result<UserProfile, MarketError>)
        ensures
            final(self)@ == old(self)@.register_user(caller@, request@, now).next,
            match old(self)@.register_user(caller@, request@, now).answer {
                Ok(user) => r matches Ok(got) && got@ == user,
                Err(e) => r matches Err(got) && got == e,
            },
            final(self)@.sound(),
    {
        proof {
            use_type_invariant(&*self);
            self.lemma_sound();
        }
        if !is_authenticated(caller) {
            return Err(MarketError::Unauthenticated);
        }
        if self.load_user(caller).is_some() {
            return Err(MarketError::AlreadyRegistered);
        }
        let user = UserProfile {
            principal: caller.clone(),
            role: request.role,
            display_name: request.display_name,
            email: request.email,
            created_at: now,
            updated_at: now,
        };
        self.store_user(&user);
        Ok(user)
    }

    /// Gives `principal` the role `new_role`; only an admin may.
    pub fn update_user_role(
        &mut self,
        caller: &Identity,
        principal: &Identity,
        new_role: UserRole,
        now: u64,
    ) -> (r: Result<UserProfile, MarketError>)
        ensures
            final(self)@ == old(self)@.update_user_role(caller@, principal@, new_role, now).next,
            match old(self)@.update_user_role(caller@, principal@, new_role, now).answer {
                Ok(user) => r matches Ok(got) && got@ == user,
                Err(e) => r matches Err(got) && got == e,
            },
            final(self)@.sound(),
    {
        match self.let_in(caller, Clearance::Admin) {
            Err(e) => {
                return Err(e);
            },
            Ok(()) => {},
        }
        match self.load_user(principal) {
            None => Err(MarketError::TargetNotFound),
            Some(found) => {
                let user = UserProfile { role: new_role, updated_at: now, ..found };
                self.store_user(&user);
                Ok(user)
            },
        }
    }

    /// Creates an offer under a new identifier; only a farmer or an admin
    /// may.
    pub fn create_agricultural_offer(
        &mut self,
        caller: &Identity,
        request: CreateOfferRequest,
        now: u64,
    ) -> (r: Result<InvestmentOffer, MarketError>)
        ensures
            final(self)@ == old(self)@.create_offer(caller@, request@, now).next,
            match old(self)@.create_offer(caller@, request@, now).answer {
                Ok(offer) => r matches Ok(got) && got@ == offer,
                Err(e) => r matches Err(got) && got == e,
            },
            final(self)@.sound(),
    {
        match self.let_in(caller, Clearance::Farmer) {
            Err(e) => {
                return Err(e);
            },
            Ok(()) => {},
        }
        let id = match self.generate_id("offer", now) {
            Ok(id) => id,
            Err(e) => {
                return Err(e);
            },
        };
        let offer = InvestmentOffer {
            id: id,
            farmer: caller.clone(),
            product_name: request.product_name,
            product_type: request.product_type,
            total_quantity: request.total_quantity,
            available_quantity: request.total_quantity,
            price_per_kg: request.price_per_kg,
            description: request.description,
            harvest_date: request.harvest_date,
            location: request.location,
            quality_grade: request.quality_grade,
            minimum_investment: request.minimum_investment,
            status: OfferStatus::Active,
            created_at: now,
            updated_at: now,
        };
        self.store_offer(offer.id.clone(), &offer);
        Ok(offer)
    }

    /// The offer under `offer_id`, if there is one.
    pub fn get_offer_by_id(&self, offer_id: &String) -> (r: Option<InvestmentOffer>)
        ensures
            r is Some <==> self@.offers.contains_key(offer_id@),
            r matches Some(offer) ==> offer@ == self@.offers[offer_id@] && offer@.balanced(),
            self@.sound(),
    {
        proof {
            use_type_invariant(self);
            self.lemma_sound();
        }
        match text_get(&self.offers, offer_id) {
            Some(bytes) => decode_offer(&bytes),
            None => None,
        }
    }

    /// The request under `request_id`, if there is one.
    fn load_request(&self, request_id: &String) -> (r: Option<InvestmentRequest>)
        ensures
            r is Some <==> self@.requests.contains_key(request_id@),
            r matches Some(request) ==> request@ == self@.requests[request_id@],
            self@.sound(),
    {
        proof {
            use_type_invariant(self);
            self.lemma_sound();
        }
        match text_get(&self.requests, request_id) {
            Some(bytes) => decode_request(&bytes),
            None => None,
        }
    }

    /// Creates a request for part of an offer where that can be done, as
    /// `create_investment_request` does; where the request passes every
    /// check but the time plus the lifetime is no time, gives nothing and
    /// changes nothing.
    pub fn try_create_investment_request(
        &mut self,
        caller: &Identity,
        request: CreateInvestmentRequest,
        total_offered: Money,
        now: u64,
    ) -> (r: Option<Result<InvestmentRequest, MarketError>>)
        ensures
            r is Some <==> old(self)@.request_fits(caller@, request@, now),
            r is None ==> final(self)@ == old(self)@,
            r is Some ==> final(self)@ == old(self)@.create_request(
                caller@,
                request@,
                total_offered,
                now,
            ).next,
            r matches Some(outcome) ==> match old(self)@.create_request(
                caller@,
                request@,
                total_offered,
                now,
            ).answer {
                Ok(made) => outcome matches Ok(got) && got@ == made,
                Err(e) => outcome matches Err(got) && got == e,
            },
            final(self)@.sound(),
    {
        match self.let_in(caller, Clearance::Investor) {
            Err(e) => {
                return Some(Err(e));
            },
            Ok(()) => {},
        }
        let supplied = match self.get_offer_by_id(&request.offer_id) {
            Some(offer) => {
                let active = match offer.status {
                    OfferStatus::Active => true,
                    _ => false,
                };
                active && offer.available_quantity >= request.requested_quantity
            },
            None => false,
        };
        if !supplied {
            return Some(Err(MarketError::InvalidOffer));
        }
        let expires_at = match now.checked_add(REQUEST_LIFETIME) {
            Some(time) => time,
            None => {
                return None;
            },
        };
        let id = match self.generate_id("req", now) {
            Ok(id) => id,
            Err(e) => {
                return Some(Err(e));
            },
        };
        let made = InvestmentRequest {
            id: id,
            offer_id: request.offer_id,
            investor: caller.clone(),
            requested_quantity: request.requested_quantity,
            offered_price_per_kg: request.offered_price_per_kg,
            total_offered: total_offered,
            message: request.message,
            status: RequestStatus::Pending,
            created_at: now,
            updated_at: now,
            expires_at: expires_at,
        };
        self.store_request(made.id.clone(), &made);
        Some(Ok(made))
    }

    /// Creates a request for part of an offer under a new identifier; only
    /// an investor or an admin may, and only against an active offer with
    /// enough left. `total_offered` is the quantity times the price, which
    /// the caller computes. The request expires `REQUEST_LIFETIME` after
    /// `now`; where a request comes to be created, that has to be a time.
    pub fn create_investment_request(
        &mut self,
        caller: &Identity,
        request: CreateInvestmentRequest,
        total_offered: Money,
        now: u64,
    ) -> (r: Result<InvestmentRequest, MarketError>)
        requires
            old(self)@.request_fits(caller@, request@, now),
        ensures
            final(self)@ == old(self)@.create_request(caller@, request@, total_offered, now).next,
            match old(self)@.create_request(caller@, request@, total_offered, now).answer {
                Ok(made) => r matches Ok(got) && got@ == made,
                Err(e) => r matches Err(got) && got == e,
            },
            final(self)@.sound(),
    {
        match self.try_create_investment_request(caller, request, total_offered, now) {
            Some(outcome) => outcome,
            None => unreached(),
        }
    }

    /// Whether `caller` owns the offer; nobody owns a missing offer.
    fn owns(&self, caller: &Identity, offer_id: &String) -> (r: bool)
        ensures
            r == self@.owns(caller@, offer_id@),
    {
        match self.get_offer_by_id(offer_id) {
            Some(offer) => offer.farmer.same(caller),
            None => false,
        }
    }

    /// Whether the decision can be carried out: whether an acceptance asks
    /// for no more than the offer has left.
    pub fn settlement_fits(&self, caller: &Identity, request: &RespondToRequestRequest) -> (r: bool)
        ensures
            r == self@.respond_fits(caller@, request.request_id@, request.accept),
            self@.sound(),
    {
        proof {
            use_type_invariant(self);
            self.lemma_sound();
        }
        if !request.accept || !is_authenticated(caller) {
            return true;
        }
        let found = match self.load_request(&request.request_id) {
            Some(found) => found,
            None => {
                return true;
            },
        };
        let pending = match found.status {
            RequestStatus::Pending => true,
            _ => false,
        };
        match self.get_offer_by_id(&found.offer_id) {
            Some(offer) => !offer.farmer.same(caller) || !pending || found.requested_quantity
                <= offer.available_quantity,
            None => true,
        }
    }

    /// Decides on a request where the decision can be carried out, as
    /// `respond_to_investment_request` does; where an acceptance asks for
    /// more than the offer has left, gives nothing and changes nothing.
    pub fn try_respond_to_investment_request(
        &mut self,
        caller: &Identity,
        request: RespondToRequestRequest,
        now: u64,
    ) -> (r: Option<Result<InvestmentRequest, MarketError>>)
        ensures
            r is Some <==> old(self)@.respond_fits(caller@, request.request_id@, request.accept),
            r is None ==> final(self)@ == old(self)@,
            r is Some ==> final(self)@ == old(self)@.respond(
                caller@,
                request.request_id@,
                request.accept,
                now,
            ).next,
            r matches Some(outcome) ==> match old(self)@.respond(
                caller@,
                request.request_id@,
                request.accept,
                now,
            ).answer {
                Ok(decided) => outcome matches Ok(got) && got@ == decided,
                Err(e) => outcome matches Err(got) && got == e,
            },
            final(self)@.sound(),
    {
        proof {
            use_type_invariant(&*self);
            self.lemma_sound();
        }
        if self.settlement_fits(caller, &request) {
            Some(self.respond_to_investment_request(caller, request, now))
        } else {
            None
        }
    }

    /// Accepts or rejects a pending request; only the farmer who owns the
    /// offer may. An acceptance takes the quantity from the offer, closes
    /// the offer when nothing is left, and records a transaction.
    pub fn respond_to_investment_request(
        &mut self,
        caller: &Identity,
        request: RespondToRequestRequest,
        now: u64,
    ) -> (r: Result<InvestmentRequest, MarketError>)
        requires
            old(self)@.respond_fits(caller@, request.request_id@, request.accept),
        ensures
            final(self)@ == old(self)@.respond(
                caller@,
                request.request_id@,
                request.accept,
                now,
            ).next,
            match old(self)@.respond(caller@, request.request_id@, request.accept, now).answer {
                Ok(decided) => r matches Ok(got) && got@ == decided,
                Err(e) => r matches Err(got) && got == e,
            },
            final(self)@.sound(),
    {
        proof {
            use_type_invariant(&*self);
            self.lemma_sound();
        }
        if !is_authenticated(caller) {
            return Err(MarketError::Unauthenticated);
        }
        let found = match self.load_request(&request.request_id) {
            Some(found) => found,
            None => {
                return Err(MarketError::RequestNotFound);
            },
        };
        if !self.owns(caller, &found.offer_id) {
            return Err(MarketError::NotOfferOwner);
        }
        match found.status {
            RequestStatus::Pending => {},
            _ => {
                return Err(MarketError::AlreadyProcessed);
            },
        }
        if request.accept {
            let id = match self.generate_id("txn", now) {
                Ok(id) => id,
                Err(e) => {
                    return Err(e);
                },
            };
            let decided = InvestmentRequest {
                status: RequestStatus::Accepted,
                updated_at: now,
                ..found
            };
            let transaction = Transaction {
                id: id,
                offer_id: decided.offer_id.clone(),
                request_id: decided.id.clone(),
                farmer: caller.clone(),
                investor: decided.investor.clone(),
                quantity: decided.requested_quantity,
                price_per_kg: decided.offered_price_per_kg,
                total_amount: decided.total_offered,
                status: TransactionStatus::Confirmed,
                created_at: now,
                updated_at: now,
                tokenized_at: None,
            };
            match self.get_offer_by_id(&decided.offer_id) {
                Some(offer) => {
                    let left = offer.available_quantity - decided.requested_quantity;
                    let status = if left == 0 {
                        OfferStatus::Completed
                    } else {
                        offer.status
                    };
                    let settled = InvestmentOffer {
                        available_quantity: left,
                        updated_at: now,
                        status: status,
                        ..offer
                    };
                    self.store_offer(decided.offer_id.clone(), &settled);
                },
                None => {},
            }
            self.store_transaction(transaction.id.clone(), &transaction);
            self.store_request(request.request_id, &decided);
            Ok(decided)
        } else {
            let decided = InvestmentRequest {
                status: RequestStatus::Rejected,
                updated_at: now,
                ..found
            };
            self.store_request(request.request_id, &decided);
            Ok(decided)
        }
    }

    /// The active offers, in the order of their identifiers.
    pub fn get_available_offers(&self) -> (r: Vec<InvestmentOffer>)
        ensures
            offers_listed(views(r@), self@.offers, OfferQuery::Active),
            self@.sound(),
    {
        proof {
            use_type_invariant(self);
            self.lemma_sound();
        }
        select_offers(&self.offers, &OfferFilter::Active)
    }

    /// The caller's own offers, in the order of their identifiers.
    pub fn get_farmer_offers(&self, caller: &Identity) -> (r: Result<
        Vec<InvestmentOffer>,
        MarketError,
    >)
        ensures
            caller@ == anonymous() ==> (r matches Err(e) && e == MarketError::Unauthenticated),
            caller@ != anonymous() ==> (r matches Ok(list) && offers_listed(
                views(list@),
                self@.offers,
                OfferQuery::OwnedBy(caller@),
            )),
            self@.sound(),
    {
        proof {
            use_type_invariant(self);
            self.lemma_sound();
        }
        if !is_authenticated(caller) {
            return Err(MarketError::Unauthenticated);
        }
        Ok(select_offers(&self.offers, &OfferFilter::OwnedBy(caller.clone())))
    }

    /// The requests against one of the caller's offers, in the order of
    /// their identifiers.
    pub fn get_requests_for_offer(&self, caller: &Identity, offer_id: String) -> (r: Result<
        Vec<InvestmentRequest>,
        MarketError,
    >)
        ensures
            caller@ == anonymous() ==> (r matches Err(e) && e == MarketError::Unauthenticated),
            caller@ != anonymous() && !self@.owns(caller@, offer_id@) ==> (r matches Err(e) && e
                == MarketError::NotOfferOwner),
            caller@ != anonymous() && self@.owns(caller@, offer_id@) ==> (r matches Ok(list)
                && requests_listed(views(list@), self@.requests, RequestQuery::ForOffer(offer_id@))),
            self@.sound(),
    {
        proof {
            use_type_invariant(self);
            self.lemma_sound();
        }
        if !is_authenticated(caller) {
            return Err(MarketError::Unauthenticated);
        }
        if !self.owns(caller, &offer_id) {
            return Err(MarketError::NotOfferOwner);
        }
        Ok(select_requests(&self.requests, &RequestFilter::ForOffer(offer_id)))
    }

    /// The caller's own requests, in the order of their identifiers.
    pub fn get_investor_requests(&self, caller: &Identity) -> (r: Result<
        Vec<InvestmentRequest>,
        MarketError,
    >)
        ensures
            caller@ == anonymous() ==> (r matches Err(e) && e == MarketError::Unauthenticated),
            caller@ != anonymous() ==> (r matches Ok(list) && requests_listed(
                views(list@),
                self@.requests,
                RequestQuery::FromInvestor(caller@),
            )),
            self@.sound(),
    {
        proof {
            use_type_invariant(self);
            self.lemma_sound();
        }
        if !is_authenticated(caller) {
            return Err(MarketError::Unauthenticated);
        }
        Ok(select_requests(&self.requests, &RequestFilter::FromInvestor(caller.clone())))
    }

    /// The transactions in which the caller is the farmer, in the order of
    /// their identifiers.
    pub fn get_farmer_transactions(&self, caller: &Identity) -> (r: Result<
        Vec<Transaction>,
        MarketError,
    >)
        ensures
            caller@ == anonymous() ==> (r matches Err(e) && e == MarketError::Unauthenticated),
            caller@ != anonymous() ==> (r matches Ok(list) && transactions_listed(
                views(list@),
                self@.transactions,
                TransactionQuery::OfFarmer(caller@),
            )),
            self@.sound(),
    {
        proof {
            use_type_invariant(self);
            self.lemma_sound();
        }
        if !is_authenticated(caller) {
            return Err(MarketError::Unauthenticated);
        }
        Ok(select_transactions(&self.transactions, &TransactionFilter::OfFarmer(caller.clone())))
    }

    /// The transactions in which the caller is the investor, in the order
    /// of their identifiers.
    pub fn get_investor_transactions(&self, caller: &Identity) -> (r: Result<
        Vec<Transaction>,
        MarketError,
    >)
        ensures
            caller@ == anonymous() ==> (r matches Err(e) && e == MarketError::Unauthenticated),
            caller@ != anonymous() ==> (r matches Ok(list) && transactions_listed(
                views(list@),
                self@.transactions,
                TransactionQuery::OfInvestor(caller@),
            )),
            self@.sound(),
    {
        proof {
            use_type_invariant(self);
            self.lemma_sound();
        }
        if !is_authenticated(caller) {
            return Err(MarketError::Unauthenticated);
        }
        Ok(select_transactions(&self.transactions, &TransactionFilter::OfInvestor(caller.clone())))
    }

    /// Every user, in the order of the principals; only an admin may ask.
    pub fn get_all_users(&self, caller: &Identity) -> (r: Result<Vec<UserProfile>, MarketError>)
        ensures
            match self@.admission(caller@, Clearance::Admin) {
                Some(e) => r matches Err(got) && got == e,
                None => r matches Ok(list) && users_listed(views(list@), self@.users),
            },
            self@.sound(),
    {
        proof {
            use_type_invariant(self);
            self.lemma_sound();
        }
        match self.let_in(caller, Clearance::Admin) {
            Err(e) => {
                return Err(e);
            },
            Ok(()) => {},
        }
        Ok(select_users(&self.users))
    }

    /// The number of records in each table and the number of active
    /// offers, counted now.
    pub fn get_platform_stats(&self) -> (r: PlatformStats)
        ensures
            r == self@.stats(),
            self@.active_offer_ids().finite(),
            r.active_offers == self@.active_offer_ids().len(),
            r.active_offers <= r.total_offers,
            r.total_users == self@.users.dom().len(),
            r.total_offers == self@.offers.dom().len(),
            r.total_requests == self@.requests.dom().len(),
            r.total_transactions == self@.transactions.dom().len(),
            self@.sound(),
    {
        proof {
            use_type_invariant(self);
            self.lemma_sound();
        }
        let active = select_offers(&self.offers, &OfferFilter::Active);
        proof {
            let got = views(active@);
            let ids = Seq::new(got.len(), |i: int| got[i].id);
            assert forall|i: int, j: int| 0 <= i < ids.len() && 0 <= j < ids.len() && i != j implies ids[i]
                != ids[j] by {
                lemma_text_before_irreflexive(ids[i]);
                if i < j {
                    assert(text_before(got[i].id, got[j].id));
                } else {
                    assert(text_before(got[j].id, got[i].id));
                }
            }
            assert(ids.no_duplicates());
            ids.unique_seq_to_set();
            assert(ids.to_set() =~= self@.active_offer_ids()) by {
                assert forall|k: Seq<char>| self@.active_offer_ids().contains(k) implies ids.to_set().contains(
                    k,
                ) by {
                    let i = choose|i: int| 0 <= i < got.len() && #[trigger] got[i] == self@.offers[k];
                    assert(ids[i] == k);
                }
                assert forall|k: Seq<char>| ids.to_set().contains(k) implies self@.active_offer_ids().contains(
                    k,
                ) by {
                    let i = choose|i: int| 0 <= i < ids.len() && ids[i] == k;
                    assert(got[i].id == k);
                }
            }
            assert(self@.users.dom() =~= principal_entries(self.users).dom());
            assert(self@.offers.dom() =~= text_entries(self.offers).dom());
            assert(self@.requests.dom() =~= text_entries(self.requests).dom());
            assert(self@.transactions.dom() =~= text_entries(self.transactions).dom());
            lemma_len_subset(self@.active_offer_ids(), self@.offers.dom());
        }
        PlatformStats {
            total_users: principal_len(&self.users),
            total_offers: text_len(&self.offers),
            total_requests: text_len(&self.requests),
            total_transactions: text_len(&self.transactions),
            active_offers: active.len() as u64,
        }
    }

    /// Writes an offer under `key`, which is its identifier.
    fn store_offer(&mut self, key: String, offer: &InvestmentOffer)
        requires
            key@ == offer@.id,
            offer@.balanced(),
        ensures
            final(self)@ == (Ledger {
                offers: old(self)@.offers.insert(key@, offer@),
                ..old(self)@
            }),
    {
        proof {
            use_type_invariant(&*self);
            self.lemma_sound();
        }
        let bytes = encode_offer(offer);
        proof {
            lemma_offer_round_trip(offer@);
        }
        let ghost before = text_entries(self.offers);
        text_insert(&mut self.offers, key, bytes);
        assert(offers_in(text_entries(self.offers)) =~= offers_in(before).insert(key@, offer@));
    }

    /// Writes a request under `key`, which is its identifier.
    fn store_request(&mut self, key: String, request: &InvestmentRequest)
        requires
            key@ == request@.id,
        ensures
            final(self)@ == (Ledger {
                requests: old(self)@.requests.insert(key@, request@),
                ..old(self)@
            }),
    {
        proof {
            use_type_invariant(&*self);
            self.lemma_sound();
        }
        let bytes = encode_request(request);
        proof {
            lemma_request_round_trip(request@);
        }
        let ghost before = text_entries(self.requests);
        text_insert(&mut self.requests, key, bytes);
        assert(requests_in(text_entries(self.requests)) =~= requests_in(before).insert(
            key@,
            request@,
        ));
    }

    /// Writes a transaction under `key`, which is its identifier.
    fn store_transaction(&mut self, key: String, transaction: &Transaction)
        requires
            key@ == transaction@.id,
        ensures
            final(self)@ == (Ledger {
                transactions: old(self)@.transactions.insert(key@, transaction@),
                ..old(self)@
            }),
    {
        proof {
            use_type_invariant(&*self);
            self.lemma_sound();
        }
        let bytes = encode_transaction(transaction);
        proof {
            lemma_transaction_round_trip(transaction@);
        }
        let ghost before = text_entries(self.transactions);
        text_insert(&mut self.transactions, key, bytes);
        assert(transactions_in(text_entries(self.transactions)) =~= transactions_in(before).insert(
            key@,
            transaction@,
        ));
    }

    /// Writes a user record under its principal.
    fn store_user(&mut self, user: &UserProfile)
        ensures
            final(self)@ == (Ledger {
                users: old(self)@.users.insert(user@.principal, user@),
                ..old(self)@
            }),
    {
        proof {
            use_type_invariant(&*self);
            self.lemma_sound();
        }
        let bytes = encode_user(user);
        proof {
            lemma_user_round_trip(user@);
        }
        let ghost before = principal_entries(self.users);
        principal_insert(&mut self.users, user.principal.as_bytes(), bytes);
        assert(users_in(principal_entries(self.users)) =~= users_in(before).insert(
            user@.principal,
            user@,
        ));
    }
}

} // verus!
