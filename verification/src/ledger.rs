//! The marketplace as mathematics: four maps of records and a serial
//! number, and each operation as a function from the ledger before it to
//! the ledger after it and the answer.
use vstd::prelude::*;
use crate::api::{
    CreateInvestmentRequestView, CreateOfferRequestView, PlatformStats, RegisterUserRequestView,
};
use crate::errors::MarketError;
use crate::guard::{anonymous, authentication, ownership, Clearance};
use crate::ident::id_text;
use crate::records::{
    InvestmentOfferView, InvestmentRequestView, TransactionView, UserProfileView,
};
use crate::types::{Money, OfferStatus, RequestStatus, TransactionStatus, UserRole};

verus! {

/// How long a request stays open: seven days, in nanoseconds.
pub const REQUEST_LIFETIME: u64 = 604_800_000_000_000;

/// The four tables, and the least number that the next identifier may
/// carry.
pub ghost struct Ledger {
    pub users: Map<Seq<u8>, UserProfileView>,
    pub offers: Map<Seq<char>, InvestmentOfferView>,
    pub requests: Map<Seq<char>, InvestmentRequestView>,
    pub transactions: Map<Seq<char>, TransactionView>,
    pub serial: u64,
}

/// The ledger after an operation, and the operation's answer.
pub ghost struct Step<T> {
    pub next: Ledger,
    pub answer: Result<T, MarketError>,
}

impl Ledger {
    /// Every table is finite, every record stands under its own
    /// identifier, and every offer is balanced.
    pub open spec fn sound(self) -> bool {
        &&& self.users.dom().finite()
        &&& self.offers.dom().finite()
        &&& self.requests.dom().finite()
        &&& self.transactions.dom().finite()
        &&& forall|k: Seq<u8>| #[trigger] self.users.contains_key(k) ==> self.users[k].principal == k
        &&& forall|k: Seq<char>| #[trigger]
            self.offers.contains_key(k) ==> self.offers[k].id == k && self.offers[k].balanced()
        &&& forall|k: Seq<char>| #[trigger]
            self.requests.contains_key(k) ==> self.requests[k].id == k
        &&& forall|k: Seq<char>| #[trigger]
            self.transactions.contains_key(k) ==> self.transactions[k].id == k
    }

    /// The role of `who`, if `who` is registered.
    pub open spec fn role_of(self, who: Seq<u8>) -> Option<UserRole> {
        if self.users.contains_key(who) {
            Some(self.users[who].role)
        } else {
            None
        }
    }

    /// Why `who` lacks the clearance, if so: for want of a user record, or
    /// of the role.
    pub open spec fn authorize_role(self, who: Seq<u8>, clearance: Clearance) -> Option<MarketError> {
        match self.role_of(who) {
            None => Some(MarketError::UserNotFound),
            Some(role) => if clearance.admits(role) {
                None
            } else {
                Some(clearance.refusal())
            },
        }
    }

    /// Why an operation that asks for the clearance is refused to
    /// `caller`, if so.
    pub open spec fn admission(self, caller: Seq<u8>, clearance: Clearance) -> Option<MarketError> {
        match authentication(caller) {
            Some(e) => Some(e),
            None => self.authorize_role(caller, clearance),
        }
    }

    /// Whether `who` owns the offer `offer_id`. Nobody owns a missing offer.
    pub open spec fn owns(self, who: Seq<u8>, offer_id: Seq<char>) -> bool {
        self.offers.contains_key(offer_id) && ownership(who, self.offers[offer_id].farmer) is None
    }

    /// The identifiers of the active offers.
    pub open spec fn active_offer_ids(self) -> Set<Seq<char>> {
        Set::new(
            |k: Seq<char>| self.offers.contains_key(k) && self.offers[k].status == OfferStatus::Active,
        )
    }

    /// The number of records in each table, and the number of active
    /// offers.
    pub open spec fn stats(self) -> PlatformStats {
        PlatformStats {
            total_users: self.users.dom().len() as u64,
            total_offers: self.offers.dom().len() as u64,
            total_requests: self.requests.dom().len() as u64,
            total_transactions: self.transactions.dom().len() as u64,
            active_offers: self.active_offer_ids().len() as u64,
        }
    }

    /// Whether a record of any kind stands under `id`.
    pub open spec fn taken(self, id: Seq<char>) -> bool {
        self.offers.contains_key(id) || self.requests.contains_key(id)
            || self.transactions.contains_key(id)
    }

    /// The least number from `from` on, below the largest, whose
    /// identifier no record stands under.
    pub open spec fn first_free(self, prefix: Seq<char>, from: u64) -> Option<u64>
        decreases u64::MAX - from,
    {
        if from == u64::MAX {
            None
        } else if !self.taken(id_text(prefix, from)) {
            Some(from)
        } else {
            self.first_free(prefix, (from + 1) as u64)
        }
    }

    /// The number of the identifier issued at `now`: the least that is
    /// neither before `now`, nor before the serial, nor taken.
    pub open spec fn issue(self, prefix: Seq<char>, now: u64) -> Option<u64> {
        self.first_free(
            prefix,
            if now >= self.serial {
                now
            } else {
                self.serial
            },
        )
    }

    /// Issues an identifier: gives its number and moves the serial past
    /// it, or refuses where none is left.
    pub open spec fn generate_id(self, prefix: Seq<char>, now: u64) -> Step<u64> {
        match self.issue(prefix, now) {
            Some(number) => Step {
                next: Ledger { serial: (number + 1) as u64, ..self },
                answer: Ok(number),
            },
            None => Step { next: self, answer: Err(MarketError::IdentifiersExhausted) },
        }
    }

    /// Registers the caller.
    pub open spec fn register_user(
        self,
        caller: Seq<u8>,
        request: RegisterUserRequestView,
        now: u64,
    ) -> Step<UserProfileView> {
        if caller == anonymous() {
            Step { next: self, answer: Err(MarketError::Unauthenticated) }
        } else if self.users.contains_key(caller) {
            Step { next: self, answer: Err(MarketError::AlreadyRegistered) }
        } else {
            let user = UserProfileView {
                principal: caller,
                role: request.role,
                display_name: request.display_name,
                email: request.email,
                created_at: now,
                updated_at: now,
            };
            Step {
                next: Ledger { users: self.users.insert(caller, user), ..self },
                answer: Ok(user),
            }
        }
    }

    /// Gives `target` the role `role`; only an admin may.
    pub open spec fn update_user_role(
        self,
        caller: Seq<u8>,
        target: Seq<u8>,
        role: UserRole,
        now: u64,
    ) -> Step<UserProfileView> {
        match self.admission(caller, Clearance::Admin) {
            Some(e) => Step { next: self, answer: Err(e) },
            None => if !self.users.contains_key(target) {
                Step { next: self, answer: Err(MarketError::TargetNotFound) }
            } else {
                let user = UserProfileView { role: role, updated_at: now, ..self.users[target] };
                Step {
                    next: Ledger { users: self.users.insert(target, user), ..self },
                    answer: Ok(user),
                }
            },
        }
    }

    /// The offer that `caller` creates at `now` under the identifier with
    /// this number.
    pub open spec fn new_offer(
        caller: Seq<u8>,
        request: CreateOfferRequestView,
        now: u64,
        number: u64,
    ) -> InvestmentOfferView {
        InvestmentOfferView {
            id: id_text("offer"@, number),
            farmer: caller,
            product_name: request.product_name,
            product_type: request.product_type,
            total_quantity: request.total_quantity,
            available_quantity: request.total_quantity,
            price_per_kg: request.price_per_kg,
            description: request.description,
            harvest_date: request.harvest_date,
            location: request.location,
            quality_grade: request.quality_grade,
            minimum_investment: request.minimum_investment,
            status: OfferStatus::Active,
            created_at: now,
            updated_at: now,
        }
    }

    /// Creates an offer under a new identifier; only a farmer or an admin
    /// may.
    pub open spec fn create_offer(self, caller: Seq<u8>, request: CreateOfferRequestView, now: u64)
        -> Step<InvestmentOfferView> {
        match self.admission(caller, Clearance::Farmer) {
            Some(e) => Step { next: self, answer: Err(e) },
            None => match self.generate_id("offer"@, now).answer {
                Err(e) => Step { next: self, answer: Err(e) },
                Ok(number) => {
                    let offer = Self::new_offer(caller, request, now, number);
                    Step {
                        next: Ledger {
                            offers: self.offers.insert(offer.id, offer),
                            ..self.generate_id("offer"@, now).next
                        },
                        answer: Ok(offer),
                    }
                },
            },
        }
    }

    /// Whether the offer exists, is active and has `quantity` left.
    pub open spec fn can_supply(self, offer_id: Seq<char>, quantity: u64) -> bool {
        &&& self.offers.contains_key(offer_id)
        &&& self.offers[offer_id].status == OfferStatus::Active
        &&& self.offers[offer_id].available_quantity >= quantity
    }

    /// The request that `caller` creates at `now` under the identifier
    /// with this number.
    pub open spec fn new_request(
        caller: Seq<u8>,
        request: CreateInvestmentRequestView,
        total_offered: Money,
        now: u64,
        number: u64,
    ) -> InvestmentRequestView {
        InvestmentRequestView {
            id: id_text("req"@, number),
            offer_id: request.offer_id,
            investor: caller,
            requested_quantity: request.requested_quantity,
            offered_price_per_kg: request.offered_price_per_kg,
            total_offered: total_offered,
            message: request.message,
            status: RequestStatus::Pending,
            created_at: now,
            updated_at: now,
            expires_at: (now + REQUEST_LIFETIME) as u64,
        }
    }

    /// Whether a request that passes every check can be given its expiry:
    /// whether the time plus the lifetime is still a time.
    pub open spec fn request_fits(
        self,
        caller: Seq<u8>,
        request: CreateInvestmentRequestView,
        now: u64,
    ) -> bool {
        self.admission(caller, Clearance::Investor) is None && self.can_supply(
            request.offer_id,
            request.requested_quantity,
        ) ==> now + REQUEST_LIFETIME <= u64::MAX
    }

    /// Creates a request under a new identifier; only an investor or an
    /// admin may, and only against an active offer with enough left.
    pub open spec fn create_request(
        self,
        caller: Seq<u8>,
        request: CreateInvestmentRequestView,
        total_offered: Money,
        now: u64,
    ) -> Step<InvestmentRequestView> {
        match self.admission(caller, Clearance::Investor) {
            Some(e) => Step { next: self, answer: Err(e) },
            None => if !self.can_supply(request.offer_id, request.requested_quantity) {
                Step { next: self, answer: Err(MarketError::InvalidOffer) }
            } else {
                match self.generate_id("req"@, now).answer {
                    Err(e) => Step { next: self, answer: Err(e) },
                    Ok(number) => {
                        let made = Self::new_request(caller, request, total_offered, now, number);
                        Step {
                            next: Ledger {
                                requests: self.requests.insert(made.id, made),
                                ..self.generate_id("req"@, now).next
                            },
                            answer: Ok(made),
                        }
                    },
                }
            },
        }
    }

    /// Why `caller` may not decide on the request, if so.
    pub open spec fn respond_refusal(self, caller: Seq<u8>, request_id: Seq<char>) -> Option<
        MarketError,
    > {
        if caller == anonymous() {
            Some(MarketError::Unauthenticated)
        } else if !self.requests.contains_key(request_id) {
            Some(MarketError::RequestNotFound)
        } else if !self.owns(caller, self.requests[request_id].offer_id) {
            Some(MarketError::NotOfferOwner)
        } else if self.requests[request_id].status != RequestStatus::Pending {
            Some(MarketError::AlreadyProcessed)
        } else {
            None
        }
    }

    /// Whether accepting the request asks for no more than the offer has
    /// left. The quantities are unsigned: an acceptance that asks for more
    /// has no result.
    pub open spec fn respond_fits(self, caller: Seq<u8>, request_id: Seq<char>, accept: bool)
        -> bool {
        accept && self.respond_refusal(caller, request_id) is None
            ==> self.requests[request_id].requested_quantity
            <= self.offers[self.requests[request_id].offer_id].available_quantity
    }

    /// The offer after `quantity` of it was taken at `now`.
    pub open spec fn settled_offer(offer: InvestmentOfferView, quantity: u64, now: u64)
        -> InvestmentOfferView {
        let left = (offer.available_quantity - quantity) as u64;
        InvestmentOfferView {
            available_quantity: left,
            updated_at: now,
            status: if left == 0 {
                OfferStatus::Completed
            } else {
                offer.status
            },
            ..offer
        }
    }

    /// The transaction that records the acceptance of `request` at `now`,
    /// under the identifier with this number.
    pub open spec fn new_transaction(
        caller: Seq<u8>,
        request: InvestmentRequestView,
        now: u64,
        number: u64,
    ) -> TransactionView {
        TransactionView {
            id: id_text("txn"@, number),
            offer_id: request.offer_id,
            request_id: request.id,
            farmer: caller,
            investor: request.investor,
            quantity: request.requested_quantity,
            price_per_kg: request.offered_price_per_kg,
            total_amount: request.total_offered,
            status: TransactionStatus::Confirmed,
            created_at: now,
            updated_at: now,
            tokenized_at: None,
        }
    }

    /// Accepts or rejects a pending request; only the farmer who owns the
    /// offer may. An acceptance takes the quantity from the offer, closes
    /// the offer when nothing is left, and records a transaction under a
    /// new identifier.
    pub open spec fn respond(self, caller: Seq<u8>, request_id: Seq<char>, accept: bool, now: u64)
        -> Step<InvestmentRequestView> {
        match self.respond_refusal(caller, request_id) {
            Some(e) => Step { next: self, answer: Err(e) },
            None => {
                let request = self.requests[request_id];
                if accept {
                    match self.generate_id("txn"@, now).answer {
                        Err(e) => Step { next: self, answer: Err(e) },
                        Ok(number) => {
                            let decided = InvestmentRequestView {
                                status: RequestStatus::Accepted,
                                updated_at: now,
                                ..request
                            };
                            let offer = Self::settled_offer(
                                self.offers[request.offer_id],
                                request.requested_quantity,
                                now,
                            );
                            let transaction = Self::new_transaction(caller, request, now, number);
                            Step {
                                next: Ledger {
                                    users: self.users,
                                    offers: self.offers.insert(request.offer_id, offer),
                                    requests: self.requests.insert(request_id, decided),
                                    transactions: self.transactions.insert(
                                        transaction.id,
                                        transaction,
                                    ),
                                    serial: self.generate_id("txn"@, now).next.serial,
                                },
                                answer: Ok(decided),
                            }
                        },
                    }
                } else {
                    let decided = InvestmentRequestView {
                        status: RequestStatus::Rejected,
                        updated_at: now,
                        ..request
                    };
                    Step {
                        next: Ledger { requests: self.requests.insert(request_id, decided), ..self },
                        answer: Ok(decided),
                    }
                }
            },
        }
    }
}

} // verus!
