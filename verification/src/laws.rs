//! What holds of every ledger and of every step.
use vstd::prelude::*;
use crate::api::{CreateInvestmentRequestView, CreateOfferRequestView, RegisterUserRequestView};
use crate::errors::MarketError;
use vstd::set_lib::lemma_len_subset;
use crate::guard::anonymous;
use crate::ident::{id_text, lemma_id_text_injective};
use crate::ledger::Ledger;
use crate::types::{Money, OfferStatus, RequestStatus, TransactionStatus, UserRole};

verus! {

/// Registering a user keeps the ledger sound.
pub proof fn law_register_user_keeps_sound(
    s: Ledger,
    caller: Seq<u8>,
    request: RegisterUserRequestView,
    now: u64,
)
    requires
        s.sound(),
    ensures
        s.register_user(caller, request, now).next.sound(),
{
}

/// Changing a role keeps the ledger sound.
pub proof fn law_update_user_role_keeps_sound(
    s: Ledger,
    caller: Seq<u8>,
    target: Seq<u8>,
    role: UserRole,
    now: u64,
)
    requires
        s.sound(),
    ensures
        s.update_user_role(caller, target, role, now).next.sound(),
{
}

/// Creating an offer keeps the ledger sound, and the new offer has all of
/// its quantity left.
pub proof fn law_create_offer_keeps_sound(
    s: Ledger,
    caller: Seq<u8>,
    request: CreateOfferRequestView,
    now: u64,
)
    requires
        s.sound(),
    ensures
        s.create_offer(caller, request, now).next.sound(),
        s.create_offer(caller, request, now).answer matches Ok(offer) ==> {
            &&& offer.available_quantity == offer.total_quantity
            &&& offer.total_quantity == request.total_quantity
            &&& offer.status == OfferStatus::Active
            &&& s.create_offer(caller, request, now).next.offers[offer.id] == offer
        },
{
}

/// Creating a request keeps the ledger sound.
pub proof fn law_create_request_keeps_sound(
    s: Ledger,
    caller: Seq<u8>,
    request: CreateInvestmentRequestView,
    total_offered: Money,
    now: u64,
)
    requires
        s.sound(),
    ensures
        s.create_request(caller, request, total_offered, now).next.sound(),
{
}

/// A decision keeps the ledger sound: in every offer, after as before, the
/// quantity left is at most the quantity offered, and a completed offer
/// has nothing left.
pub proof fn law_respond_keeps_sound(
    s: Ledger,
    caller: Seq<u8>,
    request_id: Seq<char>,
    accept: bool,
    now: u64,
)
    requires
        s.sound(),
        s.respond_fits(caller, request_id, accept),
    ensures
        s.respond(caller, request_id, accept, now).next.sound(),
{
}

/// An acceptance of a request for `q` on an offer with `a` left leaves
/// `a - q`, and closes the offer exactly when that is nothing; every other
/// offer stays as it was.
pub proof fn law_acceptance_takes_quantity(
    s: Ledger,
    caller: Seq<u8>,
    request_id: Seq<char>,
    now: u64,
)
    requires
        s.sound(),
        s.respond_fits(caller, request_id, true),
        s.respond(caller, request_id, true, now).answer is Ok,
    ensures
        ({
            let offer_id = s.requests[request_id].offer_id;
            let q = s.requests[request_id].requested_quantity;
            let before = s.offers[offer_id];
            let after = s.respond(caller, request_id, true, now).next.offers[offer_id];
            &&& after.available_quantity == before.available_quantity - q
            &&& after.total_quantity == before.total_quantity
            &&& after.status == if before.available_quantity - q == 0 {
                OfferStatus::Completed
            } else {
                before.status
            }
            &&& forall|k: Seq<char>|
                k != offer_id ==> s.respond(caller, request_id, true, now).next.offers.contains_key(
                    k,
                ) == s.offers.contains_key(k) && s.respond(
                    caller,
                    request_id,
                    true,
                    now,
                ).next.offers[k] == s.offers[k]
        }),
{
}

/// A request is decided at most once: after a decision, whoever asks
/// again, with whatever choice, is refused and nothing changes; the
/// offer's owner is told that the request was already processed.
pub proof fn law_second_response_refused(
    s: Ledger,
    caller: Seq<u8>,
    request_id: Seq<char>,
    accept: bool,
    now: u64,
    again_caller: Seq<u8>,
    again_accept: bool,
    again_now: u64,
)
    requires
        s.sound(),
        s.respond_fits(caller, request_id, accept),
        s.respond(caller, request_id, accept, now).answer is Ok,
    ensures
        ({
            let after = s.respond(caller, request_id, accept, now).next;
            let again = after.respond(again_caller, request_id, again_accept, again_now);
            &&& again.answer is Err
            &&& again.next == after
            &&& after.respond_fits(again_caller, request_id, again_accept)
            &&& again_caller == caller ==> (again.answer matches Err(e) && e
                == MarketError::AlreadyProcessed)
        }),
{
}

/// What `first_free` finds: the least number from `from` on, below the
/// largest, whose identifier is not taken; and it finds nothing only
/// where every such identifier is taken.
pub proof fn law_first_free_is_least(s: Ledger, prefix: Seq<char>, from: u64)
    ensures
        match s.first_free(prefix, from) {
            Some(n) => from <= n < u64::MAX && !s.taken(id_text(prefix, n)) && forall|j: u64|
                from <= j < n ==> s.taken(#[trigger] id_text(prefix, j)),
            None => forall|j: u64| from <= j < u64::MAX ==> s.taken(#[trigger] id_text(prefix, j)),
        },
    decreases u64::MAX - from,
{
    if from != u64::MAX && s.taken(id_text(prefix, from)) {
        law_first_free_is_least(s, prefix, (from + 1) as u64);
    }
}

/// An issued identifier is new: no record of any kind stands under it,
/// its number is neither before the time nor before the serial, and the
/// serial moves past it.
pub proof fn law_issued_identifier_is_new(s: Ledger, prefix: Seq<char>, now: u64)
    requires
        s.generate_id(prefix, now).answer is Ok,
    ensures
        ({
            let n = s.generate_id(prefix, now).answer->Ok_0;
            &&& !s.taken(id_text(prefix, n))
            &&& now <= n
            &&& s.serial <= n
            &&& s.generate_id(prefix, now).next.serial == n + 1
            &&& s.generate_id(prefix, now).next == (Ledger { serial: (n + 1) as u64, ..s })
        }),
{
    law_first_free_is_least(
        s,
        prefix,
        if now >= s.serial {
            now
        } else {
            s.serial
        },
    );
}

/// No identifier is issued twice: whatever happens to the tables between
/// two issues, and whatever the times, the later identifier differs from
/// the earlier one, as long as the serial has not been set back.
pub proof fn law_identifiers_are_unique(
    s: Ledger,
    prefix: Seq<char>,
    now: u64,
    later: Ledger,
    later_now: u64,
)
    requires
        s.generate_id(prefix, now).answer is Ok,
        later.serial >= s.generate_id(prefix, now).next.serial,
        later.generate_id(prefix, later_now).answer is Ok,
    ensures
        id_text(prefix, s.generate_id(prefix, now).answer->Ok_0) != id_text(
            prefix,
            later.generate_id(prefix, later_now).answer->Ok_0,
        ),
{
    let first = s.generate_id(prefix, now).answer->Ok_0;
    let second = later.generate_id(prefix, later_now).answer->Ok_0;
    law_issued_identifier_is_new(s, prefix, now);
    law_issued_identifier_is_new(later, prefix, later_now);
    if id_text(prefix, first) == id_text(prefix, second) {
        lemma_id_text_injective(prefix, first, second);
    }
}

/// No operation sets the serial back.
pub proof fn law_serial_never_falls(
    s: Ledger,
    caller: Seq<u8>,
    target: Seq<u8>,
    role: UserRole,
    registration: RegisterUserRequestView,
    offer: CreateOfferRequestView,
    request: CreateInvestmentRequestView,
    total_offered: Money,
    request_id: Seq<char>,
    accept: bool,
    prefix: Seq<char>,
    now: u64,
)
    ensures
        s.generate_id(prefix, now).next.serial >= s.serial,
        s.register_user(caller, registration, now).next.serial >= s.serial,
        s.update_user_role(caller, target, role, now).next.serial >= s.serial,
        s.create_offer(caller, offer, now).next.serial >= s.serial,
        s.create_request(caller, request, total_offered, now).next.serial >= s.serial,
        s.respond(caller, request_id, accept, now).next.serial >= s.serial,
{
    if s.generate_id(prefix, now).answer is Ok {
        law_issued_identifier_is_new(s, prefix, now);
    }
    if s.generate_id("offer"@, now).answer is Ok {
        law_issued_identifier_is_new(s, "offer"@, now);
    }
    if s.generate_id("req"@, now).answer is Ok {
        law_issued_identifier_is_new(s, "req"@, now);
    }
    if s.generate_id("txn"@, now).answer is Ok {
        law_issued_identifier_is_new(s, "txn"@, now);
    }
}

/// A created offer stands under an identifier that no record stood under,
/// and it is the one offer that was added.
pub proof fn law_created_offer_is_one_more(
    s: Ledger,
    caller: Seq<u8>,
    request: CreateOfferRequestView,
    now: u64,
)
    requires
        s.sound(),
        s.create_offer(caller, request, now).answer is Ok,
    ensures
        ({
            let offer = s.create_offer(caller, request, now).answer->Ok_0;
            let after = s.create_offer(caller, request, now).next;
            &&& !s.taken(offer.id)
            &&& after.offers.dom() == s.offers.dom().insert(offer.id)
            &&& after.offers.dom().len() == s.offers.dom().len() + 1
            &&& forall|k: Seq<char>| s.offers.contains_key(k) ==> after.offers[k] == s.offers[k]
            &&& after.requests == s.requests
            &&& after.transactions == s.transactions
            &&& after.users == s.users
        }),
{
    law_issued_identifier_is_new(s, "offer"@, now);
    let offer = s.create_offer(caller, request, now).answer->Ok_0;
    let after = s.create_offer(caller, request, now).next;
    assert(after.offers.dom() =~= s.offers.dom().insert(offer.id));
}

/// A created request stands under an identifier that no record stood
/// under, and it is the one request that was added.
pub proof fn law_created_request_is_one_more(
    s: Ledger,
    caller: Seq<u8>,
    request: CreateInvestmentRequestView,
    total_offered: Money,
    now: u64,
)
    requires
        s.sound(),
        s.create_request(caller, request, total_offered, now).answer is Ok,
    ensures
        ({
            let made = s.create_request(caller, request, total_offered, now).answer->Ok_0;
            let after = s.create_request(caller, request, total_offered, now).next;
            &&& !s.taken(made.id)
            &&& after.requests.dom() == s.requests.dom().insert(made.id)
            &&& after.requests.dom().len() == s.requests.dom().len() + 1
            &&& forall|k: Seq<char>|
                s.requests.contains_key(k) ==> after.requests[k] == s.requests[k]
            &&& after.offers == s.offers
            &&& after.transactions == s.transactions
            &&& after.users == s.users
        }),
{
    law_issued_identifier_is_new(s, "req"@, now);
    let made = s.create_request(caller, request, total_offered, now).answer->Ok_0;
    let after = s.create_request(caller, request, total_offered, now).next;
    assert(after.requests.dom() =~= s.requests.dom().insert(made.id));
}

/// An acceptance records exactly one transaction, under an identifier
/// that no record stood under: confirmed, with the request's quantity,
/// price and total.
pub proof fn law_acceptance_records_one_transaction(
    s: Ledger,
    caller: Seq<u8>,
    request_id: Seq<char>,
    now: u64,
)
    requires
        s.sound(),
        s.respond(caller, request_id, true, now).answer is Ok,
    ensures
        ({
            let request = s.requests[request_id];
            let number = s.generate_id("txn"@, now).answer->Ok_0;
            let made = Ledger::new_transaction(caller, request, now, number);
            let after = s.respond(caller, request_id, true, now).next.transactions;
            &&& !s.taken(made.id)
            &&& after.dom() == s.transactions.dom().insert(made.id)
            &&& after.dom().len() == s.transactions.dom().len() + 1
            &&& after[made.id] == made
            &&& forall|k: Seq<char>| s.transactions.contains_key(k) ==> after[k] == s.transactions[k]
            &&& made.quantity == request.requested_quantity
            &&& made.price_per_kg == request.offered_price_per_kg
            &&& made.total_amount == request.total_offered
            &&& made.offer_id == request.offer_id
            &&& made.request_id == request_id
            &&& made.status == TransactionStatus::Confirmed
        }),
{
    law_issued_identifier_is_new(s, "txn"@, now);
    let number = s.generate_id("txn"@, now).answer->Ok_0;
    let made = Ledger::new_transaction(caller, s.requests[request_id], now, number);
    let after = s.respond(caller, request_id, true, now).next.transactions;
    assert(after.dom() =~= s.transactions.dom().insert(made.id));
}

/// The active offers are among the offers, so they are no more.
pub proof fn law_active_offers_are_offers(s: Ledger)
    requires
        s.sound(),
    ensures
        s.active_offer_ids().finite(),
        s.active_offer_ids().len() <= s.offers.dom().len(),
{
    lemma_len_subset(s.active_offer_ids(), s.offers.dom());
}

/// A rejection records no transaction and leaves every offer and every
/// user as they were; of the requests, only the rejected one changes.
pub proof fn law_rejection_touches_only_request(
    s: Ledger,
    caller: Seq<u8>,
    request_id: Seq<char>,
    now: u64,
)
    ensures
        ({
            let step = s.respond(caller, request_id, false, now);
            &&& step.next.transactions == s.transactions
            &&& step.next.offers == s.offers
            &&& step.next.users == s.users
            &&& step.answer is Ok ==> step.next.requests == s.requests.insert(
                request_id,
                step.answer->Ok_0,
            ) && step.answer->Ok_0.status == RequestStatus::Rejected
            &&& step.answer is Err ==> step.next == s
        }),
{
}

/// A request for more than the offer has left, or against an offer that is
/// not active, is refused as an invalid offer, and nothing is recorded.
pub proof fn law_request_needs_supply(
    s: Ledger,
    caller: Seq<u8>,
    request: CreateInvestmentRequestView,
    total_offered: Money,
    now: u64,
)
    requires
        caller != anonymous(),
        s.role_of(caller) == Some(UserRole::Investor) || s.role_of(caller) == Some(UserRole::Admin),
        !s.offers.contains_key(request.offer_id) || s.offers[request.offer_id].status
            != OfferStatus::Active || request.requested_quantity
            > s.offers[request.offer_id].available_quantity,
    ensures
        s.create_request(caller, request, total_offered, now).answer matches Err(e) && e
            == MarketError::InvalidOffer,
        s.create_request(caller, request, total_offered, now).next == s,
{
}

/// A caller who does not own the offer cannot decide on a request for it,
/// and nothing changes.
pub proof fn law_only_owner_responds(
    s: Ledger,
    caller: Seq<u8>,
    request_id: Seq<char>,
    accept: bool,
    now: u64,
)
    requires
        caller != anonymous(),
        s.requests.contains_key(request_id),
        !s.owns(caller, s.requests[request_id].offer_id),
    ensures
        s.respond(caller, request_id, accept, now).answer matches Err(e) && e
            == MarketError::NotOfferOwner,
        s.respond(caller, request_id, accept, now).next == s,
{
}

} // verus!
