use harvestx_backend::api::{
    CreateInvestmentRequest, CreateOfferRequest, RegisterUserRequest, RespondToRequestRequest,
};
use harvestx_backend::errors::{ErrorKind, MarketError};
use harvestx_backend::guard::is_authenticated;
use harvestx_backend::market::Marketplace;
use harvestx_backend::types::{
    Identity, Money, OfferStatus, ProductType, QualityGrade, RequestStatus, TransactionStatus,
    UserRole,
};

fn who(tag: u8) -> Identity {
    Identity::from_bytes(vec![tag, 1, 2, 3, 4, 5, 6, 7, 8, 1]).unwrap()
}

fn money(x: f64) -> Money {
    Money { bits: x.to_bits() }
}

fn amount(m: Money) -> f64 {
    f64::from_bits(m.bits)
}

fn register(m: &mut Marketplace, id: &Identity, role: UserRole, name: &str, now: u64) {
    let made = m
        .register_user(
            id,
            RegisterUserRequest {
                role,
                display_name: name.to_string(),
                email: format!("{}@farm.example", name),
            },
            now,
        )
        .unwrap();
    assert_eq!(made.role, role);
}

fn offer_of(total: u64, price: f64) -> CreateOfferRequest {
    CreateOfferRequest {
        product_name: "Maize".to_string(),
        product_type: ProductType::Grains,
        total_quantity: total,
        price_per_kg: money(price),
        description: "Yellow maize".to_string(),
        harvest_date: "2025-09-01".to_string(),
        location: "Nakuru".to_string(),
        quality_grade: QualityGrade::Grade1,
        minimum_investment: 10,
    }
}

fn ask(m: &mut Marketplace, investor: &Identity, offer_id: &str, q: u64, price: f64, now: u64)
    -> Result<harvestx_backend::records::InvestmentRequest, MarketError> {
    m.create_investment_request(
        investor,
        CreateInvestmentRequest {
            offer_id: offer_id.to_string(),
            requested_quantity: q,
            offered_price_per_kg: money(price),
            message: "please".to_string(),
        },
        money(q as f64 * price),
        now,
    )
}

fn decide(m: &mut Marketplace, caller: &Identity, request_id: &str, accept: bool, now: u64)
    -> Result<harvestx_backend::records::InvestmentRequest, MarketError> {
    let request = RespondToRequestRequest { request_id: request_id.to_string(), accept };
    assert!(m.settlement_fits(caller, &request));
    m.respond_to_investment_request(caller, request, now)
}

/// A market with farmer 1, farmer 2, investor 3 and admin 4.
fn market() -> Marketplace {
    let mut m = Marketplace::init().unwrap();
    register(&mut m, &who(1), UserRole::Farmer, "fatuma", 1);
    register(&mut m, &who(2), UserRole::Farmer, "gideon", 2);
    register(&mut m, &who(3), UserRole::Investor, "imani", 3);
    register(&mut m, &who(4), UserRole::Admin, "amina", 4);
    m
}

#[test]
fn accepting_two_requests_completes_the_offer() {
    let mut m = market();
    let farmer = who(1);
    let investor = who(3);
    let offer = m.create_agricultural_offer(&farmer, offer_of(100, 5.0), 1000).unwrap();
    assert_eq!(offer.id, "offer_1000");
    assert_eq!(offer.total_quantity, 100);
    assert_eq!(offer.available_quantity, 100);
    assert_eq!(amount(offer.price_per_kg), 5.0);
    assert_eq!(offer.status, OfferStatus::Active);

    let first = ask(&mut m, &investor, "offer_1000", 60, 4.5, 2000).unwrap();
    assert_eq!(first.id, "req_2000");
    assert_eq!(first.status, RequestStatus::Pending);
    assert_eq!(amount(first.total_offered), 270.0);
    assert_eq!(first.expires_at, 2000 + 7 * 24 * 60 * 60 * 1_000_000_000);

    let decided = decide(&mut m, &farmer, "req_2000", true, 3000).unwrap();
    assert_eq!(decided.status, RequestStatus::Accepted);
    assert_eq!(decided.updated_at, 3000);
    let after = m.get_offer_by_id(&"offer_1000".to_string()).unwrap();
    assert_eq!(after.available_quantity, 40);
    assert_eq!(after.total_quantity, 100);
    assert_eq!(after.status, OfferStatus::Active);
    assert_eq!(after.updated_at, 3000);
    let recorded = m.get_farmer_transactions(&farmer).unwrap();
    assert_eq!(recorded.len(), 1);
    assert_eq!(recorded[0].id, "txn_3000");
    assert_eq!(recorded[0].quantity, 60);
    assert_eq!(amount(recorded[0].price_per_kg), 4.5);
    assert_eq!(amount(recorded[0].total_amount), 270.0);
    assert_eq!(recorded[0].status, TransactionStatus::Confirmed);
    assert_eq!(recorded[0].offer_id, "offer_1000");
    assert_eq!(recorded[0].request_id, "req_2000");
    assert_eq!(recorded[0].tokenized_at, None);
    assert!(recorded[0].farmer.same(&farmer));
    assert!(recorded[0].investor.same(&investor));

    ask(&mut m, &investor, "offer_1000", 40, 5.0, 4000).unwrap();
    decide(&mut m, &farmer, "req_4000", true, 5000).unwrap();
    let closed = m.get_offer_by_id(&"offer_1000".to_string()).unwrap();
    assert_eq!(closed.available_quantity, 0);
    assert_eq!(closed.status, OfferStatus::Completed);

    let stats = m.get_platform_stats();
    assert_eq!(stats.total_users, 4);
    assert_eq!(stats.total_offers, 1);
    assert_eq!(stats.total_requests, 2);
    assert_eq!(stats.total_transactions, 2);
    assert_eq!(stats.active_offers, 0);
    assert!(m.get_available_offers().is_empty());
}

#[test]
fn another_farmer_cannot_respond() {
    let mut m = market();
    m.create_agricultural_offer(&who(1), offer_of(100, 5.0), 1000).unwrap();
    ask(&mut m, &who(3), "offer_1000", 60, 4.5, 2000).unwrap();
    let before = m.get_platform_stats();
    for accept in [true, false] {
        let refused = decide(&mut m, &who(2), "req_2000", accept, 3000).unwrap_err();
        assert_eq!(refused, MarketError::NotOfferOwner);
        assert_eq!(refused.kind(), ErrorKind::Forbidden);
    }
    assert_eq!(m.get_platform_stats(), before);
    let offer = m.get_offer_by_id(&"offer_1000".to_string()).unwrap();
    assert_eq!(offer.available_quantity, 100);
    assert_eq!(offer.updated_at, 1000);
    let pending = m.get_investor_requests(&who(3)).unwrap();
    assert_eq!(pending.len(), 1);
    assert_eq!(pending[0].status, RequestStatus::Pending);
    assert_eq!(pending[0].updated_at, 2000);
}

#[test]
fn a_request_is_decided_once() {
    let mut m = market();
    m.create_agricultural_offer(&who(1), offer_of(100, 5.0), 1000).unwrap();
    ask(&mut m, &who(3), "offer_1000", 60, 4.5, 2000).unwrap();
    ask(&mut m, &who(3), "offer_1000", 10, 4.5, 2001).unwrap();
    decide(&mut m, &who(1), "req_2000", true, 3000).unwrap();
    decide(&mut m, &who(1), "req_2001", false, 3001).unwrap();
    let before = m.get_platform_stats();
    for id in ["req_2000", "req_2001"] {
        for accept in [true, false] {
            let refused = decide(&mut m, &who(1), id, accept, 4000).unwrap_err();
            assert_eq!(refused, MarketError::AlreadyProcessed);
            assert_eq!(refused.kind(), ErrorKind::AlreadyProcessed);
        }
    }
    assert_eq!(m.get_platform_stats(), before);
    let offer = m.get_offer_by_id(&"offer_1000".to_string()).unwrap();
    assert_eq!(offer.available_quantity, 40);
    assert_eq!(offer.updated_at, 3000);
    assert_eq!(m.get_farmer_transactions(&who(1)).unwrap().len(), 1);
}

#[test]
fn a_rejection_touches_only_the_request() {
    let mut m = market();
    m.create_agricultural_offer(&who(1), offer_of(100, 5.0), 1000).unwrap();
    ask(&mut m, &who(3), "offer_1000", 60, 4.5, 2000).unwrap();
    let decided = decide(&mut m, &who(1), "req_2000", false, 3000).unwrap();
    assert_eq!(decided.status, RequestStatus::Rejected);
    assert_eq!(decided.updated_at, 3000);
    assert_eq!(decided.created_at, 2000);
    let offer = m.get_offer_by_id(&"offer_1000".to_string()).unwrap();
    assert_eq!(offer.available_quantity, 100);
    assert_eq!(offer.status, OfferStatus::Active);
    assert_eq!(offer.updated_at, 1000);
    assert!(m.get_farmer_transactions(&who(1)).unwrap().is_empty());
    assert!(m.get_investor_transactions(&who(3)).unwrap().is_empty());
    assert_eq!(m.get_platform_stats().total_transactions, 0);
    let stored = m.get_requests_for_offer(&who(1), "offer_1000".to_string()).unwrap();
    assert_eq!(stored.len(), 1);
    assert_eq!(stored[0].status, RequestStatus::Rejected);
}

#[test]
fn a_request_needs_an_active_offer_with_enough_left() {
    let mut m = market();
    m.create_agricultural_offer(&who(1), offer_of(100, 5.0), 1000).unwrap();
    let too_much = ask(&mut m, &who(3), "offer_1000", 101, 4.5, 2000).unwrap_err();
    assert_eq!(too_much, MarketError::InvalidOffer);
    assert_eq!(too_much.kind(), ErrorKind::InvalidOffer);
    assert_eq!(too_much.message(), "Invalid offer or insufficient quantity");
    let missing = ask(&mut m, &who(3), "offer_9", 1, 4.5, 2000).unwrap_err();
    assert_eq!(missing, MarketError::InvalidOffer);
    assert_eq!(m.get_platform_stats().total_requests, 0);

    ask(&mut m, &who(3), "offer_1000", 100, 4.5, 2000).unwrap();
    decide(&mut m, &who(1), "req_2000", true, 3000).unwrap();
    let closed = ask(&mut m, &who(3), "offer_1000", 0, 4.5, 4000).unwrap_err();
    assert_eq!(closed, MarketError::InvalidOffer);
    assert_eq!(m.get_platform_stats().total_requests, 1);
}

#[test]
fn an_offer_of_nothing_is_closed_by_an_acceptance_of_nothing() {
    let mut m = market();
    let offer = m.create_agricultural_offer(&who(1), offer_of(0, 5.0), 1000).unwrap();
    assert_eq!(offer.available_quantity, 0);
    assert_eq!(offer.status, OfferStatus::Active);
    ask(&mut m, &who(3), "offer_1000", 0, 4.5, 2000).unwrap();
    decide(&mut m, &who(1), "req_2000", true, 3000).unwrap();
    let after = m.get_offer_by_id(&"offer_1000".to_string()).unwrap();
    assert_eq!(after.available_quantity, 0);
    assert_eq!(after.status, OfferStatus::Completed);
}

#[test]
fn an_acceptance_beyond_what_is_left_does_not_fit() {
    let mut m = market();
    m.create_agricultural_offer(&who(1), offer_of(100, 5.0), 1000).unwrap();
    ask(&mut m, &who(3), "offer_1000", 60, 4.5, 2000).unwrap();
    ask(&mut m, &who(3), "offer_1000", 60, 4.5, 2001).unwrap();
    decide(&mut m, &who(1), "req_2000", true, 3000).unwrap();
    let second = RespondToRequestRequest { request_id: "req_2001".to_string(), accept: true };
    assert!(!m.settlement_fits(&who(1), &second));
    let reject = RespondToRequestRequest { request_id: "req_2001".to_string(), accept: false };
    assert!(m.settlement_fits(&who(1), &reject));
    assert!(m.settlement_fits(&who(2), &second));
    assert!(m.settlement_fits(&Identity::from_bytes(vec![4]).unwrap(), &second));
    let unknown = RespondToRequestRequest { request_id: "req_7".to_string(), accept: true };
    assert!(m.settlement_fits(&who(1), &unknown));

    let before = m.get_platform_stats();
    assert!(m.try_respond_to_investment_request(&who(1), second, 4000).is_none());
    assert_eq!(m.get_platform_stats(), before);
    let offer = m.get_offer_by_id(&"offer_1000".to_string()).unwrap();
    assert_eq!((offer.available_quantity, offer.updated_at), (40, 3000));
    let waiting = m.get_investor_requests(&who(3)).unwrap();
    assert_eq!(waiting[1].status, RequestStatus::Pending);
    let refused = m.try_respond_to_investment_request(&who(2), unknown, 4000).unwrap();
    assert_eq!(refused.unwrap_err(), MarketError::RequestNotFound);
    let done = m.try_respond_to_investment_request(&who(1), reject, 4000).unwrap().unwrap();
    assert_eq!(done.status, RequestStatus::Rejected);
    assert_eq!(done.id, "req_2001");
}

#[test]
fn the_anonymous_caller_is_refused_everywhere() {
    let mut m = market();
    let nobody = Identity::from_bytes(vec![4]).unwrap();
    assert!(!is_authenticated(&nobody));
    assert!(is_authenticated(&who(1)));
    assert!(is_authenticated(&Identity::from_bytes(vec![]).unwrap()));
    assert!(is_authenticated(&Identity::from_bytes(vec![4, 0]).unwrap()));
    let e = MarketError::Unauthenticated;
    assert_eq!(e.kind(), ErrorKind::Unauthenticated);
    assert_eq!(m.get_current_user(&nobody).unwrap_err(), e);
    let join = RegisterUserRequest {
        role: UserRole::Guest,
        display_name: "x".to_string(),
        email: "y".to_string(),
    };
    assert_eq!(m.register_user(&nobody, join, 9).unwrap_err(), e);
    assert_eq!(m.update_user_role(&nobody, &who(1), UserRole::Admin, 9).unwrap_err(), e);
    assert_eq!(m.create_agricultural_offer(&nobody, offer_of(1, 1.0), 9).unwrap_err(), e);
    assert_eq!(ask(&mut m, &nobody, "offer_1", 1, 1.0, 9).unwrap_err(), e);
    assert_eq!(decide(&mut m, &nobody, "req_1", true, 9).unwrap_err(), e);
    assert_eq!(m.get_farmer_offers(&nobody).unwrap_err(), e);
    assert_eq!(m.get_requests_for_offer(&nobody, "offer_1".to_string()).unwrap_err(), e);
    assert_eq!(m.get_investor_requests(&nobody).unwrap_err(), e);
    assert_eq!(m.get_farmer_transactions(&nobody).unwrap_err(), e);
    assert_eq!(m.get_investor_transactions(&nobody).unwrap_err(), e);
    assert_eq!(m.get_all_users(&nobody).unwrap_err(), e);
    assert_eq!(m.get_platform_stats().total_users, 4);
}

#[test]
fn roles_gate_the_operations() {
    let mut m = market();
    let stranger = who(9);
    assert!(m.get_current_user(&stranger).unwrap().is_none());
    let me = m.get_current_user(&who(3)).unwrap().unwrap();
    assert_eq!(me.role, UserRole::Investor);
    assert_eq!(me.display_name, "imani");
    assert_eq!(me.email, "imani@farm.example");
    assert_eq!(me.created_at, 3);
    assert!(me.principal.same(&who(3)));

    let again = RegisterUserRequest {
        role: UserRole::Admin,
        display_name: "imani".to_string(),
        email: "i".to_string(),
    };
    let e = m.register_user(&who(3), again, 50).unwrap_err();
    assert_eq!(e, MarketError::AlreadyRegistered);
    assert_eq!(e.kind(), ErrorKind::AlreadyRegistered);
    assert_eq!(m.get_current_user(&who(3)).unwrap().unwrap().role, UserRole::Investor);

    let e = m.create_agricultural_offer(&who(3), offer_of(1, 1.0), 9).unwrap_err();
    assert_eq!(e, MarketError::FarmerRequired);
    assert_eq!(e.kind(), ErrorKind::Forbidden);
    let e = m.create_agricultural_offer(&stranger, offer_of(1, 1.0), 9).unwrap_err();
    assert_eq!(e, MarketError::UserNotFound);
    assert_eq!(e.kind(), ErrorKind::NotFound);
    assert_eq!(m.get_platform_stats().total_offers, 0);
    m.create_agricultural_offer(&who(4), offer_of(5, 1.0), 10).unwrap();

    let e = ask(&mut m, &who(1), "offer_10", 1, 1.0, 11).unwrap_err();
    assert_eq!(e, MarketError::InvestorRequired);
    assert_eq!(e.kind(), ErrorKind::Forbidden);
    assert_eq!(ask(&mut m, &stranger, "offer_10", 1, 1.0, 11).unwrap_err(), MarketError::UserNotFound);
    ask(&mut m, &who(4), "offer_10", 1, 1.0, 12).unwrap();

    let e = m.get_requests_for_offer(&who(1), "offer_10".to_string()).unwrap_err();
    assert_eq!(e, MarketError::NotOfferOwner);
    let e = m.get_requests_for_offer(&who(4), "offer_11".to_string()).unwrap_err();
    assert_eq!(e, MarketError::NotOfferOwner);
    assert_eq!(m.get_requests_for_offer(&who(4), "offer_10".to_string()).unwrap().len(), 1);

    let e = decide(&mut m, &who(4), "req_404", true, 13).unwrap_err();
    assert_eq!(e, MarketError::RequestNotFound);
    assert_eq!(e.kind(), ErrorKind::NotFound);
}

#[test]
fn only_an_admin_changes_roles_and_lists_users() {
    let mut m = market();
    let e = m.update_user_role(&who(1), &who(3), UserRole::Admin, 20).unwrap_err();
    assert_eq!(e, MarketError::AdminRequired);
    assert_eq!(e.kind(), ErrorKind::Forbidden);
    let e = m.update_user_role(&who(9), &who(3), UserRole::Admin, 20).unwrap_err();
    assert_eq!(e, MarketError::UserNotFound);
    let e = m.update_user_role(&who(4), &who(9), UserRole::Admin, 20).unwrap_err();
    assert_eq!(e, MarketError::TargetNotFound);
    assert_eq!(e.kind(), ErrorKind::NotFound);
    assert_eq!(m.get_current_user(&who(3)).unwrap().unwrap().updated_at, 3);

    let changed = m.update_user_role(&who(4), &who(3), UserRole::Farmer, 20).unwrap();
    assert_eq!(changed.role, UserRole::Farmer);
    assert_eq!(changed.updated_at, 20);
    assert_eq!(changed.created_at, 3);
    assert_eq!(changed.display_name, "imani");
    let stored = m.get_current_user(&who(3)).unwrap().unwrap();
    assert_eq!(stored.role, UserRole::Farmer);
    assert_eq!(stored.updated_at, 20);
    m.create_agricultural_offer(&who(3), offer_of(1, 1.0), 21).unwrap();

    assert_eq!(m.get_all_users(&who(1)).unwrap_err(), MarketError::AdminRequired);
    assert_eq!(m.get_all_users(&who(9)).unwrap_err(), MarketError::UserNotFound);
    let everyone = m.get_all_users(&who(4)).unwrap();
    assert_eq!(everyone.len(), 4);
    for (i, user) in everyone.iter().enumerate() {
        assert!(user.principal.same(&who(i as u8 + 1)));
    }
}

#[test]
fn users_come_shorter_principals_first() {
    let mut m = Marketplace::init().unwrap();
    let long = Identity::from_bytes(vec![1, 1, 1]).unwrap();
    let short = Identity::from_bytes(vec![9, 9]).unwrap();
    let admin = Identity::from_bytes(vec![5, 0, 0]).unwrap();
    register(&mut m, &long, UserRole::Guest, "long", 1);
    register(&mut m, &short, UserRole::Guest, "short", 2);
    register(&mut m, &admin, UserRole::Admin, "admin", 3);
    let everyone = m.get_all_users(&admin).unwrap();
    let names: Vec<&str> = everyone.iter().map(|u| u.display_name.as_str()).collect();
    assert_eq!(names, vec!["short", "long", "admin"]);
}

#[test]
fn listings_select_and_order_by_identifier() {
    let mut m = market();
    m.create_agricultural_offer(&who(1), offer_of(100, 5.0), 5).unwrap();
    m.create_agricultural_offer(&who(2), offer_of(50, 2.0), 10).unwrap();
    m.create_agricultural_offer(&who(1), offer_of(30, 1.0), 7).unwrap();
    let ids = |offers: Vec<harvestx_backend::records::InvestmentOffer>| -> Vec<String> {
        offers.into_iter().map(|o| o.id).collect()
    };
    assert_eq!(ids(m.get_available_offers()), vec!["offer_10", "offer_11", "offer_5"]);
    assert_eq!(ids(m.get_farmer_offers(&who(1)).unwrap()), vec!["offer_11", "offer_5"]);
    assert_eq!(ids(m.get_farmer_offers(&who(2)).unwrap()), vec!["offer_10"]);
    assert!(m.get_farmer_offers(&who(3)).unwrap().is_empty());

    ask(&mut m, &who(3), "offer_5", 100, 1.0, 20).unwrap();
    ask(&mut m, &who(4), "offer_5", 1, 1.0, 21).unwrap();
    ask(&mut m, &who(3), "offer_11", 2, 1.0, 22).unwrap();
    let rids = |requests: Vec<harvestx_backend::records::InvestmentRequest>| -> Vec<String> {
        requests.into_iter().map(|r| r.id).collect()
    };
    assert_eq!(
        rids(m.get_requests_for_offer(&who(1), "offer_5".to_string()).unwrap()),
        vec!["req_20", "req_21"]
    );
    assert_eq!(rids(m.get_investor_requests(&who(3)).unwrap()), vec!["req_20", "req_22"]);
    assert_eq!(rids(m.get_investor_requests(&who(4)).unwrap()), vec!["req_21"]);

    decide(&mut m, &who(1), "req_20", true, 30).unwrap();
    decide(&mut m, &who(1), "req_22", true, 31).unwrap();
    assert_eq!(ids(m.get_available_offers()), vec!["offer_10", "offer_11"]);
    let stats = m.get_platform_stats();
    assert_eq!(stats.total_offers, 3);
    assert_eq!(stats.active_offers, 2);
    assert_eq!(stats.total_requests, 3);
    assert_eq!(stats.total_transactions, 2);
    let tids = |list: Vec<harvestx_backend::records::Transaction>| -> Vec<String> {
        list.into_iter().map(|t| t.id).collect()
    };
    assert_eq!(tids(m.get_farmer_transactions(&who(1)).unwrap()), vec!["txn_30", "txn_31"]);
    assert_eq!(tids(m.get_investor_transactions(&who(3)).unwrap()), vec!["txn_30", "txn_31"]);
    assert!(m.get_investor_transactions(&who(4)).unwrap().is_empty());
    assert!(m.get_farmer_transactions(&who(2)).unwrap().is_empty());
}

#[test]
fn records_made_in_one_tick_get_different_identifiers() {
    let mut m = market();
    let first = m.create_agricultural_offer(&who(1), offer_of(100, 5.0), 5).unwrap();
    let second = m.create_agricultural_offer(&who(2), offer_of(7, 5.0), 5).unwrap();
    assert_eq!(first.id, "offer_5");
    assert_eq!(second.id, "offer_6");
    assert_eq!(m.get_platform_stats().total_offers, 2);
    let kept = m.get_offer_by_id(&"offer_5".to_string()).unwrap();
    assert_eq!(kept.total_quantity, 100);
    assert!(kept.farmer.same(&who(1)));
    let other = m.get_offer_by_id(&"offer_6".to_string()).unwrap();
    assert_eq!(other.total_quantity, 7);
    assert_eq!(other.created_at, 5);

    ask(&mut m, &who(3), "offer_5", 10, 1.0, 5).unwrap();
    ask(&mut m, &who(3), "offer_5", 20, 1.0, 5).unwrap();
    let asked = m.get_investor_requests(&who(3)).unwrap();
    assert_eq!(asked.len(), 2);
    assert_eq!((asked[0].id.as_str(), asked[0].requested_quantity), ("req_7", 10));
    assert_eq!((asked[1].id.as_str(), asked[1].requested_quantity), ("req_8", 20));
    decide(&mut m, &who(1), "req_7", true, 5).unwrap();
    decide(&mut m, &who(1), "req_8", true, 5).unwrap();
    let recorded = m.get_farmer_transactions(&who(1)).unwrap();
    assert_eq!(recorded.len(), 2);
    assert_eq!((recorded[0].id.as_str(), recorded[0].quantity), ("txn_10", 20));
    assert_eq!((recorded[1].id.as_str(), recorded[1].quantity), ("txn_9", 10));
    assert_eq!(m.get_platform_stats().total_transactions, 2);
}

#[test]
fn generate_id_never_gives_an_identifier_twice() {
    let mut m = market();
    assert_eq!(m.generate_id("offer", 100).unwrap(), "offer_100");
    assert_eq!(m.generate_id("offer", 100).unwrap(), "offer_101");
    assert_eq!(m.generate_id("req", 100).unwrap(), "req_102");
    assert_eq!(m.generate_id("offer", 50).unwrap(), "offer_103");
    assert_eq!(m.generate_id("offer", 500).unwrap(), "offer_500");
    assert_eq!(m.generate_id("", 7).unwrap(), "_501");
    assert_eq!(m.get_platform_stats().total_offers, 0);
}

#[test]
fn identifiers_of_all_kinds_share_the_serial() {
    let mut m = Marketplace::init().unwrap();
    register(&mut m, &who(3), UserRole::Admin, "imani", 1);
    let offer = m.create_agricultural_offer(&who(3), offer_of(9, 1.0), 30).unwrap();
    assert_eq!(offer.id, "offer_30");
    assert_eq!(m.generate_id("offer", 30).unwrap(), "offer_31");
    let made = ask(&mut m, &who(3), "offer_30", 1, 1.0, 2).unwrap();
    assert_eq!(made.id, "req_32");
    assert_eq!(made.created_at, 2);
    let decided = decide(&mut m, &who(3), "req_32", true, 1).unwrap();
    assert_eq!(decided.updated_at, 1);
    let recorded = m.get_investor_transactions(&who(3)).unwrap();
    assert_eq!(recorded[0].id, "txn_33");
    assert_eq!(recorded[0].created_at, 1);
}

#[test]
fn no_identifier_is_left_at_the_end_of_time() {
    let mut m = market();
    let e = m.create_agricultural_offer(&who(1), offer_of(1, 1.0), u64::MAX).unwrap_err();
    assert_eq!(e, MarketError::IdentifiersExhausted);
    assert_eq!(e.kind(), ErrorKind::Exhausted);
    assert_eq!(m.generate_id("offer", u64::MAX).unwrap_err(), MarketError::IdentifiersExhausted);
    assert_eq!(m.get_platform_stats().total_offers, 0);
    let last = m.create_agricultural_offer(&who(1), offer_of(1, 1.0), u64::MAX - 1).unwrap();
    assert_eq!(last.id, "offer_18446744073709551614");
    let e = m.create_agricultural_offer(&who(1), offer_of(1, 1.0), 3).unwrap_err();
    assert_eq!(e, MarketError::IdentifiersExhausted);
    assert_eq!(m.get_platform_stats().total_offers, 1);
}

#[test]
fn a_request_past_the_end_of_time_is_not_made() {
    let mut m = market();
    m.create_agricultural_offer(&who(1), offer_of(100, 5.0), 10).unwrap();
    let late = u64::MAX - 7 * 24 * 60 * 60 * 1_000_000_000 + 1;
    let request = |offer: &str, q: u64| CreateInvestmentRequest {
        offer_id: offer.to_string(),
        requested_quantity: q,
        offered_price_per_kg: money(1.0),
        message: String::new(),
    };
    let none = m.try_create_investment_request(&who(3), request("offer_10", 1), money(1.0), late);
    assert!(none.is_none());
    assert_eq!(m.get_platform_stats().total_requests, 0);
    let e = m
        .try_create_investment_request(&who(3), request("offer_10", 101), money(1.0), late)
        .unwrap()
        .unwrap_err();
    assert_eq!(e, MarketError::InvalidOffer);
    let e = m
        .try_create_investment_request(&who(1), request("offer_10", 1), money(1.0), late)
        .unwrap()
        .unwrap_err();
    assert_eq!(e, MarketError::InvestorRequired);
    let e = m.create_investment_request(&who(3), request("offer_9", 1), money(1.0), u64::MAX);
    assert_eq!(e.unwrap_err(), MarketError::InvalidOffer);
    let made = m
        .try_create_investment_request(&who(3), request("offer_10", 1), money(1.0), late - 1)
        .unwrap()
        .unwrap();
    assert_eq!(made.expires_at, u64::MAX);
    assert_eq!(made.id, format!("req_{}", late - 1));
}

#[test]
fn every_field_of_an_offer_is_stored() {
    let mut m = market();
    let request = CreateOfferRequest {
        product_name: "Café arábica ☕".to_string(),
        product_type: ProductType::Other("Coffee".to_string()),
        total_quantity: u64::MAX,
        price_per_kg: money(12.75),
        description: String::new(),
        harvest_date: "2025-11-30".to_string(),
        location: "Nyeri 高地".to_string(),
        quality_grade: QualityGrade::Certified("Fairtrade".to_string()),
        minimum_investment: 0,
    };
    m.create_agricultural_offer(&who(1), request, u64::MAX - 1).unwrap();
    assert!(m.get_offer_by_id(&"offer_1".to_string()).is_none());
    let o = m.get_offer_by_id(&"offer_18446744073709551614".to_string()).unwrap();
    assert_eq!(o.id, "offer_18446744073709551614");
    assert!(o.farmer.same(&who(1)));
    assert_eq!(o.product_name, "Café arábica ☕");
    assert!(matches!(&o.product_type, ProductType::Other(t) if t == "Coffee"));
    assert_eq!(o.total_quantity, u64::MAX);
    assert_eq!(o.available_quantity, u64::MAX);
    assert_eq!(amount(o.price_per_kg), 12.75);
    assert_eq!(o.description, "");
    assert_eq!(o.harvest_date, "2025-11-30");
    assert_eq!(o.location, "Nyeri 高地");
    assert!(matches!(&o.quality_grade, QualityGrade::Certified(t) if t == "Fairtrade"));
    assert_eq!(o.minimum_investment, 0);
    assert_eq!(o.status, OfferStatus::Active);
    assert_eq!(o.created_at, u64::MAX - 1);
    assert_eq!(o.updated_at, u64::MAX - 1);
}
