use harvestx_backend::api::{health_check, ApiResponse};
use harvestx_backend::codec::{
    decode_offer, decode_request, decode_transaction, decode_user, encode_offer, encode_request,
    encode_transaction, encode_user,
};
use harvestx_backend::errors::{ErrorKind, MarketError};
use harvestx_backend::ident::numbered_id;
use harvestx_backend::records::{InvestmentOffer, InvestmentRequest, Transaction, UserProfile};
use harvestx_backend::types::{
    Identity, Money, OfferStatus, ProductType, QualityGrade, RequestStatus, TransactionStatus,
    UserRole,
};
use harvestx_backend::wire::{put_bytes, put_text, put_u64, take_bytes, take_text, take_u64};

fn id(bytes: &[u8]) -> Identity {
    Identity::from_bytes(bytes.to_vec()).unwrap()
}

#[test]
fn numbered_id_joins_prefix_and_number() {
    assert_eq!(numbered_id("offer", 0), "offer_0");
    assert_eq!(numbered_id("req", 9), "req_9");
    assert_eq!(numbered_id("txn", 10), "txn_10");
    assert_eq!(numbered_id("offer", 1_700_000_000_123_456_789), "offer_1700000000123456789");
    assert_eq!(numbered_id("", u64::MAX), "_18446744073709551615");
    assert_eq!(numbered_id("a_b", 1020304050), "a_b_1020304050");
}

#[test]
fn health_check_says_healthy() {
    assert_eq!(health_check(), "HarvestX backend is healthy");
}

#[test]
fn api_response_success_carries_data() {
    let r = ApiResponse::success(7u64);
    assert!(r.success);
    assert_eq!(r.data, Some(7));
    assert_eq!(r.error, None);
}

#[test]
fn api_response_error_carries_text() {
    let r: ApiResponse<u64> = ApiResponse::error("no".to_string());
    assert!(!r.success);
    assert_eq!(r.data, None);
    assert_eq!(r.error, Some("no".to_string()));
}

#[test]
fn api_response_from_result() {
    let ok = ApiResponse::from_result(Ok::<u8, MarketError>(3));
    assert!(ok.success);
    assert_eq!(ok.data, Some(3));
    assert_eq!(ok.error, None);
    let err = ApiResponse::from_result(Err::<u8, MarketError>(MarketError::AlreadyProcessed));
    assert!(!err.success);
    assert_eq!(err.data, None);
    assert_eq!(err.error, Some("Request already processed".to_string()));
}

#[test]
fn every_error_has_its_text_and_kind() {
    let table = [
        (MarketError::Unauthenticated, "Authentication required", ErrorKind::Unauthenticated),
        (MarketError::UserNotFound, "User not found", ErrorKind::NotFound),
        (MarketError::TargetNotFound, "User not found", ErrorKind::NotFound),
        (MarketError::RequestNotFound, "Investment request not found", ErrorKind::NotFound),
        (MarketError::AlreadyRegistered, "User already registered", ErrorKind::AlreadyRegistered),
        (MarketError::AdminRequired, "Admin access required", ErrorKind::Forbidden),
        (MarketError::FarmerRequired, "Farmer role required", ErrorKind::Forbidden),
        (MarketError::InvestorRequired, "Investor role required", ErrorKind::Forbidden),
        (MarketError::NotOfferOwner, "Access denied - not offer owner", ErrorKind::Forbidden),
        (
            MarketError::InvalidOffer,
            "Invalid offer or insufficient quantity",
            ErrorKind::InvalidOffer,
        ),
        (MarketError::AlreadyProcessed, "Request already processed", ErrorKind::AlreadyProcessed),
        (MarketError::IdentifiersExhausted, "No identifier left", ErrorKind::Exhausted),
    ];
    for (error, text, kind) in table {
        assert_eq!(error.message(), text);
        assert_eq!(error.kind(), kind);
    }
}

#[test]
fn an_identity_has_at_most_29_bytes() {
    assert!(Identity::from_bytes(vec![0; 29]).is_some());
    assert!(Identity::from_bytes(vec![0; 30]).is_none());
    let empty = Identity::from_bytes(vec![]).unwrap();
    assert!(empty.as_bytes().is_empty());
    let a = id(&[1, 2, 3]);
    assert_eq!(a.as_bytes(), &vec![1, 2, 3]);
    assert!(a.same(&id(&[1, 2, 3])));
    assert!(a.clone().same(&a));
    assert!(!a.same(&id(&[1, 2, 4])));
    assert!(!a.same(&id(&[1, 2])));
    assert!(!a.same(&id(&[1, 2, 3, 0])));
}

#[test]
fn integers_are_eight_bytes_least_first() {
    let mut out = vec![0xAA];
    put_u64(&mut out, 0x0102030405060708);
    assert_eq!(out, vec![0xAA, 8, 7, 6, 5, 4, 3, 2, 1]);
    assert_eq!(take_u64(&out, 1), Some((0x0102030405060708, 9)));
    assert_eq!(take_u64(&out, 2), None);
    assert_eq!(take_u64(&out, 9), None);
}

#[test]
fn byte_strings_carry_their_length() {
    let mut out = Vec::new();
    put_bytes(&mut out, &vec![9, 8, 7]);
    assert_eq!(out, vec![3, 0, 0, 0, 0, 0, 0, 0, 9, 8, 7]);
    assert_eq!(take_bytes(&out, 0), Some((vec![9, 8, 7], 11)));
    out.pop();
    assert_eq!(take_bytes(&out, 0), None);
    let huge = vec![255u8; 8];
    assert_eq!(take_bytes(&huge, 0), None);
    let mut none = Vec::new();
    put_bytes(&mut none, &vec![]);
    assert_eq!(take_bytes(&none, 0), Some((vec![], 8)));
}

#[test]
fn text_is_utf8() {
    let mut out = Vec::new();
    put_text(&mut out, &"añ☕".to_string());
    assert_eq!(out, vec![6, 0, 0, 0, 0, 0, 0, 0, b'a', 0xC3, 0xB1, 0xE2, 0x98, 0x95]);
    assert_eq!(take_text(&out, 0), Some(("añ☕".to_string(), 14)));
    let broken = vec![1, 0, 0, 0, 0, 0, 0, 0, 0xFF];
    assert_eq!(take_text(&broken, 0), None);
    let cut = vec![2, 0, 0, 0, 0, 0, 0, 0, 0xC3];
    assert_eq!(take_text(&cut, 0), None);
}

fn sample_offer() -> InvestmentOffer {
    InvestmentOffer {
        id: "offer_1".to_string(),
        farmer: id(&[1, 2, 3]),
        product_name: "Maize".to_string(),
        product_type: ProductType::Other("Sorghum".to_string()),
        total_quantity: 100,
        available_quantity: 40,
        price_per_kg: Money { bits: 5.0f64.to_bits() },
        description: "dry".to_string(),
        harvest_date: "2025-09-01".to_string(),
        location: "Nakuru".to_string(),
        quality_grade: QualityGrade::Organic,
        minimum_investment: 10,
        status: OfferStatus::Cancelled,
        created_at: 1,
        updated_at: 2,
    }
}

#[test]
fn an_offer_is_read_back() {
    let bytes = encode_offer(&sample_offer());
    let o = decode_offer(&bytes).unwrap();
    assert_eq!(o.id, "offer_1");
    assert!(o.farmer.same(&id(&[1, 2, 3])));
    assert_eq!(o.product_name, "Maize");
    assert!(matches!(&o.product_type, ProductType::Other(t) if t == "Sorghum"));
    assert_eq!((o.total_quantity, o.available_quantity), (100, 40));
    assert_eq!(f64::from_bits(o.price_per_kg.bits), 5.0);
    assert_eq!(o.description, "dry");
    assert_eq!(o.harvest_date, "2025-09-01");
    assert_eq!(o.location, "Nakuru");
    assert!(matches!(o.quality_grade, QualityGrade::Organic));
    assert_eq!(o.minimum_investment, 10);
    assert_eq!(o.status, OfferStatus::Cancelled);
    assert_eq!((o.created_at, o.updated_at), (1, 2));
}

#[test]
fn bytes_that_are_not_one_record_are_refused() {
    let bytes = encode_offer(&sample_offer());
    assert!(decode_offer(&bytes[..bytes.len() - 1].to_vec()).is_none());
    let mut longer = bytes.clone();
    longer.push(0);
    assert!(decode_offer(&longer).is_none());
    assert!(decode_offer(&Vec::new()).is_none());
    assert!(decode_request(&bytes).is_none());
    assert!(decode_user(&bytes).is_none());
    let mut bad_status = bytes.clone();
    let at = bad_status.len() - 24;
    bad_status[at] = 4;
    assert!(decode_offer(&bad_status).is_none());
    bad_status[at] = 1;
    assert_eq!(decode_offer(&bad_status).unwrap().status, OfferStatus::Completed);
}

#[test]
fn every_product_type_and_grade_is_read_back() {
    let kinds = [
        ProductType::Grains,
        ProductType::Fruits,
        ProductType::Vegetables,
        ProductType::Nuts,
        ProductType::Herbs,
        ProductType::Legumes,
        ProductType::Other(String::new()),
    ];
    let grades = [
        QualityGrade::Premium,
        QualityGrade::Grade1,
        QualityGrade::Grade2,
        QualityGrade::Standard,
        QualityGrade::Organic,
        QualityGrade::Certified("EU".to_string()),
    ];
    for (i, kind) in kinds.iter().enumerate() {
        let mut offer = sample_offer();
        offer.product_type = kind.clone();
        offer.quality_grade = grades[i % grades.len()].clone();
        let back = decode_offer(&encode_offer(&offer)).unwrap();
        assert_eq!(format!("{:?}", back.product_type), format!("{:?}", kind));
        assert_eq!(
            format!("{:?}", back.quality_grade),
            format!("{:?}", grades[i % grades.len()])
        );
    }
}

#[test]
fn a_user_is_read_back() {
    for role in [UserRole::Admin, UserRole::Farmer, UserRole::Investor, UserRole::Guest] {
        let user = UserProfile {
            principal: id(&[7; 29]),
            role,
            display_name: "Wanjiru".to_string(),
            email: "w@example.org".to_string(),
            created_at: 11,
            updated_at: 12,
        };
        let u = decode_user(&encode_user(&user)).unwrap();
        assert!(u.principal.same(&id(&[7; 29])));
        assert_eq!(u.role, role);
        assert_eq!(u.display_name, "Wanjiru");
        assert_eq!(u.email, "w@example.org");
        assert_eq!((u.created_at, u.updated_at), (11, 12));
    }
}

#[test]
fn a_user_with_a_long_principal_is_refused() {
    let mut bytes = Vec::new();
    put_bytes(&mut bytes, &vec![1; 30]);
    put_u64(&mut bytes, 0);
    put_text(&mut bytes, &"n".to_string());
    put_text(&mut bytes, &"e".to_string());
    put_u64(&mut bytes, 1);
    put_u64(&mut bytes, 2);
    assert!(decode_user(&bytes).is_none());
    let mut fine = Vec::new();
    put_bytes(&mut fine, &vec![1; 29]);
    fine.extend_from_slice(&bytes[38..]);
    assert_eq!(decode_user(&fine).unwrap().role, UserRole::Admin);
}

#[test]
fn a_request_is_read_back() {
    let statuses = [
        RequestStatus::Pending,
        RequestStatus::Accepted,
        RequestStatus::Rejected,
        RequestStatus::Expired,
        RequestStatus::Cancelled,
    ];
    for status in statuses {
        let request = InvestmentRequest {
            id: "req_5".to_string(),
            offer_id: "offer_1".to_string(),
            investor: id(&[3]),
            requested_quantity: 60,
            offered_price_per_kg: Money { bits: 4.5f64.to_bits() },
            total_offered: Money { bits: 270.0f64.to_bits() },
            message: "hello".to_string(),
            status,
            created_at: 5,
            updated_at: 6,
            expires_at: 7,
        };
        let r = decode_request(&encode_request(&request)).unwrap();
        assert_eq!(r.id, "req_5");
        assert_eq!(r.offer_id, "offer_1");
        assert!(r.investor.same(&id(&[3])));
        assert_eq!(r.requested_quantity, 60);
        assert_eq!(f64::from_bits(r.offered_price_per_kg.bits), 4.5);
        assert_eq!(f64::from_bits(r.total_offered.bits), 270.0);
        assert_eq!(r.message, "hello");
        assert_eq!(r.status, status);
        assert_eq!((r.created_at, r.updated_at, r.expires_at), (5, 6, 7));
    }
}

#[test]
fn a_transaction_is_read_back() {
    let statuses =
        [TransactionStatus::Confirmed, TransactionStatus::Tokenized, TransactionStatus::Completed];
    for (status, tokenized_at) in statuses.into_iter().zip([None, Some(0), Some(u64::MAX)]) {
        let transaction = Transaction {
            id: "txn_9".to_string(),
            offer_id: "offer_1".to_string(),
            request_id: "req_5".to_string(),
            farmer: id(&[1]),
            investor: id(&[3]),
            quantity: 60,
            price_per_kg: Money { bits: 4.5f64.to_bits() },
            total_amount: Money { bits: 270.0f64.to_bits() },
            status,
            created_at: 9,
            updated_at: 10,
            tokenized_at,
        };
        let t = decode_transaction(&encode_transaction(&transaction)).unwrap();
        assert_eq!(t.id, "txn_9");
        assert_eq!(t.offer_id, "offer_1");
        assert_eq!(t.request_id, "req_5");
        assert!(t.farmer.same(&id(&[1])));
        assert!(t.investor.same(&id(&[3])));
        assert_eq!(t.quantity, 60);
        assert_eq!(f64::from_bits(t.price_per_kg.bits), 4.5);
        assert_eq!(f64::from_bits(t.total_amount.bits), 270.0);
        assert_eq!(t.status, status);
        assert_eq!((t.created_at, t.updated_at), (9, 10));
        assert_eq!(t.tokenized_at, tokenized_at);
    }
}
