//! The byte format of the four records.
//!
//! A record is written field by field, in the order of its declaration, and
//! is read back only from bytes that hold exactly one record.
use vstd::prelude::*;
use vstd::utf8::encode_utf8;
use crate::fields::{
    dec_identity, dec_offer_status, dec_opt_u64, dec_product_type, dec_quality_grade,
    dec_request_status, dec_role, dec_transaction_status, enc_identity, enc_offer_status,
    enc_opt_u64, enc_product_type, enc_quality_grade, enc_request_status, enc_role,
    enc_transaction_status, lemma_dec_identity, lemma_dec_offer_status, lemma_dec_opt_u64,
    lemma_dec_product_type, lemma_dec_quality_grade, lemma_dec_request_status, lemma_dec_role,
    lemma_dec_transaction_status, product_type_fits, put_identity, put_offer_status,
    put_opt_u64, put_product_type, put_quality_grade, put_request_status, put_role,
    put_transaction_status, quality_grade_fits, take_identity, take_offer_status, take_opt_u64,
    take_product_type, take_quality_grade, take_request_status, take_role,
    take_transaction_status,
};
use crate::records::{
    InvestmentOffer, InvestmentOfferView, InvestmentRequest, InvestmentRequestView, Transaction,
    TransactionView, UserProfile, UserProfileView,
};
use crate::types::{Money, MAX_IDENTITY_BYTES};
use crate::wire::{
    dec_text, dec_u64, enc_text, enc_u64, lemma_concat_assoc, lemma_dec_text, lemma_dec_u64,
    put_text, put_u64, take_text, take_u64,
};

verus! {

// ---------------------------------------------------------------- user

/// The bytes of a participant.
pub open spec fn enc_user(v: UserProfileView) -> Seq<u8> {
    enc_identity(v.principal)
        + (enc_role(v.role)
        + (enc_text(v.display_name)
        + (enc_text(v.email)
        + (enc_u64(v.created_at)
        + (enc_u64(v.updated_at)
        + Seq::<u8>::empty())))))
}

/// Whether every text of the record is short enough to be written and
/// every identity is a principal's.
pub open spec fn user_fits(v: UserProfileView) -> bool {
    &&& v.principal.len() <= MAX_IDENTITY_BYTES
    &&& encode_utf8(v.display_name).len() <= u64::MAX
    &&& encode_utf8(v.email).len() <= u64::MAX
}

/// The record that the bytes hold, if they hold exactly one.
pub open spec fn dec_user(s: Seq<u8>) -> Option<UserProfileView> {
    match dec_identity(s) {
        Some((principal, s1)) => match dec_role(s1) {
            Some((role, s2)) => match dec_text(s2) {
                Some((display_name, s3)) => match dec_text(s3) {
                    Some((email, s4)) => match dec_u64(s4) {
                        Some((created_at, s5)) => match dec_u64(s5) {
                            Some((updated_at, s6)) => if s6.len() == 0 {
                                Some(
                                    UserProfileView {
                                        principal,
                                        role,
                                        display_name,
                                        email,
                                        created_at,
                                        updated_at,
                                    },
                                )
                            } else {
                                None
                            },
                            None => None,
                        },
                        None => None,
                    },
                    None => None,
                },
                None => None,
            },
            None => None,
        },
        None => None,
    }
}

/// What was written is read back.
pub proof fn lemma_user_round_trip(v: UserProfileView)
    requires
        user_fits(v),
    ensures
        dec_user(enc_user(v)) == Some(v),
{
    let r6 = Seq::<u8>::empty();
    let r5 = enc_u64(v.updated_at) + r6;
    let r4 = enc_u64(v.created_at) + r5;
    let r3 = enc_text(v.email) + r4;
    let r2 = enc_text(v.display_name) + r3;
    let r1 = enc_role(v.role) + r2;
    lemma_dec_identity(v.principal, r1);
    lemma_dec_role(v.role, r2);
    lemma_dec_text(v.display_name, r3);
    lemma_dec_text(v.email, r4);
    lemma_dec_u64(v.created_at, r5);
    lemma_dec_u64(v.updated_at, r6);
}

/// Writes a participant.
pub fn encode_user(v: &UserProfile) -> (out: Vec<u8>)
    ensures
        out@ == enc_user(v@),
        user_fits(v@),
{
    let mut out: Vec<u8> = Vec::new();
    let ghost g0 = out@;
    put_identity(&mut out, &v.principal);
    let ghost g1 = out@;
    put_role(&mut out, v.role);
    let ghost g2 = out@;
    put_text(&mut out, &v.display_name);
    let ghost g3 = out@;
    put_text(&mut out, &v.email);
    let ghost g4 = out@;
    put_u64(&mut out, v.created_at);
    let ghost g5 = out@;
    put_u64(&mut out, v.updated_at);
    let ghost g6 = out@;
    let _ = v.principal.as_bytes();
    proof {
        // `out` grew from the left; the format nests to the right.
        let w = v@;
        let t6 = Seq::<u8>::empty();
        let t5 = enc_u64(w.updated_at) + t6;
        let t4 = enc_u64(w.created_at) + t5;
        let t3 = enc_text(w.email) + t4;
        let t2 = enc_text(w.display_name) + t3;
        let t1 = enc_role(w.role) + t2;
        let t0 = enc_identity(w.principal) + t1;
        assert(g6 + t6 =~= g6);
        lemma_concat_assoc(g5, enc_u64(w.updated_at), t6);
        lemma_concat_assoc(g4, enc_u64(w.created_at), t5);
        lemma_concat_assoc(g3, enc_text(w.email), t4);
        lemma_concat_assoc(g2, enc_text(w.display_name), t3);
        lemma_concat_assoc(g1, enc_role(w.role), t2);
        lemma_concat_assoc(g0, enc_identity(w.principal), t1);
        assert(g0 + t0 =~= t0);
    }
    out
}

/// Reads a participant.
pub fn decode_user(buf: &Vec<u8>) -> (r: Option<UserProfile>)
    ensures
        match dec_user(buf@) {
            Some(v) => r matches Some(got) && got@ == v,
            None => r is None,
        },
{
    assert(buf@.skip(0) =~= buf@);
    let (principal, p1) = take_identity(buf, 0)?;
    let (role, p2) = take_role(buf, p1)?;
    let (display_name, p3) = take_text(buf, p2)?;
    let (email, p4) = take_text(buf, p3)?;
    let (created_at, p5) = take_u64(buf, p4)?;
    let (updated_at, p6) = take_u64(buf, p5)?;
    if p6 != buf.len() {
        return None;
    }
    Some(UserProfile {
        principal,
        role,
        display_name,
        email,
        created_at,
        updated_at,
    })
}

// ---------------------------------------------------------------- offer

/// The bytes of an offer.
pub open spec fn enc_offer(v: InvestmentOfferView) -> Seq<u8> {
    enc_text(v.id)
        + (enc_identity(v.farmer)
        + (enc_text(v.product_name)
        + (enc_product_type(v.product_type)
        + (enc_u64(v.total_quantity)
        + (enc_u64(v.available_quantity)
        + (enc_u64(v.price_per_kg.bits)
        + (enc_text(v.description)
        + (enc_text(v.harvest_date)
        + (enc_text(v.location)
        + (enc_quality_grade(v.quality_grade)
        + (enc_u64(v.minimum_investment)
        + (enc_offer_status(v.status)
        + (enc_u64(v.created_at)
        + (enc_u64(v.updated_at)
        + Seq::<u8>::empty()))))))))))))))
}

/// Whether every text of the record is short enough to be written and
/// every identity is a principal's.
pub open spec fn offer_fits(v: InvestmentOfferView) -> bool {
    &&& encode_utf8(v.id).len() <= u64::MAX
    &&& v.farmer.len() <= MAX_IDENTITY_BYTES
    &&& encode_utf8(v.product_name).len() <= u64::MAX
    &&& product_type_fits(v.product_type)
    &&& encode_utf8(v.description).len() <= u64::MAX
    &&& encode_utf8(v.harvest_date).len() <= u64::MAX
    &&& encode_utf8(v.location).len() <= u64::MAX
    &&& quality_grade_fits(v.quality_grade)
}

/// The record that the bytes hold, if they hold exactly one.
pub open spec fn dec_offer(s: Seq<u8>) -> Option<InvestmentOfferView> {
    match dec_text(s) {
        Some((id, s1)) => match dec_identity(s1) {
            Some((farmer, s2)) => match dec_text(s2) {
                Some((product_name, s3)) => match dec_product_type(s3) {
                    Some((product_type, s4)) => match dec_u64(s4) {
                        Some((total_quantity, s5)) => match dec_u64(s5) {
                            Some((available_quantity, s6)) => match dec_u64(s6) {
                                Some((price_per_kg, s7)) => match dec_text(s7) {
                                    Some((description, s8)) => match dec_text(s8) {
                                        Some((harvest_date, s9)) => match dec_text(s9) {
                                            Some((location, s10)) => match dec_quality_grade(s10) {
                                                Some((quality_grade, s11)) => match dec_u64(s11) {
                                                    Some((minimum_investment, s12)) => match dec_offer_status(s12) {
                                                        Some((status, s13)) => match dec_u64(s13) {
                                                            Some((created_at, s14)) => match dec_u64(s14) {
                                                                Some((updated_at, s15)) => if s15.len() == 0 {
                                                                    Some(
                                                                        InvestmentOfferView {
                                                                            id,
                                                                            farmer,
                                                                            product_name,
                                                                            product_type,
                                                                            total_quantity,
                                                                            available_quantity,
                                                                            price_per_kg: Money { bits: price_per_kg },
                                                                            description,
                                                                            harvest_date,
                                                                            location,
                                                                            quality_grade,
                                                                            minimum_investment,
                                                                            status,
                                                                            created_at,
                                                                            updated_at,
                                                                        },
                                                                    )
                                                                } else {
                                                                    None
                                                                },
                                                                None => None,
                                                            },
                                                            None => None,
                                                        },
                                                        None => None,
                                                    },
                                                    None => None,
                                                },
                                                None => None,
                                            },
                                            None => None,
                                        },
                                        None => None,
                                    },
                                    None => None,
                                },
                                None => None,
                            },
                            None => None,
                        },
                        None => None,
                    },
                    None => None,
                },
                None => None,
            },
            None => None,
        },
        None => None,
    }
}

/// What was written is read back.
pub proof fn lemma_offer_round_trip(v: InvestmentOfferView)
    requires
        offer_fits(v),
    ensures
        dec_offer(enc_offer(v)) == Some(v),
{
    let r15 = Seq::<u8>::empty();
    let r14 = enc_u64(v.updated_at) + r15;
    let r13 = enc_u64(v.created_at) + r14;
    let r12 = enc_offer_status(v.status) + r13;
    let r11 = enc_u64(v.minimum_investment) + r12;
    let r10 = enc_quality_grade(v.quality_grade) + r11;
    let r9 = enc_text(v.location) + r10;
    let r8 = enc_text(v.harvest_date) + r9;
    let r7 = enc_text(v.description) + r8;
    let r6 = enc_u64(v.price_per_kg.bits) + r7;
    let r5 = enc_u64(v.available_quantity) + r6;
    let r4 = enc_u64(v.total_quantity) + r5;
    let r3 = enc_product_type(v.product_type) + r4;
    let r2 = enc_text(v.product_name) + r3;
    let r1 = enc_identity(v.farmer) + r2;
    lemma_dec_text(v.id, r1);
    lemma_dec_identity(v.farmer, r2);
    lemma_dec_text(v.product_name, r3);
    lemma_dec_product_type(v.product_type, r4);
    lemma_dec_u64(v.total_quantity, r5);
    lemma_dec_u64(v.available_quantity, r6);
    lemma_dec_u64(v.price_per_kg.bits, r7);
    lemma_dec_text(v.description, r8);
    lemma_dec_text(v.harvest_date, r9);
    lemma_dec_text(v.location, r10);
    lemma_dec_quality_grade(v.quality_grade, r11);
    lemma_dec_u64(v.minimum_investment, r12);
    lemma_dec_offer_status(v.status, r13);
    lemma_dec_u64(v.created_at, r14);
    lemma_dec_u64(v.updated_at, r15);
}

/// Writes an offer.
pub fn encode_offer(v: &InvestmentOffer) -> (out: Vec<u8>)
    ensures
        out@ == enc_offer(v@),
        offer_fits(v@),
{
    let mut out: Vec<u8> = Vec::new();
    let ghost g0 = out@;
    put_text(&mut out, &v.id);
    let ghost g1 = out@;
    put_identity(&mut out, &v.farmer);
    let ghost g2 = out@;
    put_text(&mut out, &v.product_name);
    let ghost g3 = out@;
    put_product_type(&mut out, &v.product_type);
    let ghost g4 = out@;
    put_u64(&mut out, v.total_quantity);
    let ghost g5 = out@;
    put_u64(&mut out, v.available_quantity);
    let ghost g6 = out@;
    put_u64(&mut out, v.price_per_kg.bits);
    let ghost g7 = out@;
    put_text(&mut out, &v.description);
    let ghost g8 = out@;
    put_text(&mut out, &v.harvest_date);
    let ghost g9 = out@;
    put_text(&mut out, &v.location);
    let ghost g10 = out@;
    put_quality_grade(&mut out, &v.quality_grade);
    let ghost g11 = out@;
    put_u64(&mut out, v.minimum_investment);
    let ghost g12 = out@;
    put_offer_status(&mut out, v.status);
    let ghost g13 = out@;
    put_u64(&mut out, v.created_at);
    let ghost g14 = out@;
    put_u64(&mut out, v.updated_at);
    let ghost g15 = out@;
    let _ = v.farmer.as_bytes();
    proof {
        // `out` grew from the left; the format nests to the right.
        let w = v@;
        let t15 = Seq::<u8>::empty();
        let t14 = enc_u64(w.updated_at) + t15;
        let t13 = enc_u64(w.created_at) + t14;
        let t12 = enc_offer_status(w.status) + t13;
        let t11 = enc_u64(w.minimum_investment) + t12;
        let t10 = enc_quality_grade(w.quality_grade) + t11;
        let t9 = enc_text(w.location) + t10;
        let t8 = enc_text(w.harvest_date) + t9;
        let t7 = enc_text(w.description) + t8;
        let t6 = enc_u64(w.price_per_kg.bits) + t7;
        let t5 = enc_u64(w.available_quantity) + t6;
        let t4 = enc_u64(w.total_quantity) + t5;
        let t3 = enc_product_type(w.product_type) + t4;
        let t2 = enc_text(w.product_name) + t3;
        let t1 = enc_identity(w.farmer) + t2;
        let t0 = enc_text(w.id) + t1;
        assert(g15 + t15 =~= g15);
        lemma_concat_assoc(g14, enc_u64(w.updated_at), t15);
        lemma_concat_assoc(g13, enc_u64(w.created_at), t14);
        lemma_concat_assoc(g12, enc_offer_status(w.status), t13);
        lemma_concat_assoc(g11, enc_u64(w.minimum_investment), t12);
        lemma_concat_assoc(g10, enc_quality_grade(w.quality_grade), t11);
        lemma_concat_assoc(g9, enc_text(w.location), t10);
        lemma_concat_assoc(g8, enc_text(w.harvest_date), t9);
        lemma_concat_assoc(g7, enc_text(w.description), t8);
        lemma_concat_assoc(g6, enc_u64(w.price_per_kg.bits), t7);
        lemma_concat_assoc(g5, enc_u64(w.available_quantity), t6);
        lemma_concat_assoc(g4, enc_u64(w.total_quantity), t5);
        lemma_concat_assoc(g3, enc_product_type(w.product_type), t4);
        lemma_concat_assoc(g2, enc_text(w.product_name), t3);
        lemma_concat_assoc(g1, enc_identity(w.farmer), t2);
        lemma_concat_assoc(g0, enc_text(w.id), t1);
        assert(g0 + t0 =~= t0);
    }
    out
}

/// Reads an offer.
pub fn decode_offer(buf: &Vec<u8>) -> (r: Option<InvestmentOffer>)
    ensures
        match dec_offer(buf@) {
            Some(v) => r matches Some(got) && got@ == v,
            None => r is None,
        },
{
    assert(buf@.skip(0) =~= buf@);
    let (id, p1) = take_text(buf, 0)?;
    let (farmer, p2) = take_identity(buf, p1)?;
    let (product_name, p3) = take_text(buf, p2)?;
    let (product_type, p4) = take_product_type(buf, p3)?;
    let (total_quantity, p5) = take_u64(buf, p4)?;
    let (available_quantity, p6) = take_u64(buf, p5)?;
    let (price_per_kg, p7) = take_u64(buf, p6)?;
    let (description, p8) = take_text(buf, p7)?;
    let (harvest_date, p9) = take_text(buf, p8)?;
    let (location, p10) = take_text(buf, p9)?;
    let (quality_grade, p11) = take_quality_grade(buf, p10)?;
    let (minimum_investment, p12) = take_u64(buf, p11)?;
    let (status, p13) = take_offer_status(buf, p12)?;
    let (created_at, p14) = take_u64(buf, p13)?;
    let (updated_at, p15) = take_u64(buf, p14)?;
    if p15 != buf.len() {
        return None;
    }
    Some(InvestmentOffer {
        id,
        farmer,
        product_name,
        product_type,
        total_quantity,
        available_quantity,
        price_per_kg: Money { bits: price_per_kg },
        description,
        harvest_date,
        location,
        quality_grade,
        minimum_investment,
        status,
        created_at,
        updated_at,
    })
}

// ---------------------------------------------------------------- request

/// The bytes of a request.
pub open spec fn enc_request(v: InvestmentRequestView) -> Seq<u8> {
    enc_text(v.id)
        + (enc_text(v.offer_id)
        + (enc_identity(v.investor)
        + (enc_u64(v.requested_quantity)
        + (enc_u64(v.offered_price_per_kg.bits)
        + (enc_u64(v.total_offered.bits)
        + (enc_text(v.message)
        + (enc_request_status(v.status)
        + (enc_u64(v.created_at)
        + (enc_u64(v.updated_at)
        + (enc_u64(v.expires_at)
        + Seq::<u8>::empty()))))))))))
}

/// Whether every text of the record is short enough to be written and
/// every identity is a principal's.
pub open spec fn request_fits(v: InvestmentRequestView) -> bool {
    &&& encode_utf8(v.id).len() <= u64::MAX
    &&& encode_utf8(v.offer_id).len() <= u64::MAX
    &&& v.investor.len() <= MAX_IDENTITY_BYTES
    &&& encode_utf8(v.message).len() <= u64::MAX
}

/// The record that the bytes hold, if they hold exactly one.
pub open spec fn dec_request(s: Seq<u8>) -> Option<InvestmentRequestView> {
    match dec_text(s) {
        Some((id, s1)) => match dec_text(s1) {
            Some((offer_id, s2)) => match dec_identity(s2) {
                Some((investor, s3)) => match dec_u64(s3) {
                    Some((requested_quantity, s4)) => match dec_u64(s4) {
                        Some((offered_price_per_kg, s5)) => match dec_u64(s5) {
                            Some((total_offered, s6)) => match dec_text(s6) {
                                Some((message, s7)) => match dec_request_status(s7) {
                                    Some((status, s8)) => match dec_u64(s8) {
                                        Some((created_at, s9)) => match dec_u64(s9) {
                                            Some((updated_at, s10)) => match dec_u64(s10) {
                                                Some((expires_at, s11)) => if s11.len() == 0 {
                                                    Some(
                                                        InvestmentRequestView {
                                                            id,
                                                            offer_id,
                                                            investor,
                                                            requested_quantity,
                                                            offered_price_per_kg: Money { bits: offered_price_per_kg },
                                                            total_offered: Money { bits: total_offered },
                                                            message,
                                                            status,
                                                            created_at,
                                                            updated_at,
                                                            expires_at,
                                                        },
                                                    )
                                                } else {
                                                    None
                                                },
                                                None => None,
                                            },
                                            None => None,
                                        },
                                        None => None,
                                    },
                                    None => None,
                                },
                                None => None,
                            },
                            None => None,
                        },
                        None => None,
                    },
                    None => None,
                },
                None => None,
            },
            None => None,
        },
        None => None,
    }
}

/// What was written is read back.
pub proof fn lemma_request_round_trip(v: InvestmentRequestView)
    requires
        request_fits(v),
    ensures
        dec_request(enc_request(v)) == Some(v),
{
    let r11 = Seq::<u8>::empty();
    let r10 = enc_u64(v.expires_at) + r11;
    let r9 = enc_u64(v.updated_at) + r10;
    let r8 = enc_u64(v.created_at) + r9;
    let r7 = enc_request_status(v.status) + r8;
    let r6 = enc_text(v.message) + r7;
    let r5 = enc_u64(v.total_offered.bits) + r6;
    let r4 = enc_u64(v.offered_price_per_kg.bits) + r5;
    let r3 = enc_u64(v.requested_quantity) + r4;
    let r2 = enc_identity(v.investor) + r3;
    let r1 = enc_text(v.offer_id) + r2;
    lemma_dec_text(v.id, r1);
    lemma_dec_text(v.offer_id, r2);
    lemma_dec_identity(v.investor, r3);
    lemma_dec_u64(v.requested_quantity, r4);
    lemma_dec_u64(v.offered_price_per_kg.bits, r5);
    lemma_dec_u64(v.total_offered.bits, r6);
    lemma_dec_text(v.message, r7);
    lemma_dec_request_status(v.status, r8);
    lemma_dec_u64(v.created_at, r9);
    lemma_dec_u64(v.updated_at, r10);
    lemma_dec_u64(v.expires_at, r11);
}

/// Writes a request.
pub fn encode_request(v: &InvestmentRequest) -> (out: Vec<u8>)
    ensures
        out@ == enc_request(v@),
        request_fits(v@),
{
    let mut out: Vec<u8> = Vec::new();
    let ghost g0 = out@;
    put_text(&mut out, &v.id);
    let ghost g1 = out@;
    put_text(&mut out, &v.offer_id);
    let ghost g2 = out@;
    put_identity(&mut out, &v.investor);
    let ghost g3 = out@;
    put_u64(&mut out, v.requested_quantity);
    let ghost g4 = out@;
    put_u64(&mut out, v.offered_price_per_kg.bits);
    let ghost g5 = out@;
    put_u64(&mut out, v.total_offered.bits);
    let ghost g6 = out@;
    put_text(&mut out, &v.message);
    let ghost g7 = out@;
    put_request_status(&mut out, v.status);
    let ghost g8 = out@;
    put_u64(&mut out, v.created_at);
    let ghost g9 = out@;
    put_u64(&mut out, v.updated_at);
    let ghost g10 = out@;
    put_u64(&mut out, v.expires_at);
    let ghost g11 = out@;
    let _ = v.investor.as_bytes();
    proof {
        // `out` grew from the left; the format nests to the right.
        let w = v@;
        let t11 = Seq::<u8>::empty();
        let t10 = enc_u64(w.expires_at) + t11;
        let t9 = enc_u64(w.updated_at) + t10;
        let t8 = enc_u64(w.created_at) + t9;
        let t7 = enc_request_status(w.status) + t8;
        let t6 = enc_text(w.message) + t7;
        let t5 = enc_u64(w.total_offered.bits) + t6;
        let t4 = enc_u64(w.offered_price_per_kg.bits) + t5;
        let t3 = enc_u64(w.requested_quantity) + t4;
        let t2 = enc_identity(w.investor) + t3;
        let t1 = enc_text(w.offer_id) + t2;
        let t0 = enc_text(w.id) + t1;
        assert(g11 + t11 =~= g11);
        lemma_concat_assoc(g10, enc_u64(w.expires_at), t11);
        lemma_concat_assoc(g9, enc_u64(w.updated_at), t10);
        lemma_concat_assoc(g8, enc_u64(w.created_at), t9);
        lemma_concat_assoc(g7, enc_request_status(w.status), t8);
        lemma_concat_assoc(g6, enc_text(w.message), t7);
        lemma_concat_assoc(g5, enc_u64(w.total_offered.bits), t6);
        lemma_concat_assoc(g4, enc_u64(w.offered_price_per_kg.bits), t5);
        lemma_concat_assoc(g3, enc_u64(w.requested_quantity), t4);
        lemma_concat_assoc(g2, enc_identity(w.investor), t3);
        lemma_concat_assoc(g1, enc_text(w.offer_id), t2);
        lemma_concat_assoc(g0, enc_text(w.id), t1);
        assert(g0 + t0 =~= t0);
    }
    out
}

/// Reads a request.
pub fn decode_request(buf: &Vec<u8>) -> (r: Option<InvestmentRequest>)
    ensures
        match dec_request(buf@) {
            Some(v) => r matches Some(got) && got@ == v,
            None => r is None,
        },
{
    assert(buf@.skip(0) =~= buf@);
    let (id, p1) = take_text(buf, 0)?;
    let (offer_id, p2) = take_text(buf, p1)?;
    let (investor, p3) = take_identity(buf, p2)?;
    let (requested_quantity, p4) = take_u64(buf, p3)?;
    let (offered_price_per_kg, p5) = take_u64(buf, p4)?;
    let (total_offered, p6) = take_u64(buf, p5)?;
    let (message, p7) = take_text(buf, p6)?;
    let (status, p8) = take_request_status(buf, p7)?;
    let (created_at, p9) = take_u64(buf, p8)?;
    let (updated_at, p10) = take_u64(buf, p9)?;
    let (expires_at, p11) = take_u64(buf, p10)?;
    if p11 != buf.len() {
        return None;
    }
    Some(InvestmentRequest {
        id,
        offer_id,
        investor,
        requested_quantity,
        offered_price_per_kg: Money { bits: offered_price_per_kg },
        total_offered: Money { bits: total_offered },
        message,
        status,
        created_at,
        updated_at,
        expires_at,
    })
}

// ---------------------------------------------------------------- transaction

/// The bytes of a transaction.
pub open spec fn enc_transaction(v: TransactionView) -> Seq<u8> {
    enc_text(v.id)
        + (enc_text(v.offer_id)
        + (enc_text(v.request_id)
        + (enc_identity(v.farmer)
        + (enc_identity(v.investor)
        + (enc_u64(v.quantity)
        + (enc_u64(v.price_per_kg.bits)
        + (enc_u64(v.total_amount.bits)
        + (enc_transaction_status(v.status)
        + (enc_u64(v.created_at)
        + (enc_u64(v.updated_at)
        + (enc_opt_u64(v.tokenized_at)
        + Seq::<u8>::empty())))))))))))
}

/// Whether every text of the record is short enough to be written and
/// every identity is a principal's.
pub open spec fn transaction_fits(v: TransactionView) -> bool {
    &&& encode_utf8(v.id).len() <= u64::MAX
    &&& encode_utf8(v.offer_id).len() <= u64::MAX
    &&& encode_utf8(v.request_id).len() <= u64::MAX
    &&& v.farmer.len() <= MAX_IDENTITY_BYTES
    &&& v.investor.len() <= MAX_IDENTITY_BYTES
}

/// The record that the bytes hold, if they hold exactly one.
pub open spec fn dec_transaction(s: Seq<u8>) -> Option<TransactionView> {
    match dec_text(s) {
        Some((id, s1)) => match dec_text(s1) {
            Some((offer_id, s2)) => match dec_text(s2) {
                Some((request_id, s3)) => match dec_identity(s3) {
                    Some((farmer, s4)) => match dec_identity(s4) {
                        Some((investor, s5)) => match dec_u64(s5) {
                            Some((quantity, s6)) => match dec_u64(s6) {
                                Some((price_per_kg, s7)) => match dec_u64(s7) {
                                    Some((total_amount, s8)) => match dec_transaction_status(s8) {
                                        Some((status, s9)) => match dec_u64(s9) {
                                            Some((created_at, s10)) => match dec_u64(s10) {
                                                Some((updated_at, s11)) => match dec_opt_u64(s11) {
                                                    Some((tokenized_at, s12)) => if s12.len() == 0 {
                                                        Some(
                                                            TransactionView {
                                                                id,
                                                                offer_id,
                                                                request_id,
                                                                farmer,
                                                                investor,
                                                                quantity,
                                                                price_per_kg: Money { bits: price_per_kg },
                                                                total_amount: Money { bits: total_amount },
                                                                status,
                                                                created_at,
                                                                updated_at,
                                                                tokenized_at,
                                                            },
                                                        )
                                                    } else {
                                                        None
                                                    },
                                                    None => None,
                                                },
                                                None => None,
                                            },
                                            None => None,
                                        },
                                        None => None,
                                    },
                                    None => None,
                                },
                                None => None,
                            },
                            None => None,
                        },
                        None => None,
                    },
                    None => None,
                },
                None => None,
            },
            None => None,
        },
        None => None,
    }
}

/// What was written is read back.
pub proof fn lemma_transaction_round_trip(v: TransactionView)
    requires
        transaction_fits(v),
    ensures
        dec_transaction(enc_transaction(v)) == Some(v),
{
    let r12 = Seq::<u8>::empty();
    let r11 = enc_opt_u64(v.tokenized_at) + r12;
    let r10 = enc_u64(v.updated_at) + r11;
    let r9 = enc_u64(v.created_at) + r10;
    let r8 = enc_transaction_status(v.status) + r9;
    let r7 = enc_u64(v.total_amount.bits) + r8;
    let r6 = enc_u64(v.price_per_kg.bits) + r7;
    let r5 = enc_u64(v.quantity) + r6;
    let r4 = enc_identity(v.investor) + r5;
    let r3 = enc_identity(v.farmer) + r4;
    let r2 = enc_text(v.request_id) + r3;
    let r1 = enc_text(v.offer_id) + r2;
    lemma_dec_text(v.id, r1);
    lemma_dec_text(v.offer_id, r2);
    lemma_dec_text(v.request_id, r3);
    lemma_dec_identity(v.farmer, r4);
    lemma_dec_identity(v.investor, r5);
    lemma_dec_u64(v.quantity, r6);
    lemma_dec_u64(v.price_per_kg.bits, r7);
    lemma_dec_u64(v.total_amount.bits, r8);
    lemma_dec_transaction_status(v.status, r9);
    lemma_dec_u64(v.created_at, r10);
    lemma_dec_u64(v.updated_at, r11);
    lemma_dec_opt_u64(v.tokenized_at, r12);
}

/// Writes a transaction.
pub fn encode_transaction(v: &Transaction) -> (out: Vec<u8>)
    ensures
        out@ == enc_transaction(v@),
        transaction_fits(v@),
{
    let mut out: Vec<u8> = Vec::new();
    let ghost g0 = out@;
    put_text(&mut out, &v.id);
    let ghost g1 = out@;
    put_text(&mut out, &v.offer_id);
    let ghost g2 = out@;
    put_text(&mut out, &v.request_id);
    let ghost g3 = out@;
    put_identity(&mut out, &v.farmer);
    let ghost g4 = out@;
    put_identity(&mut out, &v.investor);
    let ghost g5 = out@;
    put_u64(&mut out, v.quantity);
    let ghost g6 = out@;
    put_u64(&mut out, v.price_per_kg.bits);
    let ghost g7 = out@;
    put_u64(&mut out, v.total_amount.bits);
    let ghost g8 = out@;
    put_transaction_status(&mut out, v.status);
    let ghost g9 = out@;
    put_u64(&mut out, v.created_at);
    let ghost g10 = out@;
    put_u64(&mut out, v.updated_at);
    let ghost g11 = out@;
    put_opt_u64(&mut out, v.tokenized_at);
    let ghost g12 = out@;
    let _ = v.farmer.as_bytes();
    let _ = v.investor.as_bytes();
    proof {
        // `out` grew from the left; the format nests to the right.
        let w = v@;
        let t12 = Seq::<u8>::empty();
        let t11 = enc_opt_u64(w.tokenized_at) + t12;
        let t10 = enc_u64(w.updated_at) + t11;
        let t9 = enc_u64(w.created_at) + t10;
        let t8 = enc_transaction_status(w.status) + t9;
        let t7 = enc_u64(w.total_amount.bits) + t8;
        let t6 = enc_u64(w.price_per_kg.bits) + t7;
        let t5 = enc_u64(w.quantity) + t6;
        let t4 = enc_identity(w.investor) + t5;
        let t3 = enc_identity(w.farmer) + t4;
        let t2 = enc_text(w.request_id) + t3;
        let t1 = enc_text(w.offer_id) + t2;
        let t0 = enc_text(w.id) + t1;
        assert(g12 + t12 =~= g12);
        lemma_concat_assoc(g11, enc_opt_u64(w.tokenized_at), t12);
        lemma_concat_assoc(g10, enc_u64(w.updated_at), t11);
        lemma_concat_assoc(g9, enc_u64(w.created_at), t10);
        lemma_concat_assoc(g8, enc_transaction_status(w.status), t9);
        lemma_concat_assoc(g7, enc_u64(w.total_amount.bits), t8);
        lemma_concat_assoc(g6, enc_u64(w.price_per_kg.bits), t7);
        lemma_concat_assoc(g5, enc_u64(w.quantity), t6);
        lemma_concat_assoc(g4, enc_identity(w.investor), t5);
        lemma_concat_assoc(g3, enc_identity(w.farmer), t4);
        lemma_concat_assoc(g2, enc_text(w.request_id), t3);
        lemma_concat_assoc(g1, enc_text(w.offer_id), t2);
        lemma_concat_assoc(g0, enc_text(w.id), t1);
        assert(g0 + t0 =~= t0);
    }
    out
}

/// Reads a transaction.
pub fn decode_transaction(buf: &Vec<u8>) -> (r: Option<Transaction>)
    ensures
        match dec_transaction(buf@) {
            Some(v) => r matches Some(got) && got@ == v,
            None => r is None,
        },
{
    assert(buf@.skip(0) =~= buf@);
    let (id, p1) = take_text(buf, 0)?;
    let (offer_id, p2) = take_text(buf, p1)?;
    let (request_id, p3) = take_text(buf, p2)?;
    let (farmer, p4) = take_identity(buf, p3)?;
    let (investor, p5) = take_identity(buf, p4)?;
    let (quantity, p6) = take_u64(buf, p5)?;
    let (price_per_kg, p7) = take_u64(buf, p6)?;
    let (total_amount, p8) = take_u64(buf, p7)?;
    let (status, p9) = take_transaction_status(buf, p8)?;
    let (created_at, p10) = take_u64(buf, p9)?;
    let (updated_at, p11) = take_u64(buf, p10)?;
    let (tokenized_at, p12) = take_opt_u64(buf, p11)?;
    if p12 != buf.len() {
        return None;
    }
    Some(Transaction {
        id,
        offer_id,
        request_id,
        farmer,
        investor,
        quantity,
        price_per_kg: Money { bits: price_per_kg },
        total_amount: Money { bits: total_amount },
        status,
        created_at,
        updated_at,
        tokenized_at,
    })
}

} // verus!
