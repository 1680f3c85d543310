//! The byte format of the enumerations, identities and optional integers
//! that the records hold.
use vstd::prelude::*;
use crate::types::{
    Identity, OfferStatus, ProductType, ProductTypeView, QualityGrade, QualityGradeView,
    RequestStatus, TransactionStatus, UserRole, MAX_IDENTITY_BYTES,
};
use crate::wire::{
    dec_bytes, dec_text, dec_u64, enc_bytes, enc_text, enc_u64, lemma_concat_assoc,
    lemma_dec_bytes, lemma_dec_text, lemma_dec_u64, put_bytes, put_text, put_u64, take_bytes,
    take_text, take_u64,
};
use vstd::utf8::encode_utf8;

verus! {

// ---------------------------------------------------------------- identity

pub open spec fn enc_identity(i: Seq<u8>) -> Seq<u8> {
    enc_bytes(i)
}

pub open spec fn dec_identity(s: Seq<u8>) -> Option<(Seq<u8>, Seq<u8>)> {
    match dec_bytes(s) {
        Some((b, rest)) => if b.len() <= MAX_IDENTITY_BYTES {
            Some((b, rest))
        } else {
            None
        },
        None => None,
    }
}

pub proof fn lemma_dec_identity(i: Seq<u8>, rest: Seq<u8>)
    requires
        i.len() <= MAX_IDENTITY_BYTES,
    ensures
        dec_identity(enc_identity(i) + rest) == Some((i, rest)),
{
    lemma_dec_bytes(i, rest);
}

pub fn put_identity(out: &mut Vec<u8>, i: &Identity)
    ensures
        final(out)@ == old(out)@ + enc_identity(i@),
{
    put_bytes(out, i.as_bytes());
}

pub fn take_identity(buf: &Vec<u8>, pos: usize) -> (r: Option<(Identity, usize)>)
    requires
        pos <= buf@.len(),
    ensures
        match dec_identity(buf@.skip(pos as int)) {
            Some((i, rest)) => r matches Some((got, end)) && got@ == i && pos <= end <= buf@.len()
                && rest == buf@.skip(end as int),
            None => r is None,
        },
{
    let (b, p) = take_bytes(buf, pos)?;
    match Identity::from_bytes(b) {
        Some(i) => Some((i, p)),
        None => None,
    }
}

// ---------------------------------------------------------------- role

pub open spec fn role_code(r: UserRole) -> u64 {
    match r {
        UserRole::Admin => 0,
        UserRole::Farmer => 1,
        UserRole::Investor => 2,
        UserRole::Guest => 3,
    }
}

pub open spec fn role_of(c: u64) -> Option<UserRole> {
    if c == 0 {
        Some(UserRole::Admin)
    } else if c == 1 {
        Some(UserRole::Farmer)
    } else if c == 2 {
        Some(UserRole::Investor)
    } else if c == 3 {
        Some(UserRole::Guest)
    } else {
        None
    }
}

pub open spec fn enc_role(r: UserRole) -> Seq<u8> {
    enc_u64(role_code(r))
}

pub open spec fn dec_role(s: Seq<u8>) -> Option<(UserRole, Seq<u8>)> {
    match dec_u64(s) {
        Some((c, rest)) => match role_of(c) {
            Some(r) => Some((r, rest)),
            None => None,
        },
        None => None,
    }
}

pub proof fn lemma_dec_role(r: UserRole, rest: Seq<u8>)
    ensures
        dec_role(enc_role(r) + rest) == Some((r, rest)),
{
    lemma_dec_u64(role_code(r), rest);
}

pub fn put_role(out: &mut Vec<u8>, r: UserRole)
    ensures
        final(out)@ == old(out)@ + enc_role(r),
{
    let c: u64 = match r {
        UserRole::Admin => 0,
        UserRole::Farmer => 1,
        UserRole::Investor => 2,
        UserRole::Guest => 3,
    };
    put_u64(out, c);
}

pub fn take_role(buf: &Vec<u8>, pos: usize) -> (r: Option<(UserRole, usize)>)
    requires
        pos <= buf@.len(),
    ensures
        match dec_role(buf@.skip(pos as int)) {
            Some((v, rest)) => r matches Some((got, end)) && got == v && pos <= end <= buf@.len()
                && rest == buf@.skip(end as int),
            None => r is None,
        },
{
    let (c, p) = take_u64(buf, pos)?;
    if c == 0 {
        Some((UserRole::Admin, p))
    } else if c == 1 {
        Some((UserRole::Farmer, p))
    } else if c == 2 {
        Some((UserRole::Investor, p))
    } else if c == 3 {
        Some((UserRole::Guest, p))
    } else {
        None
    }
}

// ---------------------------------------------------------------- offer status

pub open spec fn offer_status_code(v: OfferStatus) -> u64 {
    match v {
        OfferStatus::Active => 0,
        OfferStatus::Completed => 1,
        OfferStatus::Cancelled => 2,
        OfferStatus::Expired => 3,
    }
}

pub open spec fn offer_status_of(c: u64) -> Option<OfferStatus> {
    if c == 0 {
        Some(OfferStatus::Active)
    } else if c == 1 {
        Some(OfferStatus::Completed)
    } else if c == 2 {
        Some(OfferStatus::Cancelled)
    } else if c == 3 {
        Some(OfferStatus::Expired)
    } else {
        None
    }
}

pub open spec fn enc_offer_status(v: OfferStatus) -> Seq<u8> {
    enc_u64(offer_status_code(v))
}

pub open spec fn dec_offer_status(s: Seq<u8>) -> Option<(OfferStatus, Seq<u8>)> {
    match dec_u64(s) {
        Some((c, rest)) => match offer_status_of(c) {
            Some(v) => Some((v, rest)),
            None => None,
        },
        None => None,
    }
}

pub proof fn lemma_dec_offer_status(v: OfferStatus, rest: Seq<u8>)
    ensures
        dec_offer_status(enc_offer_status(v) + rest) == Some((v, rest)),
{
    lemma_dec_u64(offer_status_code(v), rest);
}

pub fn put_offer_status(out: &mut Vec<u8>, v: OfferStatus)
    ensures
        final(out)@ == old(out)@ + enc_offer_status(v),
{
    let c: u64 = match v {
        OfferStatus::Active => 0,
        OfferStatus::Completed => 1,
        OfferStatus::Cancelled => 2,
        OfferStatus::Expired => 3,
    };
    put_u64(out, c);
}

pub fn take_offer_status(buf: &Vec<u8>, pos: usize) -> (r: Option<(OfferStatus, usize)>)
    requires
        pos <= buf@.len(),
    ensures
        match dec_offer_status(buf@.skip(pos as int)) {
            Some((v, rest)) => r matches Some((got, end)) && got == v && pos <= end <= buf@.len()
                && rest == buf@.skip(end as int),
            None => r is None,
        },
{
    let (c, p) = take_u64(buf, pos)?;
    if c == 0 {
        Some((OfferStatus::Active, p))
    } else if c == 1 {
        Some((OfferStatus::Completed, p))
    } else if c == 2 {
        Some((OfferStatus::Cancelled, p))
    } else if c == 3 {
        Some((OfferStatus::Expired, p))
    } else {
        None
    }
}

// ---------------------------------------------------------------- request status

pub open spec fn request_status_code(v: RequestStatus) -> u64 {
    match v {
        RequestStatus::Pending => 0,
        RequestStatus::Accepted => 1,
        RequestStatus::Rejected => 2,
        RequestStatus::Expired => 3,
        RequestStatus::Cancelled => 4,
    }
}

pub open spec fn request_status_of(c: u64) -> Option<RequestStatus> {
    if c == 0 {
        Some(RequestStatus::Pending)
    } else if c == 1 {
        Some(RequestStatus::Accepted)
    } else if c == 2 {
        Some(RequestStatus::Rejected)
    } else if c == 3 {
        Some(RequestStatus::Expired)
    } else if c == 4 {
        Some(RequestStatus::Cancelled)
    } else {
        None
    }
}

pub open spec fn enc_request_status(v: RequestStatus) -> Seq<u8> {
    enc_u64(request_status_code(v))
}

pub open spec fn dec_request_status(s: Seq<u8>) -> Option<(RequestStatus, Seq<u8>)> {
    match dec_u64(s) {
        Some((c, rest)) => match request_status_of(c) {
            Some(v) => Some((v, rest)),
            None => None,
        },
        None => None,
    }
}

pub proof fn lemma_dec_request_status(v: RequestStatus, rest: Seq<u8>)
    ensures
        dec_request_status(enc_request_status(v) + rest) == Some((v, rest)),
{
    lemma_dec_u64(request_status_code(v), rest);
}

pub fn put_request_status(out: &mut Vec<u8>, v: RequestStatus)
    ensures
        final(out)@ == old(out)@ + enc_request_status(v),
{
    let c: u64 = match v {
        RequestStatus::Pending => 0,
        RequestStatus::Accepted => 1,
        RequestStatus::Rejected => 2,
        RequestStatus::Expired => 3,
        RequestStatus::Cancelled => 4,
    };
    put_u64(out, c);
}

pub fn take_request_status(buf: &Vec<u8>, pos: usize) -> (r: Option<(RequestStatus, usize)>)
    requires
        pos <= buf@.len(),
    ensures
        match dec_request_status(buf@.skip(pos as int)) {
            Some((v, rest)) => r matches Some((got, end)) && got == v && pos <= end <= buf@.len()
                && rest == buf@.skip(end as int),
            None => r is None,
        },
{
    let (c, p) = take_u64(buf, pos)?;
    if c == 0 {
        Some((RequestStatus::Pending, p))
    } else if c == 1 {
        Some((RequestStatus::Accepted, p))
    } else if c == 2 {
        Some((RequestStatus::Rejected, p))
    } else if c == 3 {
        Some((RequestStatus::Expired, p))
    } else if c == 4 {
        Some((RequestStatus::Cancelled, p))
    } else {
        None
    }
}

// ---------------------------------------------------------------- transaction status

pub open spec fn transaction_status_code(v: TransactionStatus) -> u64 {
    match v {
        TransactionStatus::Confirmed => 0,
        TransactionStatus::Tokenized => 1,
        TransactionStatus::Completed => 2,
    }
}

pub open spec fn transaction_status_of(c: u64) -> Option<TransactionStatus> {
    if c == 0 {
        Some(TransactionStatus::Confirmed)
    } else if c == 1 {
        Some(TransactionStatus::Tokenized)
    } else if c == 2 {
        Some(TransactionStatus::Completed)
    } else {
        None
    }
}

pub open spec fn enc_transaction_status(v: TransactionStatus) -> Seq<u8> {
    enc_u64(transaction_status_code(v))
}

pub open spec fn dec_transaction_status(s: Seq<u8>) -> Option<(TransactionStatus, Seq<u8>)> {
    match dec_u64(s) {
        Some((c, rest)) => match transaction_status_of(c) {
            Some(v) => Some((v, rest)),
            None => None,
        },
        None => None,
    }
}

pub proof fn lemma_dec_transaction_status(v: TransactionStatus, rest: Seq<u8>)
    ensures
        dec_transaction_status(enc_transaction_status(v) + rest) == Some((v, rest)),
{
    lemma_dec_u64(transaction_status_code(v), rest);
}

pub fn put_transaction_status(out: &mut Vec<u8>, v: TransactionStatus)
    ensures
        final(out)@ == old(out)@ + enc_transaction_status(v),
{
    let c: u64 = match v {
        TransactionStatus::Confirmed => 0,
        TransactionStatus::Tokenized => 1,
        TransactionStatus::Completed => 2,
    };
    put_u64(out, c);
}

pub fn take_transaction_status(buf: &Vec<u8>, pos: usize) -> (r: Option<
    (TransactionStatus, usize),
>)
    requires
        pos <= buf@.len(),
    ensures
        match dec_transaction_status(buf@.skip(pos as int)) {
            Some((v, rest)) => r matches Some((got, end)) && got == v && pos <= end <= buf@.len()
                && rest == buf@.skip(end as int),
            None => r is None,
        },
{
    let (c, p) = take_u64(buf, pos)?;
    if c == 0 {
        Some((TransactionStatus::Confirmed, p))
    } else if c == 1 {
        Some((TransactionStatus::Tokenized, p))
    } else if c == 2 {
        Some((TransactionStatus::Completed, p))
    } else {
        None
    }
}

// ---------------------------------------------------------------- optional time

/// An optional integer: 0 for none, or 1 and then the integer.
pub open spec fn enc_opt_u64(v: Option<u64>) -> Seq<u8> {
    match v {
        None => enc_u64(0),
        Some(x) => enc_u64(1) + enc_u64(x),
    }
}

pub open spec fn dec_opt_u64(s: Seq<u8>) -> Option<(Option<u64>, Seq<u8>)> {
    match dec_u64(s) {
        Some((c, rest)) => if c == 0 {
            Some((None, rest))
        } else if c == 1 {
            match dec_u64(rest) {
                Some((x, rest2)) => Some((Some(x), rest2)),
                None => None,
            }
        } else {
            None
        },
        None => None,
    }
}

pub proof fn lemma_dec_opt_u64(v: Option<u64>, rest: Seq<u8>)
    ensures
        dec_opt_u64(enc_opt_u64(v) + rest) == Some((v, rest)),
{
    match v {
        None => {
            lemma_dec_u64(0, rest);
        },
        Some(x) => {
            lemma_concat_assoc(enc_u64(1), enc_u64(x), rest);
            lemma_dec_u64(1, enc_u64(x) + rest);
            lemma_dec_u64(x, rest);
        },
    }
}

pub fn put_opt_u64(out: &mut Vec<u8>, v: Option<u64>)
    ensures
        final(out)@ == old(out)@ + enc_opt_u64(v),
{
    match v {
        None => {
            put_u64(out, 0);
        },
        Some(x) => {
            put_u64(out, 1);
            put_u64(out, x);
            proof {
                lemma_concat_assoc(old(out)@, enc_u64(1), enc_u64(x));
            }
        },
    }
}

pub fn take_opt_u64(buf: &Vec<u8>, pos: usize) -> (r: Option<(Option<u64>, usize)>)
    requires
        pos <= buf@.len(),
    ensures
        match dec_opt_u64(buf@.skip(pos as int)) {
            Some((v, rest)) => r matches Some((got, end)) && got == v && pos <= end <= buf@.len()
                && rest == buf@.skip(end as int),
            None => r is None,
        },
{
    let (c, p) = take_u64(buf, pos)?;
    if c == 0 {
        Some((None, p))
    } else if c == 1 {
        let (x, q) = take_u64(buf, p)?;
        Some((Some(x), q))
    } else {
        None
    }
}

// ---------------------------------------------------------------- product type

/// A product type: its number, and for `Other` the text after it.
pub open spec fn enc_product_type(v: ProductTypeView) -> Seq<u8> {
    match v {
        ProductTypeView::Grains => enc_u64(0),
        ProductTypeView::Fruits => enc_u64(1),
        ProductTypeView::Vegetables => enc_u64(2),
        ProductTypeView::Nuts => enc_u64(3),
        ProductTypeView::Herbs => enc_u64(4),
        ProductTypeView::Legumes => enc_u64(5),
        ProductTypeView::Other(t) => enc_u64(6) + enc_text(t),
    }
}

pub open spec fn dec_product_type(s: Seq<u8>) -> Option<(ProductTypeView, Seq<u8>)> {
    match dec_u64(s) {
        Some((c, rest)) => if c == 0 {
            Some((ProductTypeView::Grains, rest))
        } else if c == 1 {
            Some((ProductTypeView::Fruits, rest))
        } else if c == 2 {
            Some((ProductTypeView::Vegetables, rest))
        } else if c == 3 {
            Some((ProductTypeView::Nuts, rest))
        } else if c == 4 {
            Some((ProductTypeView::Herbs, rest))
        } else if c == 5 {
            Some((ProductTypeView::Legumes, rest))
        } else if c == 6 {
            match dec_text(rest) {
                Some((t, rest2)) => Some((ProductTypeView::Other(t), rest2)),
                None => None,
            }
        } else {
            None
        },
        None => None,
    }
}

/// Whether the text inside, if any, is short enough to be written.
pub open spec fn product_type_fits(v: ProductTypeView) -> bool {
    v matches ProductTypeView::Other(t) ==> encode_utf8(t).len() <= u64::MAX
}

pub proof fn lemma_dec_product_type(v: ProductTypeView, rest: Seq<u8>)
    requires
        product_type_fits(v),
    ensures
        dec_product_type(enc_product_type(v) + rest) == Some((v, rest)),
{
    match v {
        ProductTypeView::Grains => lemma_dec_u64(0, rest),
        ProductTypeView::Fruits => lemma_dec_u64(1, rest),
        ProductTypeView::Vegetables => lemma_dec_u64(2, rest),
        ProductTypeView::Nuts => lemma_dec_u64(3, rest),
        ProductTypeView::Herbs => lemma_dec_u64(4, rest),
        ProductTypeView::Legumes => lemma_dec_u64(5, rest),
        ProductTypeView::Other(t) => {
            lemma_concat_assoc(enc_u64(6), enc_text(t), rest);
            lemma_dec_u64(6, enc_text(t) + rest);
            lemma_dec_text(t, rest);
        },
    }
}

pub fn put_product_type(out: &mut Vec<u8>, v: &ProductType)
    ensures
        final(out)@ == old(out)@ + enc_product_type(v@),
        product_type_fits(v@),
{
    match v {
        ProductType::Grains => put_u64(out, 0),
        ProductType::Fruits => put_u64(out, 1),
        ProductType::Vegetables => put_u64(out, 2),
        ProductType::Nuts => put_u64(out, 3),
        ProductType::Herbs => put_u64(out, 4),
        ProductType::Legumes => put_u64(out, 5),
        ProductType::Other(t) => {
            put_u64(out, 6);
            put_text(out, t);
            proof {
                lemma_concat_assoc(old(out)@, enc_u64(6), enc_text(t@));
            }
        },
    }
}

pub fn take_product_type(buf: &Vec<u8>, pos: usize) -> (r: Option<(ProductType, usize)>)
    requires
        pos <= buf@.len(),
    ensures
        match dec_product_type(buf@.skip(pos as int)) {
            Some((v, rest)) => r matches Some((got, end)) && got@ == v && pos <= end <= buf@.len()
                && rest == buf@.skip(end as int),
            None => r is None,
        },
{
    let (c, p) = take_u64(buf, pos)?;
    if c == 0 {
        Some((ProductType::Grains, p))
    } else if c == 1 {
        Some((ProductType::Fruits, p))
    } else if c == 2 {
        Some((ProductType::Vegetables, p))
    } else if c == 3 {
        Some((ProductType::Nuts, p))
    } else if c == 4 {
        Some((ProductType::Herbs, p))
    } else if c == 5 {
        Some((ProductType::Legumes, p))
    } else if c == 6 {
        let (t, q) = take_text(buf, p)?;
        Some((ProductType::Other(t), q))
    } else {
        None
    }
}

// ---------------------------------------------------------------- quality grade

/// A quality grade: its number, and for `Certified` the text after it.
pub open spec fn enc_quality_grade(v: QualityGradeView) -> Seq<u8> {
    match v {
        QualityGradeView::Premium => enc_u64(0),
        QualityGradeView::Grade1 => enc_u64(1),
        QualityGradeView::Grade2 => enc_u64(2),
        QualityGradeView::Standard => enc_u64(3),
        QualityGradeView::Organic => enc_u64(4),
        QualityGradeView::Certified(t) => enc_u64(5) + enc_text(t),
    }
}

pub open spec fn dec_quality_grade(s: Seq<u8>) -> Option<(QualityGradeView, Seq<u8>)> {
    match dec_u64(s) {
        Some((c, rest)) => if c == 0 {
            Some((QualityGradeView::Premium, rest))
        } else if c == 1 {
            Some((QualityGradeView::Grade1, rest))
        } else if c == 2 {
            Some((QualityGradeView::Grade2, rest))
        } else if c == 3 {
            Some((QualityGradeView::Standard, rest))
        } else if c == 4 {
            Some((QualityGradeView::Organic, rest))
        } else if c == 5 {
            match dec_text(rest) {
                Some((t, rest2)) => Some((QualityGradeView::Certified(t), rest2)),
                None => None,
            }
        } else {
            None
        },
        None => None,
    }
}

/// Whether the text inside, if any, is short enough to be written.
pub open spec fn quality_grade_fits(v: QualityGradeView) -> bool {
    v matches QualityGradeView::Certified(t) ==> encode_utf8(t).len() <= u64::MAX
}

pub proof fn lemma_dec_quality_grade(v: QualityGradeView, rest: Seq<u8>)
    requires
        quality_grade_fits(v),
    ensures
        dec_quality_grade(enc_quality_grade(v) + rest) == Some((v, rest)),
{
    match v {
        QualityGradeView::Premium => lemma_dec_u64(0, rest),
        QualityGradeView::Grade1 => lemma_dec_u64(1, rest),
        QualityGradeView::Grade2 => lemma_dec_u64(2, rest),
        QualityGradeView::Standard => lemma_dec_u64(3, rest),
        QualityGradeView::Organic => lemma_dec_u64(4, rest),
        QualityGradeView::Certified(t) => {
            lemma_concat_assoc(enc_u64(5), enc_text(t), rest);
            lemma_dec_u64(5, enc_text(t) + rest);
            lemma_dec_text(t, rest);
        },
    }
}

pub fn put_quality_grade(out: &mut Vec<u8>, v: &QualityGrade)
    ensures
        final(out)@ == old(out)@ + enc_quality_grade(v@),
        quality_grade_fits(v@),
{
    match v {
        QualityGrade::Premium => put_u64(out, 0),
        QualityGrade::Grade1 => put_u64(out, 1),
        QualityGrade::Grade2 => put_u64(out, 2),
        QualityGrade::Standard => put_u64(out, 3),
        QualityGrade::Organic => put_u64(out, 4),
        QualityGrade::Certified(t) => {
            put_u64(out, 5);
            put_text(out, t);
            proof {
                lemma_concat_assoc(old(out)@, enc_u64(5), enc_text(t@));
            }
        },
    }
}

pub fn take_quality_grade(buf: &Vec<u8>, pos: usize) -> (r: Option<(QualityGrade, usize)>)
    requires
        pos <= buf@.len(),
    ensures
        match dec_quality_grade(buf@.skip(pos as int)) {
            Some((v, rest)) => r matches Some((got, end)) && got@ == v && pos <= end <= buf@.len()
                && rest == buf@.skip(end as int),
            None => r is None,
        },
{
    let (c, p) = take_u64(buf, pos)?;
    if c == 0 {
        Some((QualityGrade::Premium, p))
    } else if c == 1 {
        Some((QualityGrade::Grade1, p))
    } else if c == 2 {
        Some((QualityGrade::Grade2, p))
    } else if c == 3 {
        Some((QualityGrade::Standard, p))
    } else if c == 4 {
        Some((QualityGrade::Organic, p))
    } else if c == 5 {
        let (t, q) = take_text(buf, p)?;
        Some((QualityGrade::Certified(t), q))
    } else {
        None
    }
}

} // verus!
