//! The marketplace's records and their mathematical views.
//!
//! Every record that owns text or bytes has a view in which those fields are
//! sequences; contracts throughout the crate speak of the views.
use vstd::prelude::*;

verus! {

/// Longest identity, in bytes.
pub const MAX_IDENTITY_BYTES: usize = 29;

/// Whether two byte strings are the same.
pub fn same_bytes(a: &Vec<u8>, b: &Vec<u8>) -> (r: bool)
    ensures
        r == (a@ == b@),
{
    if a.len() != b.len() {
        return false;
    }
    let mut i: usize = 0;
    while i < a.len()
        invariant
            i <= a.len(),
            a.len() == b.len(),
            forall|j: int| 0 <= j < i ==> a@[j] == b@[j],
        decreases a.len() - i,
    {
        if a[i] != b[i] {
            return false;
        }
        i += 1;
    }
    assert(a@ =~= b@);
    true
}

/// An opaque caller identity, held as the bytes of a principal: at most
/// `MAX_IDENTITY_BYTES` of them.
#[derive(Debug)]
pub struct Identity {
    bytes: Vec<u8>,
}

impl View for Identity {
    type V = Seq<u8>;

    closed spec fn view(&self) -> Seq<u8> {
        self.bytes@
    }
}

impl Clone for Identity {
    fn clone(&self) -> (r: Self)
        ensures
            r@ == self@,
    {
        proof {
            use_type_invariant(self);
        }
        Identity { bytes: self.bytes.clone() }
    }
}

impl Identity {
    #[verifier::type_invariant]
    spec fn short(&self) -> bool {
        self.bytes@.len() <= MAX_IDENTITY_BYTES
    }

    /// The identity with these bytes, if they are few enough.
    pub fn from_bytes(bytes: Vec<u8>) -> (r: Option<Identity>)
        ensures
            r is Some <==> bytes@.len() <= MAX_IDENTITY_BYTES,
            r matches Some(i) ==> i@ == bytes@,
    {
        if bytes.len() <= MAX_IDENTITY_BYTES {
            Some(Identity { bytes })
        } else {
            None
        }
    }

    /// The bytes of the identity.
    pub fn as_bytes(&self) -> (r: &Vec<u8>)
        ensures
            r@ == self@,
            r@.len() <= MAX_IDENTITY_BYTES,
    {
        proof {
            use_type_invariant(self);
        }
        &self.bytes
    }

    /// Whether two identities are the same principal.
    pub fn same(&self, other: &Identity) -> (r: bool)
        ensures
            r == (self@ == other@),
    {
        same_bytes(&self.bytes, &other.bytes)
    }
}

/// A binary64 amount (a price or a total), carried by its bit pattern.
/// The library stores and copies amounts and never computes with them.
#[derive(Debug, Clone, Copy, PartialEq, Eq, Structural)]
pub struct Money {
    pub bits: u64,
}

#[derive(Debug, Clone, Copy, PartialEq, Eq, Structural)]
pub enum UserRole {
    Admin,
    Farmer,
    Investor,
    Guest,
}

#[derive(Debug, Clone, Copy, PartialEq, Eq, Structural)]
pub enum OfferStatus {
    Active,
    Completed,
    Cancelled,
    Expired,
}

#[derive(Debug, Clone, Copy, PartialEq, Eq, Structural)]
pub enum RequestStatus {
    Pending,
    Accepted,
    Rejected,
    Expired,
    Cancelled,
}

#[derive(Debug, Clone, Copy, PartialEq, Eq, Structural)]
pub enum TransactionStatus {
    Confirmed,
    Tokenized,
    Completed,
}

#[derive(Debug)]
pub enum ProductType {
    Grains,
    Fruits,
    Vegetables,
    Nuts,
    Herbs,
    Legumes,
    Other(String),
}

pub ghost enum ProductTypeView {
    Grains,
    Fruits,
    Vegetables,
    Nuts,
    Herbs,
    Legumes,
    Other(Seq<char>),
}

impl View for ProductType {
    type V = ProductTypeView;

    open spec fn view(&self) -> ProductTypeView {
        match self {
            ProductType::Grains => ProductTypeView::Grains,
            ProductType::Fruits => ProductTypeView::Fruits,
            ProductType::Vegetables => ProductTypeView::Vegetables,
            ProductType::Nuts => ProductTypeView::Nuts,
            ProductType::Herbs => ProductTypeView::Herbs,
            ProductType::Legumes => ProductTypeView::Legumes,
            ProductType::Other(s) => ProductTypeView::Other(s@),
        }
    }
}

impl Clone for ProductType {
    fn clone(&self) -> (r: Self)
        ensures
            r@ == self@,
    {
        match self {
            ProductType::Grains => ProductType::Grains,
            ProductType::Fruits => ProductType::Fruits,
            ProductType::Vegetables => ProductType::Vegetables,
            ProductType::Nuts => ProductType::Nuts,
            ProductType::Herbs => ProductType::Herbs,
            ProductType::Legumes => ProductType::Legumes,
            ProductType::Other(s) => ProductType::Other(s.clone()),
        }
    }
}

#[derive(Debug)]
pub enum QualityGrade {
    Premium,
    Grade1,
    Grade2,
    Standard,
    Organic,
    Certified(String),
}

pub ghost enum QualityGradeView {
    Premium,
    Grade1,
    Grade2,
    Standard,
    Organic,
    Certified(Seq<char>),
}

impl View for QualityGrade {
    type V = QualityGradeView;

    open spec fn view(&self) -> QualityGradeView {
        match self {
            QualityGrade::Premium => QualityGradeView::Premium,
            QualityGrade::Grade1 => QualityGradeView::Grade1,
            QualityGrade::Grade2 => QualityGradeView::Grade2,
            QualityGrade::Standard => QualityGradeView::Standard,
            QualityGrade::Organic => QualityGradeView::Organic,
            QualityGrade::Certified(s) => QualityGradeView::Certified(s@),
        }
    }
}

impl Clone for QualityGrade {
    fn clone(&self) -> (r: Self)
        ensures
            r@ == self@,
    {
        match self {
            QualityGrade::Premium => QualityGrade::Premium,
            QualityGrade::Grade1 => QualityGrade::Grade1,
            QualityGrade::Grade2 => QualityGrade::Grade2,
            QualityGrade::Standard => QualityGrade::Standard,
            QualityGrade::Organic => QualityGrade::Organic,
            QualityGrade::Certified(s) => QualityGrade::Certified(s.clone()),
        }
    }
}

} // verus!
