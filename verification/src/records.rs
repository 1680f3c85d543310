//! The four persisted records, each with its view and its validity.
use vstd::prelude::*;
use crate::types::{
    Identity, Money, OfferStatus, ProductType, ProductTypeView, QualityGrade, QualityGradeView,
    RequestStatus, TransactionStatus, UserRole,
};

verus! {

/// A registered participant.
#[derive(Debug)]
pub struct UserProfile {
    pub principal: Identity,
    pub role: UserRole,
    pub display_name: String,
    pub email: String,
    pub created_at: u64,
    pub updated_at: u64,
}

pub ghost struct UserProfileView {
    pub principal: Seq<u8>,
    pub role: UserRole,
    pub display_name: Seq<char>,
    pub email: Seq<char>,
    pub created_at: u64,
    pub updated_at: u64,
}

impl View for UserProfile {
    type V = UserProfileView;

    open spec fn view(&self) -> UserProfileView {
        UserProfileView {
            principal: self.principal@,
            role: self.role,
            display_name: self.display_name@,
            email: self.email@,
            created_at: self.created_at,
            updated_at: self.updated_at,
        }
    }
}

impl Clone for UserProfile {
    fn clone(&self) -> (r: Self)
        ensures
            r@ == self@,
    {
        UserProfile {
            principal: self.principal.clone(),
            role: self.role,
            display_name: self.display_name.clone(),
            email: self.email.clone(),
            created_at: self.created_at,
            updated_at: self.updated_at,
        }
    }
}

/// A farmer's advertised quantity of a product.
#[derive(Debug)]
pub struct InvestmentOffer {
    pub id: String,
    pub farmer: Identity,
    pub product_name: String,
    pub product_type: ProductType,
    pub total_quantity: u64,
    pub available_quantity: u64,
    pub price_per_kg: Money,
    pub description: String,
    pub harvest_date: String,
    pub location: String,
    pub quality_grade: QualityGrade,
    pub minimum_investment: u64,
    pub status: OfferStatus,
    pub created_at: u64,
    pub updated_at: u64,
}

pub ghost struct InvestmentOfferView {
    pub id: Seq<char>,
    pub farmer: Seq<u8>,
    pub product_name: Seq<char>,
    pub product_type: ProductTypeView,
    pub total_quantity: u64,
    pub available_quantity: u64,
    pub price_per_kg: Money,
    pub description: Seq<char>,
    pub harvest_date: Seq<char>,
    pub location: Seq<char>,
    pub quality_grade: QualityGradeView,
    pub minimum_investment: u64,
    pub status: OfferStatus,
    pub created_at: u64,
    pub updated_at: u64,
}

impl InvestmentOfferView {
    /// The quantity still on offer never exceeds the quantity offered, and a
    /// completed offer has nothing left.
    pub open spec fn balanced(self) -> bool {
        &&& self.available_quantity <= self.total_quantity
        &&& self.status == OfferStatus::Completed ==> self.available_quantity == 0
    }
}

impl View for InvestmentOffer {
    type V = InvestmentOfferView;

    open spec fn view(&self) -> InvestmentOfferView {
        InvestmentOfferView {
            id: self.id@,
            farmer: self.farmer@,
            product_name: self.product_name@,
            product_type: self.product_type@,
            total_quantity: self.total_quantity,
            available_quantity: self.available_quantity,
            price_per_kg: self.price_per_kg,
            description: self.description@,
            harvest_date: self.harvest_date@,
            location: self.location@,
            quality_grade: self.quality_grade@,
            minimum_investment: self.minimum_investment,
            status: self.status,
            created_at: self.created_at,
            updated_at: self.updated_at,
        }
    }
}

impl Clone for InvestmentOffer {
    fn clone(&self) -> (r: Self)
        ensures
            r@ == self@,
    {
        InvestmentOffer {
            id: self.id.clone(),
            farmer: self.farmer.clone(),
            product_name: self.product_name.clone(),
            product_type: self.product_type.clone(),
            total_quantity: self.total_quantity,
            available_quantity: self.available_quantity,
            price_per_kg: self.price_per_kg,
            description: self.description.clone(),
            harvest_date: self.harvest_date.clone(),
            location: self.location.clone(),
            quality_grade: self.quality_grade.clone(),
            minimum_investment: self.minimum_investment,
            status: self.status,
            created_at: self.created_at,
            updated_at: self.updated_at,
        }
    }
}

/// An investor's proposal to buy part of an offer.
#[derive(Debug)]
pub struct InvestmentRequest {
    pub id: String,
    pub offer_id: String,
    pub investor: Identity,
    pub requested_quantity: u64,
    pub offered_price_per_kg: Money,
    pub total_offered: Money,
    pub message: String,
    pub status: RequestStatus,
    pub created_at: u64,
    pub updated_at: u64,
    pub expires_at: u64,
}

pub ghost struct InvestmentRequestView {
    pub id: Seq<char>,
    pub offer_id: Seq<char>,
    pub investor: Seq<u8>,
    pub requested_quantity: u64,
    pub offered_price_per_kg: Money,
    pub total_offered: Money,
    pub message: Seq<char>,
    pub status: RequestStatus,
    pub created_at: u64,
    pub updated_at: u64,
    pub expires_at: u64,
}

impl View for InvestmentRequest {
    type V = InvestmentRequestView;

    open spec fn view(&self) -> InvestmentRequestView {
        InvestmentRequestView {
            id: self.id@,
            offer_id: self.offer_id@,
            investor: self.investor@,
            requested_quantity: self.requested_quantity,
            offered_price_per_kg: self.offered_price_per_kg,
            total_offered: self.total_offered,
            message: self.message@,
            status: self.status,
            created_at: self.created_at,
            updated_at: self.updated_at,
            expires_at: self.expires_at,
        }
    }
}

impl Clone for InvestmentRequest {
    fn clone(&self) -> (r: Self)
        ensures
            r@ == self@,
    {
        InvestmentRequest {
            id: self.id.clone(),
            offer_id: self.offer_id.clone(),
            investor: self.investor.clone(),
            requested_quantity: self.requested_quantity,
            offered_price_per_kg: self.offered_price_per_kg,
            total_offered: self.total_offered,
            message: self.message.clone(),
            status: self.status,
            created_at: self.created_at,
            updated_at: self.updated_at,
            expires_at: self.expires_at,
        }
    }
}

/// The record of an accepted request.
#[derive(Debug)]
pub struct Transaction {
    pub id: String,
    pub offer_id: String,
    pub request_id: String,
    pub farmer: Identity,
    pub investor: Identity,
    pub quantity: u64,
    pub price_per_kg: Money,
    pub total_amount: Money,
    pub status: TransactionStatus,
    pub created_at: u64,
    pub updated_at: u64,
    pub tokenized_at: Option<u64>,
}

pub ghost struct TransactionView {
    pub id: Seq<char>,
    pub offer_id: Seq<char>,
    pub request_id: Seq<char>,
    pub farmer: Seq<u8>,
    pub investor: Seq<u8>,
    pub quantity: u64,
    pub price_per_kg: Money,
    pub total_amount: Money,
    pub status: TransactionStatus,
    pub created_at: u64,
    pub updated_at: u64,
    pub tokenized_at: Option<u64>,
}

impl View for Transaction {
    type V = TransactionView;

    open spec fn view(&self) -> TransactionView {
        TransactionView {
            id: self.id@,
            offer_id: self.offer_id@,
            request_id: self.request_id@,
            farmer: self.farmer@,
            investor: self.investor@,
            quantity: self.quantity,
            price_per_kg: self.price_per_kg,
            total_amount: self.total_amount,
            status: self.status,
            created_at: self.created_at,
            updated_at: self.updated_at,
            tokenized_at: self.tokenized_at,
        }
    }
}

impl Clone for Transaction {
    fn clone(&self) -> (r: Self)
        ensures
            r@ == self@,
    {
        Transaction {
            id: self.id.clone(),
            offer_id: self.offer_id.clone(),
            request_id: self.request_id.clone(),
            farmer: self.farmer.clone(),
            investor: self.investor.clone(),
            quantity: self.quantity,
            price_per_kg: self.price_per_kg,
            total_amount: self.total_amount,
            status: self.status,
            created_at: self.created_at,
            updated_at: self.updated_at,
            tokenized_at: self.tokenized_at,
        }
    }
}

} // verus!
