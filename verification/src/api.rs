//! What callers send and what they get back.
use vstd::prelude::*;
use vstd::string::StringExecFns;
use crate::errors::MarketError;
use crate::types::{Money, ProductType, ProductTypeView, QualityGrade, QualityGradeView, UserRole};

verus! {

/// What a new participant sends.
#[derive(Debug)]
pub struct RegisterUserRequest {
    pub role: UserRole,
    pub display_name: String,
    pub email: String,
}

pub ghost struct RegisterUserRequestView {
    pub role: UserRole,
    pub display_name: Seq<char>,
    pub email: Seq<char>,
}

impl View for RegisterUserRequest {
    type V = RegisterUserRequestView;

    open spec fn view(&self) -> RegisterUserRequestView {
        RegisterUserRequestView {
            role: self.role,
            display_name: self.display_name@,
            email: self.email@,
        }
    }
}

/// What a farmer sends to advertise a product.
#[derive(Debug)]
pub struct CreateOfferRequest {
    pub product_name: String,
    pub product_type: ProductType,
    pub total_quantity: u64,
    pub price_per_kg: Money,
    pub description: String,
    pub harvest_date: String,
    pub location: String,
    pub quality_grade: QualityGrade,
    pub minimum_investment: u64,
}

pub ghost struct CreateOfferRequestView {
    pub product_name: Seq<char>,
    pub product_type: ProductTypeView,
    pub total_quantity: u64,
    pub price_per_kg: Money,
    pub description: Seq<char>,
    pub harvest_date: Seq<char>,
    pub location: Seq<char>,
    pub quality_grade: QualityGradeView,
    pub minimum_investment: u64,
}

impl View for CreateOfferRequest {
    type V = CreateOfferRequestView;

    open spec fn view(&self) -> CreateOfferRequestView {
        CreateOfferRequestView {
            product_name: self.product_name@,
            product_type: self.product_type@,
            total_quantity: self.total_quantity,
            price_per_kg: self.price_per_kg,
            description: self.description@,
            harvest_date: self.harvest_date@,
            location: self.location@,
            quality_grade: self.quality_grade@,
            minimum_investment: self.minimum_investment,
        }
    }
}

/// What an investor sends to ask for part of an offer.
#[derive(Debug)]
pub struct CreateInvestmentRequest {
    pub offer_id: String,
    pub requested_quantity: u64,
    pub offered_price_per_kg: Money,
    pub message: String,
}

pub ghost struct CreateInvestmentRequestView {
    pub offer_id: Seq<char>,
    pub requested_quantity: u64,
    pub offered_price_per_kg: Money,
    pub message: Seq<char>,
}

impl View for CreateInvestmentRequest {
    type V = CreateInvestmentRequestView;

    open spec fn view(&self) -> CreateInvestmentRequestView {
        CreateInvestmentRequestView {
            offer_id: self.offer_id@,
            requested_quantity: self.requested_quantity,
            offered_price_per_kg: self.offered_price_per_kg,
            message: self.message@,
        }
    }
}

/// A farmer's decision on a request.
#[derive(Debug)]
pub struct RespondToRequestRequest {
    pub request_id: String,
    pub accept: bool,
}

/// Counts over the four tables.
#[derive(Debug, Clone, Copy, PartialEq, Eq, Structural)]
pub struct PlatformStats {
    pub total_users: u64,
    pub total_offers: u64,
    pub total_requests: u64,
    pub total_transactions: u64,
    pub active_offers: u64,
}

/// The uniform answer: a payload, or the text of a refusal.
#[derive(Debug)]
pub struct ApiResponse<T> {
    pub success: bool,
    pub data: Option<T>,
    pub error: Option<String>,
}

impl<T> ApiResponse<T> {
    /// The answer that carries `data`.
    pub fn success(data: T) -> (r: Self)
        ensures
            r.success,
            r.data == Some(data),
            r.error is None,
    {
        ApiResponse { success: true, data: Some(data), error: None }
    }

    /// The answer that carries the text of a refusal.
    pub fn error(error: String) -> (r: Self)
        ensures
            !r.success,
            r.data is None,
            r.error == Some(error),
    {
        ApiResponse { success: false, data: None, error: Some(error) }
    }

    /// The answer for the outcome of an operation.
    pub fn from_result(outcome: Result<T, MarketError>) -> (r: Self)
        ensures
            match outcome {
                Ok(data) => r.success && r.data == Some(data) && r.error is None,
                Err(e) => !r.success && r.data is None && (r.error matches Some(m) && m@
                    == e.text()),
            },
    {
        match outcome {
            Ok(data) => ApiResponse::success(data),
            Err(e) => ApiResponse::error(e.message()),
        }
    }
}

/// The spoken sign of life.
pub open spec fn health_text() -> Seq<char> {
    "HarvestX backend is healthy"@
}

/// Says that the service runs.
pub fn health_check() -> (r: String)
    ensures
        r@ == health_text(),
{
    String::from_str("HarvestX backend is healthy")
}

} // verus!
