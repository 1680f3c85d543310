//! Why an operation was refused.
use vstd::prelude::*;
use vstd::string::StringExecFns;

verus! {

/// The kinds of refusal.
#[derive(Debug, Clone, Copy, PartialEq, Eq, Structural)]
pub enum ErrorKind {
    Unauthenticated,
    Forbidden,
    NotFound,
    AlreadyRegistered,
    InvalidOffer,
    AlreadyProcessed,
    Exhausted,
}

/// A refusal. Every refusal is decided before anything is written.
#[derive(Debug, Clone, Copy, PartialEq, Eq, Structural)]
pub enum MarketError {
    /// The caller is the anonymous identity.
    Unauthenticated,
    /// The caller has no user record.
    UserNotFound,
    /// The user to change has no record.
    TargetNotFound,
    /// The request does not exist.
    RequestNotFound,
    /// The caller already has a user record.
    AlreadyRegistered,
    /// Only an admin may do this.
    AdminRequired,
    /// Only a farmer or an admin may do this.
    FarmerRequired,
    /// Only an investor or an admin may do this.
    InvestorRequired,
    /// The caller does not own the offer.
    NotOfferOwner,
    /// The offer is missing, is not active or has too little left.
    InvalidOffer,
    /// The request is no longer pending.
    AlreadyProcessed,
    /// No identifier is left for a new record.
    IdentifiersExhausted,
}

impl MarketError {
    /// The kind of the refusal.
    pub open spec fn spec_kind(self) -> ErrorKind {
        match self {
            MarketError::Unauthenticated => ErrorKind::Unauthenticated,
            MarketError::UserNotFound => ErrorKind::NotFound,
            MarketError::TargetNotFound => ErrorKind::NotFound,
            MarketError::RequestNotFound => ErrorKind::NotFound,
            MarketError::AlreadyRegistered => ErrorKind::AlreadyRegistered,
            MarketError::AdminRequired => ErrorKind::Forbidden,
            MarketError::FarmerRequired => ErrorKind::Forbidden,
            MarketError::InvestorRequired => ErrorKind::Forbidden,
            MarketError::NotOfferOwner => ErrorKind::Forbidden,
            MarketError::InvalidOffer => ErrorKind::InvalidOffer,
            MarketError::AlreadyProcessed => ErrorKind::AlreadyProcessed,
            MarketError::IdentifiersExhausted => ErrorKind::Exhausted,
        }
    }

    /// The kind of the refusal.
    #[verifier::when_used_as_spec(spec_kind)]
    pub fn kind(self) -> (k: ErrorKind)
        ensures
            k == self.spec_kind(),
    {
        match self {
            MarketError::Unauthenticated => ErrorKind::Unauthenticated,
            MarketError::UserNotFound => ErrorKind::NotFound,
            MarketError::TargetNotFound => ErrorKind::NotFound,
            MarketError::RequestNotFound => ErrorKind::NotFound,
            MarketError::AlreadyRegistered => ErrorKind::AlreadyRegistered,
            MarketError::AdminRequired => ErrorKind::Forbidden,
            MarketError::FarmerRequired => ErrorKind::Forbidden,
            MarketError::InvestorRequired => ErrorKind::Forbidden,
            MarketError::NotOfferOwner => ErrorKind::Forbidden,
            MarketError::InvalidOffer => ErrorKind::InvalidOffer,
            MarketError::AlreadyProcessed => ErrorKind::AlreadyProcessed,
            MarketError::IdentifiersExhausted => ErrorKind::Exhausted,
        }
    }

    /// The text shown to the caller.
    pub open spec fn text(self) -> Seq<char> {
        match self {
            MarketError::Unauthenticated => "Authentication required"@,
            MarketError::UserNotFound => "User not found"@,
            MarketError::TargetNotFound => "User not found"@,
            MarketError::RequestNotFound => "Investment request not found"@,
            MarketError::AlreadyRegistered => "User already registered"@,
            MarketError::AdminRequired => "Admin access required"@,
            MarketError::FarmerRequired => "Farmer role required"@,
            MarketError::InvestorRequired => "Investor role required"@,
            MarketError::NotOfferOwner => "Access denied - not offer owner"@,
            MarketError::InvalidOffer => "Invalid offer or insufficient quantity"@,
            MarketError::AlreadyProcessed => "Request already processed"@,
            MarketError::IdentifiersExhausted => "No identifier left"@,
        }
    }

    /// The text shown to the caller.
    pub fn message(self) -> (m: String)
        ensures
            m@ == self.text(),
    {
        match self {
            MarketError::Unauthenticated => String::from_str("Authentication required"),
            MarketError::UserNotFound => String::from_str("User not found"),
            MarketError::TargetNotFound => String::from_str("User not found"),
            MarketError::RequestNotFound => String::from_str("Investment request not found"),
            MarketError::AlreadyRegistered => String::from_str("User already registered"),
            MarketError::AdminRequired => String::from_str("Admin access required"),
            MarketError::FarmerRequired => String::from_str("Farmer role required"),
            MarketError::InvestorRequired => String::from_str("Investor role required"),
            MarketError::NotOfferOwner => String::from_str("Access denied - not offer owner"),
            MarketError::InvalidOffer => String::from_str(
                "Invalid offer or insufficient quantity",
            ),
            MarketError::AlreadyProcessed => String::from_str("Request already processed"),
            MarketError::IdentifiersExhausted => String::from_str("No identifier left"),
        }
    }
}

} // verus!
