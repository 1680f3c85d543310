//! Who may do what: the checks that are made before anything is written.
use vstd::prelude::*;
use crate::errors::MarketError;
use crate::table::anonymous_bytes;
use crate::types::{same_bytes, Identity, UserRole};

verus! {

/// The bytes of the anonymous identity.
pub open spec fn anonymous() -> Seq<u8> {
    seq![4u8]
}

/// Why the caller counts as nobody, if so.
pub open spec fn authentication(caller: Seq<u8>) -> Option<MarketError> {
    if caller == anonymous() {
        Some(MarketError::Unauthenticated)
    } else {
        None
    }
}

/// Why `caller` may not act for `owner`, if so.
pub open spec fn ownership(caller: Seq<u8>, owner: Seq<u8>) -> Option<MarketError> {
    if caller == owner {
        None
    } else {
        Some(MarketError::NotOfferOwner)
    }
}

/// The role that an operation asks for. An admin has every clearance.
#[derive(Debug, Clone, Copy, PartialEq, Eq, Structural)]
pub enum Clearance {
    Admin,
    Farmer,
    Investor,
}

impl Clearance {
    /// Whether a user with this role passes.
    pub open spec fn admits(self, role: UserRole) -> bool {
        match self {
            Clearance::Admin => role == UserRole::Admin,
            Clearance::Farmer => role == UserRole::Farmer || role == UserRole::Admin,
            Clearance::Investor => role == UserRole::Investor || role == UserRole::Admin,
        }
    }

    /// What a user who does not pass is told.
    pub open spec fn refusal(self) -> MarketError {
        match self {
            Clearance::Admin => MarketError::AdminRequired,
            Clearance::Farmer => MarketError::FarmerRequired,
            Clearance::Investor => MarketError::InvestorRequired,
        }
    }

    /// Lets a user with this role pass, or says why not.
    pub fn check(self, role: UserRole) -> (r: Result<(), MarketError>)
        ensures
            self.admits(role) ==> r is Ok,
            !self.admits(role) ==> (r matches Err(e) && e == self.refusal()),
    {
        match (self, role) {
            (_, UserRole::Admin) => Ok(()),
            (Clearance::Farmer, UserRole::Farmer) => Ok(()),
            (Clearance::Investor, UserRole::Investor) => Ok(()),
            (Clearance::Admin, _) => Err(MarketError::AdminRequired),
            (Clearance::Farmer, _) => Err(MarketError::FarmerRequired),
            (Clearance::Investor, _) => Err(MarketError::InvestorRequired),
        }
    }
}

/// Whether the caller is anyone but the anonymous identity.
pub fn is_authenticated(caller: &Identity) -> (r: bool)
    ensures
        r == (caller@ != anonymous()),
{
    let nobody = anonymous_bytes();
    !same_bytes(caller.as_bytes(), &nobody)
}

/// Lets everyone but the anonymous identity pass.
pub fn authenticate(caller: &Identity) -> (r: Result<(), MarketError>)
    ensures
        match authentication(caller@) {
            Some(e) => r matches Err(got) && got == e,
            None => r is Ok,
        },
{
    if is_authenticated(caller) {
        Ok(())
    } else {
        Err(MarketError::Unauthenticated)
    }
}

/// Lets the caller pass who is the owner.
pub fn authorize_ownership(caller: &Identity, owner: &Identity) -> (r: Result<(), MarketError>)
    ensures
        match ownership(caller@, owner@) {
            Some(e) => r matches Err(got) && got == e,
            None => r is Ok,
        },
{
    if caller.same(owner) {
        Ok(())
    } else {
        Err(MarketError::NotOfferOwner)
    }
}

} // verus!
