//! The authentication workflow of physical-asset auctions: the assigned
//! authenticator uploads a report, then approves or rejects the item, which
//! opens the auction for bidding or cancels it.
use vstd::prelude::*;

use crate::errors::{AuctionAuthError, MarketError};
use crate::pubkey::{contains_key, Pubkey};
use crate::states::{
    AssetType, Auction, AuctionStatus, AuthStatus, Authentication, AuthenticatorsRegistry,
};

verus! {

/// Why `caller` may not act on `authentication` of the auction at
/// `auction_key`, checked in this order: the caller must be in the
/// directory, the record must belong to the auction, and the caller must be
/// the authenticator assigned to it (an authenticator other than the
/// assigned one is not recognized for this auction).
pub open spec fn authenticator_rejection(
    registry: AuthenticatorsRegistry,
    authentication: Authentication,
    auction_key: Pubkey,
    caller: Pubkey,
) -> Option<MarketError> {
    if !registry.authenticators@.contains(caller) {
        Some(MarketError::Auth(AuctionAuthError::AuthenticatorNotRecognized))
    } else if authentication.auction != auction_key {
        Some(MarketError::Auth(AuctionAuthError::InvalidAuthentication))
    } else if authentication.authenticator != caller {
        Some(MarketError::Auth(AuctionAuthError::AuthenticatorNotRecognized))
    } else {
        None
    }
}

/// The authentication record of a physical-asset auction belongs to the
/// auction at `auction_key` and mirrors its authentication status.
pub open spec fn authentication_mirrors(
    auction: Auction,
    auction_key: Pubkey,
    authentication: Authentication,
) -> bool {
    auction.asset_type == AssetType::PhysicalRWA ==> authentication.auction == auction_key
        && authentication.auth_status == auction.auth_status
}

/// Authentication is pending both on the auction and on its record.
pub open spec fn pending_on_both(auction: Auction, authentication: Authentication) -> bool {
    auction.auth_status == AuthStatus::Pending && authentication.auth_status
        == AuthStatus::Pending
}

fn check_authenticator(
    registry: &AuthenticatorsRegistry,
    authentication: &Authentication,
    auction_key: &Pubkey,
    caller: &Pubkey,
) -> (r: Result<(), MarketError>)
    ensures
        match authenticator_rejection(*registry, *authentication, *auction_key, *caller) {
            Some(e) => r == Err::<(), MarketError>(e),
            None => r is Ok,
        },
{
    if !contains_key(&registry.authenticators, caller) {
        return Err(MarketError::Auth(AuctionAuthError::AuthenticatorNotRecognized));
    }
    if authentication.auction != *auction_key {
        return Err(MarketError::Auth(AuctionAuthError::InvalidAuthentication));
    }
    if authentication.authenticator != *caller {
        return Err(MarketError::Auth(AuctionAuthError::AuthenticatorNotRecognized));
    }
    Ok(())
}

/// The records that uploading an authentication report reads and writes.
#[derive(Debug, Clone)]
pub struct UploadAuthDocument {
    /// The caller.
    pub authenticator: Pubkey,
    pub auction: Auction,
    /// The address of the auction record.
    pub auction_key: Pubkey,
    pub authentication: Authentication,
    pub registry: AuthenticatorsRegistry,
}

impl UploadAuthDocument {
    /// Why the upload is refused, checked in this order; `None` when it goes
    /// ahead.
    pub open spec fn upload_rejection(&self) -> Option<MarketError> {
        match authenticator_rejection(
            self.registry,
            self.authentication,
            self.auction_key,
            self.authenticator,
        ) {
            Some(e) => Some(e),
            None => if !pending_on_both(self.auction, self.authentication) {
                Some(MarketError::Auth(AuctionAuthError::NotPending))
            } else {
                None
            },
        }
    }

    /// Records the assigned authenticator's report on an auction whose
    /// authentication is pending (on the auction and on its record), stamped
    /// with `now`. On failure nothing
    /// changes.
    pub fn upload_auth_document(&mut self, report_hash: String, now: i64) -> (r: Result<
        (),
        MarketError,
    >)
        ensures
            match old(self).upload_rejection() {
                Some(e) => r == Err::<(), MarketError>(e) && *final(self) == *old(self),
                None => {
                    &&& r is Ok
                    &&& final(self).authentication == (Authentication {
                        report_hash,
                        uploaded_at: now,
                        ..old(self).authentication
                    })
                    &&& final(self).authenticator == old(self).authenticator
                    &&& final(self).auction == old(self).auction
                    &&& final(self).auction_key == old(self).auction_key
                    &&& final(self).registry == old(self).registry
                },
            },
            authentication_mirrors(old(self).auction, old(self).auction_key, old(self).authentication)
                ==> authentication_mirrors(
                final(self).auction,
                final(self).auction_key,
                final(self).authentication,
            ),
    {
        match check_authenticator(
            &self.registry,
            &self.authentication,
            &self.auction_key,
            &self.authenticator,
        ) {
            Err(e) => {
                return Err(e);
            },
            Ok(()) => {},
        }
        if self.auction.auth_status != AuthStatus::Pending || self.authentication.auth_status
            != AuthStatus::Pending {
            return Err(MarketError::Auth(AuctionAuthError::NotPending));
        }
        self.authentication.report_hash = report_hash;
        self.authentication.uploaded_at = now;
        Ok(())
    }
}

/// The records that an authentication verdict reads and writes.
#[derive(Debug, Clone)]
pub struct AttestAuthentication {
    /// The caller.
    pub authenticator: Pubkey,
    pub seller: Pubkey,
    pub auction: Auction,
    /// The address of the auction record.
    pub auction_key: Pubkey,
    pub authentication: Authentication,
    pub registry: AuthenticatorsRegistry,
}

impl AttestAuthentication {
    /// Why the verdict is refused, checked in this order; `None` when it
    /// goes ahead.
    pub open spec fn attest_rejection(&self) -> Option<MarketError> {
        match authenticator_rejection(
            self.registry,
            self.authentication,
            self.auction_key,
            self.authenticator,
        ) {
            Some(e) => Some(e),
            None => if !pending_on_both(self.auction, self.authentication) {
                Some(MarketError::Auth(AuctionAuthError::NotPending))
            } else if self.authentication.report_hash@.len() == 0 {
                Some(MarketError::Auth(AuctionAuthError::ReportNotUploaded))
            } else {
                None
            },
        }
    }

    /// The authentication status that a verdict leads to.
    pub open spec fn spec_verdict_status(approved: bool) -> AuthStatus {
        if approved {
            AuthStatus::Verified
        } else {
            AuthStatus::Rejected
        }
    }

    /// The auction once judged: Active when approved, Cancelled when
    /// rejected.
    pub open spec fn spec_judged_auction(&self, approved: bool) -> Auction {
        Auction {
            auth_status: Self::spec_verdict_status(approved),
            auction_status: if approved {
                AuctionStatus::Active
            } else {
                AuctionStatus::Cancelled
            },
            ..self.auction
        }
    }

    /// The assigned authenticator's verdict on a pending authentication whose
    /// report has been uploaded, stamped with `now`. Approval makes the
    /// auction Active; rejection cancels it. On failure nothing changes.
    pub fn attest_authentication(&mut self, approved: bool, now: i64) -> (r: Result<
        (),
        MarketError,
    >)
        ensures
            match old(self).attest_rejection() {
                Some(e) => r == Err::<(), MarketError>(e) && *final(self) == *old(self),
                None => {
                    &&& r is Ok
                    &&& final(self).authentication == (Authentication {
                        auth_status: Self::spec_verdict_status(approved),
                        verified_at: now,
                        ..old(self).authentication
                    })
                    &&& final(self).auction == old(self).spec_judged_auction(approved)
                    &&& final(self).authenticator == old(self).authenticator
                    &&& final(self).seller == old(self).seller
                    &&& final(self).auction_key == old(self).auction_key
                    &&& final(self).registry == old(self).registry
                },
            },
            authentication_mirrors(old(self).auction, old(self).auction_key, old(self).authentication)
                ==> authentication_mirrors(
                final(self).auction,
                final(self).auction_key,
                final(self).authentication,
            ),
    {
        match check_authenticator(
            &self.registry,
            &self.authentication,
            &self.auction_key,
            &self.authenticator,
        ) {
            Err(e) => {
                return Err(e);
            },
            Ok(()) => {},
        }
        if self.auction.auth_status != AuthStatus::Pending || self.authentication.auth_status
            != AuthStatus::Pending {
            return Err(MarketError::Auth(AuctionAuthError::NotPending));
        }
        if self.authentication.report_hash.as_str().is_empty() {
            return Err(MarketError::Auth(AuctionAuthError::ReportNotUploaded));
        }
        if approved {
            self.authentication.auth_status = AuthStatus::Verified;
            self.auction.auth_status = AuthStatus::Verified;
            self.auction.auction_status = AuctionStatus::Active;
        } else {
            self.authentication.auth_status = AuthStatus::Rejected;
            self.auction.auth_status = AuthStatus::Rejected;
            self.auction.auction_status = AuctionStatus::Cancelled;
        }
        self.authentication.verified_at = now;
        Ok(())
    }
}

} // verus!
