//! Creating an auction, and closing it once its end date has passed.
use vstd::prelude::*;

use crate::authentication::authentication_mirrors;
use crate::errors::{AuctionAuthError, AuctionError, MarketError};
use crate::pubkey::Pubkey;
use crate::states::{
    AssetType, Auction, AuctionStatus, AuthStatus, Authentication, AuthenticatorsRegistry,
    SellerState,
};

verus! {

/// Record-derivation salts of the records that creation writes.
#[derive(Debug, Clone, Copy, PartialEq, Eq, Structural)]
pub struct CreateAuctionBumps {
    pub seller_state: u8,
    pub auction: u8,
    pub authentication: u8,
}

/// The records that creating an auction reads and writes.
#[derive(Debug, Clone)]
pub struct CreateAuction {
    /// The caller, who sells the item.
    pub seller: Pubkey,
    pub seller_state: SellerState,
    /// The new auction's record.
    pub auction: Auction,
    /// The address of the new auction's record.
    pub auction_key: Pubkey,
    pub nft_mint: Pubkey,
    pub item_vault: Pubkey,
    /// The new auction's authentication record; written for a physical asset
    /// only.
    pub authentication: Authentication,
    pub registry: AuthenticatorsRegistry,
}

impl CreateAuction {
    /// Why creation is refused, checked in this order; `None` when it goes
    /// ahead.
    pub open spec fn creation_rejection(
        &self,
        starting_bid: u64,
        reserved_price: u64,
        start_date: i64,
        end_date: i64,
        asset_type: AssetType,
        now: i64,
    ) -> Option<MarketError> {
        if start_date <= now {
            Some(MarketError::Auction(AuctionError::StartDateIsBehind))
        } else if end_date <= start_date {
            Some(MarketError::Auction(AuctionError::EndDateIsBehindStartDate))
        } else if reserved_price <= starting_bid {
            Some(MarketError::Auction(AuctionError::ReservedPriceTooLow))
        } else if asset_type == AssetType::PhysicalRWA && self.registry.authenticators@.len()
            == 0 {
            Some(MarketError::Auth(AuctionAuthError::NoAuthenticatorAvailable))
        } else {
            None
        }
    }

    /// The new auction: Pending, with no bid yet; its authentication is
    /// pending for a physical asset and not required for a digital one.
    pub open spec fn spec_new_auction(
        &self,
        accepted_token: Pubkey,
        starting_bid: u64,
        reserved_price: u64,
        start_date: i64,
        end_date: i64,
        asset_type: AssetType,
        bump: u8,
    ) -> Auction {
        Auction {
            seller: self.seller,
            nft_mint: self.nft_mint,
            item_vault: self.item_vault,
            asset_type,
            starting_bid,
            reserved_price,
            highest_bid: 0,
            highest_bidder: Pubkey::spec_zeroed(),
            accepted_token,
            start_date,
            end_date,
            auction_status: AuctionStatus::Pending,
            auth_status: if asset_type == AssetType::DigitalNFT {
                AuthStatus::NotRequired
            } else {
                AuthStatus::Pending
            },
            bump,
        }
    }

    /// The seller's bookkeeping after one more auction.
    pub open spec fn spec_counted_seller_state(&self, bump: u8) -> SellerState {
        if self.seller_state.auction_count == 0 {
            SellerState { seller: self.seller, auction_count: 1, bump }
        } else {
            SellerState {
                auction_count: (self.seller_state.auction_count + 1) as u64,
                ..self.seller_state
            }
        }
    }

    /// Lists an item for auction. The start date must lie after `now`, the
    /// end date after the start date, and the reserved price above the
    /// starting bid. For a physical asset the directory assigns an
    /// authenticator, and the authentication record is opened as pending with
    /// the seller's evidence reference. On failure nothing changes.
    pub fn create(
        &mut self,
        accepted_token: Pubkey,
        starting_bid: u64,
        reserved_price: u64,
        start_date: i64,
        end_date: i64,
        asset_type: AssetType,
        bumps: &CreateAuctionBumps,
        document_hash: Option<String>,
        now: i64,
    ) -> (r: Result<(), MarketError>)
        requires
            old(self).creation_rejection(
                starting_bid,
                reserved_price,
                start_date,
                end_date,
                asset_type,
                now,
            ) is None ==> old(self).seller_state.auction_count < u64::MAX,
        ensures
            match old(self).creation_rejection(
                starting_bid,
                reserved_price,
                start_date,
                end_date,
                asset_type,
                now,
            ) {
                Some(e) => r == Err::<(), MarketError>(e) && *final(self) == *old(self),
                None => {
                    &&& r is Ok
                    &&& final(self).auction == old(self).spec_new_auction(
                        accepted_token,
                        starting_bid,
                        reserved_price,
                        start_date,
                        end_date,
                        asset_type,
                        bumps.auction,
                    )
                    &&& final(self).seller_state == old(self).spec_counted_seller_state(
                        bumps.seller_state,
                    )
                    &&& final(self).seller == old(self).seller
                    &&& final(self).auction_key == old(self).auction_key
                    &&& final(self).nft_mint == old(self).nft_mint
                    &&& final(self).item_vault == old(self).item_vault
                    &&& if asset_type == AssetType::PhysicalRWA {
                        let a = final(self).authentication;
                        &&& a.auction == old(self).auction_key
                        &&& a.auth_status == AuthStatus::Pending
                        &&& a.authenticator == old(self).registry.spec_assigned()
                        &&& a.seller == old(self).seller
                        &&& a.metadata_hash@ == match document_hash {
                            Some(h) => h@,
                            None => Seq::<char>::empty(),
                        }
                        &&& a.report_hash@ == Seq::<char>::empty()
                        &&& a.uploaded_at == 0
                        &&& a.verified_at == 0
                        &&& a.fee_amount == 0
                        &&& !a.fee_paid
                        &&& a.bump == bumps.authentication
                        &&& final(self).registry.next_index
                            == old(self).registry.spec_advanced_cursor()
                        &&& final(self).registry.authenticators@
                            == old(self).registry.authenticators@
                        &&& final(self).registry.admin == old(self).registry.admin
                        &&& final(self).registry.bump == old(self).registry.bump
                    } else {
                        &&& final(self).authentication == old(self).authentication
                        &&& final(self).registry == old(self).registry
                    }
                },
            },
            r is Ok ==> authentication_mirrors(
                final(self).auction,
                final(self).auction_key,
                final(self).authentication,
            ),
    {
        if start_date <= now {
            return Err(MarketError::Auction(AuctionError::StartDateIsBehind));
        }
        if end_date <= start_date {
            return Err(MarketError::Auction(AuctionError::EndDateIsBehindStartDate));
        }
        if reserved_price <= starting_bid {
            return Err(MarketError::Auction(AuctionError::ReservedPriceTooLow));
        }
        if asset_type == AssetType::PhysicalRWA {
            let authenticator = match self.registry.assign() {
                Ok(k) => k,
                Err(e) => {
                    return Err(e);
                },
            };
            self.authentication.auction = self.auction_key;
            self.authentication.authenticator = authenticator;
            self.authentication.seller = self.seller;
            self.authentication.auth_status = AuthStatus::Pending;
            self.authentication.report_hash = String::new();
            self.authentication.metadata_hash = match document_hash {
                Some(h) => h,
                None => String::new(),
            };
            self.authentication.uploaded_at = 0;
            self.authentication.verified_at = 0;
            self.authentication.fee_amount = 0;
            self.authentication.fee_paid = false;
            self.authentication.bump = bumps.authentication;
        }
        if self.seller_state.auction_count == 0 {
            self.seller_state.seller = self.seller;
            self.seller_state.bump = bumps.seller_state;
        }
        self.seller_state.auction_count = self.seller_state.auction_count + 1;
        let auth_status = if asset_type == AssetType::DigitalNFT {
            AuthStatus::NotRequired
        } else {
            AuthStatus::Pending
        };
        self.auction = Auction {
            seller: self.seller,
            nft_mint: self.nft_mint,
            item_vault: self.item_vault,
            asset_type,
            starting_bid,
            reserved_price,
            highest_bid: 0,
            highest_bidder: Pubkey::zeroed(),
            accepted_token,
            start_date,
            end_date,
            auction_status: AuctionStatus::Pending,
            auth_status,
            bump: bumps.auction,
        };
        Ok(())
    }
}

/// The record that closing an auction writes.
#[derive(Debug, Clone, Copy, PartialEq, Eq, Structural)]
pub struct EndAuction {
    pub seller: Pubkey,
    pub auction: Auction,
}

impl EndAuction {
    /// Why closing is refused; `None` when it goes ahead or has already
    /// happened.
    pub open spec fn end_rejection(&self, now: i64) -> Option<MarketError> {
        if self.auction.auction_status == AuctionStatus::Ended {
            None
        } else if self.auction.auction_status != AuctionStatus::Active || now
            < self.auction.end_date {
            Some(MarketError::Auction(AuctionError::AuctionNotEnded))
        } else {
            None
        }
    }

    /// Closes an active auction whose end date has been reached by `now`.
    /// Closing an auction that has already ended succeeds and changes
    /// nothing.
    pub fn end_auction(&mut self, now: i64) -> (r: Result<(), MarketError>)
        ensures
            match old(self).end_rejection(now) {
                Some(e) => r == Err::<(), MarketError>(e) && *final(self) == *old(self),
                None => r is Ok && *final(self) == (EndAuction {
                    auction: Auction { auction_status: AuctionStatus::Ended, ..old(self).auction },
                    ..*old(self)
                }),
            },
            old(self).auction.auction_status == AuctionStatus::Ended ==> r is Ok && *final(self)
                == *old(self),
    {
        if self.auction.auction_status == AuctionStatus::Ended {
            return Ok(());
        }
        if self.auction.auction_status != AuctionStatus::Active {
            return Err(MarketError::Auction(AuctionError::AuctionNotEnded));
        }
        if now < self.auction.end_date {
            return Err(MarketError::Auction(AuctionError::AuctionNotEnded));
        }
        self.auction.auction_status = AuctionStatus::Ended;
        Ok(())
    }
}

} // verus!
