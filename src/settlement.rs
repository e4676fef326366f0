//! The terminal operation: paying out a won auction.
use vstd::prelude::*;

use crate::authentication::authentication_mirrors;
use crate::errors::{AuctionAuthError, AuctionError, BidError, ConfigError, MarketError};
use crate::pubkey::Pubkey;
use crate::states::{AssetType, Auction, AuctionStatus, Authentication, Bid, PlatformConfig};

verus! {

/// Basis points in a whole: 10000 bps is 100%.
pub const BPS_DENOMINATOR: u64 = 10000;

/// The fee of `bps` basis points on `price`, rounded down.
pub open spec fn fee_of(price: u64, bps: u16) -> int {
    (price as int * bps as int) / (BPS_DENOMINATOR as int)
}

/// The fee of `bps` basis points on `price`, rounded down, computed in a
/// 128-bit intermediate.
pub fn fee_amount(price: u64, bps: u16) -> (fee: u64)
    requires
        bps <= BPS_DENOMINATOR,
    ensures
        fee == fee_of(price, bps),
        fee <= price,
{
    let p: u128 = price as u128;
    let b: u128 = bps as u128;
    assert(p * b <= 0xffff_ffff_ffff_ffffu128 * 10000) by (nonlinear_arith)
        requires
            p <= 0xffff_ffff_ffff_ffffu128,
            b <= 10000,
    ;
    let fee: u128 = p * b / 10000;
    assert(fee <= p) by (nonlinear_arith)
        requires
            fee == p * b / 10000,
            b <= 10000,
    ;
    fee as u64
}

/// The payouts of a settlement, in token units of the auction's currency.
#[derive(Debug, Clone, Copy, PartialEq, Eq, Structural)]
pub struct Settlement {
    /// The winning bid, taken from escrow.
    pub final_price: u64,
    /// Paid to the platform treasury.
    pub platform_fee: u64,
    /// Owed to the authenticator; zero for a digital asset.
    pub auth_fee: u64,
    /// Paid to the seller: what remains of the price after the fees.
    pub seller_amount: u64,
    /// Whether the authenticator fee is paid out now, to the authenticator's
    /// account given with the settlement.
    pub pays_authenticator: bool,
}

/// The records a settlement reads and writes.
#[derive(Debug, Clone)]
pub struct SettleAuction {
    /// The caller, who must hold the highest bid.
    pub winner: Pubkey,
    pub seller: Pubkey,
    pub auction: Auction,
    /// The address of the auction record.
    pub auction_key: Pubkey,
    /// The winner's bid on the auction.
    pub bid: Bid,
    /// The auction's authentication record, where one is linked.
    pub authentication: Option<Authentication>,
    pub platform_config: PlatformConfig,
    /// The account that is to receive the platform fee.
    pub treasury: Pubkey,
    /// The mint of that account.
    pub treasury_mint: Pubkey,
    /// The mint of the authenticator's token account, where one is given.
    pub authenticator_token_mint: Option<Pubkey>,
    /// The mint of the currency paid out.
    pub token_mint: Pubkey,
}

impl SettleAuction {
    /// Why settlement is refused, checked in this order; `None` when it
    /// goes ahead.
    pub open spec fn settle_rejection(&self) -> Option<MarketError> {
        if self.auction.auction_status != AuctionStatus::Ended {
            Some(MarketError::Auction(AuctionError::AuctionNotEnded))
        } else if self.winner != self.auction.highest_bidder {
            Some(MarketError::Auction(AuctionError::NotWinner))
        } else if self.auction.highest_bid < self.auction.reserved_price {
            Some(MarketError::Auction(AuctionError::ReserveNotMet))
        } else if !self.bid.is_active {
            Some(MarketError::Auction(AuctionError::BidNotActive))
        } else if self.bid.bidder != self.winner || self.bid.auction != self.auction_key {
            Some(MarketError::Bid(BidError::BidMismatch))
        } else if !self.treasury_matches() {
            Some(MarketError::Auction(AuctionError::InvalidTreasury))
        } else if self.authentication is Some && self.authentication->0.auction
            != self.auction_key {
            Some(MarketError::Auth(AuctionAuthError::InvalidAuthentication))
        } else if self.authenticator_token_mint is Some && self.authenticator_token_mint->0
            != self.token_mint {
            Some(MarketError::Auction(AuctionError::WrongToken))
        } else if !self.fees_within_price() {
            Some(MarketError::Config(ConfigError::FeeTooHigh))
        } else {
            None
        }
    }

    /// The fee destination is a configured platform treasury that holds the
    /// auction's currency.
    pub open spec fn treasury_matches(&self) -> bool {
        &&& (self.treasury == self.platform_config.treasury_usdc || self.treasury
            == self.platform_config.treasury_sol)
        &&& self.treasury_mint == self.auction.accepted_token
    }

    pub open spec fn is_physical(&self) -> bool {
        self.auction.asset_type == AssetType::PhysicalRWA
    }

    /// The fee rates that apply to this auction add up to at most 100%.
    pub open spec fn fees_within_price(&self) -> bool {
        self.platform_config.platform_fee_bps as int + (if self.is_physical() {
            self.platform_config.auth_fee_bps as int
        } else {
            0
        }) <= BPS_DENOMINATOR as int
    }

    pub open spec fn spec_platform_fee(&self) -> int {
        fee_of(self.auction.highest_bid, self.platform_config.platform_fee_bps)
    }

    pub open spec fn spec_auth_fee(&self) -> int {
        if self.is_physical() {
            fee_of(self.auction.highest_bid, self.platform_config.auth_fee_bps)
        } else {
            0
        }
    }

    /// The authenticator is paid now for a physical asset whose
    /// authenticator account was given.
    pub open spec fn spec_pays_authenticator(&self) -> bool {
        self.is_physical() && self.authenticator_token_mint is Some
    }

    pub open spec fn spec_settlement(&self) -> Settlement {
        Settlement {
            final_price: self.auction.highest_bid,
            platform_fee: self.spec_platform_fee() as u64,
            auth_fee: self.spec_auth_fee() as u64,
            seller_amount: (self.auction.highest_bid - self.spec_platform_fee()
                - self.spec_auth_fee()) as u64,
            pays_authenticator: self.spec_pays_authenticator(),
        }
    }

    /// The auction once settled.
    pub open spec fn settled_auction(&self) -> Auction {
        Auction { auction_status: AuctionStatus::Settled, ..self.auction }
    }

    /// The winning bid once settled: closed, and marked as the winner.
    pub open spec fn settled_bid(&self) -> Bid {
        Bid { is_active: false, is_winner: true, ..self.bid }
    }

    /// Pays out the winning bid of an ended auction. The caller must hold
    /// the highest bid, which must meet the reserve; the bid record must be
    /// the winner's on this auction; the fee must go to the platform treasury
    /// that holds the auction's currency; and the fee rates that apply must
    /// add up to at most 100%. The seller receives the price less the
    /// platform fee and, for a physical asset, the authenticator fee; the
    /// winner's bid is closed and the auction becomes Settled. Where the authenticator is paid now, its authentication
    /// record notes the fee as paid. On failure nothing changes.
    pub fn settle_auction(&mut self) -> (r: Result<Settlement, MarketError>)
        ensures
            match old(self).settle_rejection() {
                Some(e) => r == Err::<Settlement, MarketError>(e) && *final(self) == *old(self),
                None => {
                    &&& r == Ok::<Settlement, MarketError>(old(self).spec_settlement())
                    &&& final(self).auction == old(self).settled_auction()
                    &&& final(self).bid == old(self).settled_bid()
                    &&& if old(self).spec_pays_authenticator() && old(self).authentication is Some {
                        &&& final(self).authentication is Some
                        &&& final(self).authentication->0.fee_amount
                            == old(self).spec_auth_fee()
                        &&& final(self).authentication->0.fee_paid
                        &&& final(self).authentication->0.auction
                            == old(self).authentication->0.auction
                        &&& final(self).authentication->0.auth_status
                            == old(self).authentication->0.auth_status
                        &&& final(self).authentication->0.authenticator
                            == old(self).authentication->0.authenticator
                    } else {
                        final(self).authentication == old(self).authentication
                    }
                    &&& final(self).winner == old(self).winner
                    &&& final(self).seller == old(self).seller
                    &&& final(self).auction_key == old(self).auction_key
                    &&& final(self).platform_config == old(self).platform_config
                    &&& final(self).treasury == old(self).treasury
                    &&& final(self).treasury_mint == old(self).treasury_mint
                    &&& final(self).authenticator_token_mint == old(self).authenticator_token_mint
                    &&& final(self).token_mint == old(self).token_mint
                },
            },
            r matches Ok(s) ==> s.platform_fee + s.auth_fee + s.seller_amount == s.final_price,
            r is Ok ==> old(self).auction.auction_status == AuctionStatus::Ended,
            old(self).authentication is Some && authentication_mirrors(
                old(self).auction,
                old(self).auction_key,
                old(self).authentication->0,
            ) ==> final(self).authentication is Some && authentication_mirrors(
                final(self).auction,
                final(self).auction_key,
                final(self).authentication->0,
            ),
    {
        if self.auction.auction_status != AuctionStatus::Ended {
            return Err(MarketError::Auction(AuctionError::AuctionNotEnded));
        }
        if self.winner != self.auction.highest_bidder {
            return Err(MarketError::Auction(AuctionError::NotWinner));
        }
        if self.auction.highest_bid < self.auction.reserved_price {
            return Err(MarketError::Auction(AuctionError::ReserveNotMet));
        }
        if !self.bid.is_active {
            return Err(MarketError::Auction(AuctionError::BidNotActive));
        }
        if self.bid.bidder != self.winner || self.bid.auction != self.auction_key {
            return Err(MarketError::Bid(BidError::BidMismatch));
        }
        if (self.treasury != self.platform_config.treasury_usdc && self.treasury
            != self.platform_config.treasury_sol) || self.treasury_mint
            != self.auction.accepted_token {
            return Err(MarketError::Auction(AuctionError::InvalidTreasury));
        }
        match &self.authentication {
            Some(auth) => {
                if auth.auction != self.auction_key {
                    return Err(MarketError::Auth(AuctionAuthError::InvalidAuthentication));
                }
            },
            None => {},
        }
        match &self.authenticator_token_mint {
            Some(mint) => {
                if *mint != self.token_mint {
                    return Err(MarketError::Auction(AuctionError::WrongToken));
                }
            },
            None => {},
        }
        let physical = self.auction.asset_type == AssetType::PhysicalRWA;
        let auth_bps: u32 = if physical {
            self.platform_config.auth_fee_bps as u32
        } else {
            0
        };
        if self.platform_config.platform_fee_bps as u32 + auth_bps > BPS_DENOMINATOR as u32 {
            return Err(MarketError::Config(ConfigError::FeeTooHigh));
        }
        let winning_bid = self.auction.highest_bid;
        let platform_fee = fee_amount(winning_bid, self.platform_config.platform_fee_bps);
        let auth_fee: u64 = if physical {
            fee_amount(winning_bid, self.platform_config.auth_fee_bps)
        } else {
            0
        };
        assert(platform_fee + auth_fee <= winning_bid) by {
            let hb = winning_bid as int;
            let pb = self.platform_config.platform_fee_bps as int;
            let ab = if physical { self.platform_config.auth_fee_bps as int } else { 0 };
            assert((hb * pb) / 10000 + (hb * ab) / 10000 <= hb) by (nonlinear_arith)
                requires
                    hb >= 0,
                    pb >= 0,
                    ab >= 0,
                    pb + ab <= 10000,
            ;
        }
        let seller_amount = winning_bid - platform_fee - auth_fee;
        let pays_authenticator = physical && self.authenticator_token_mint.is_some();
        if pays_authenticator {
            match &mut self.authentication {
                Some(auth) => {
                    auth.fee_amount = auth_fee;
                    auth.fee_paid = true;
                },
                None => {},
            }
        }
        self.bid.is_active = false;
        self.bid.is_winner = true;
        self.auction.auction_status = AuctionStatus::Settled;
        Ok(
            Settlement {
                final_price: winning_bid,
                platform_fee,
                auth_fee,
                seller_amount,
                pays_authenticator,
            },
        )
    }
}

} // verus!
