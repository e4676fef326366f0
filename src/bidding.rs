//! The bid ledger: placing and topping up bids, and withdrawing losing bids
//! once the auction has ended.
use vstd::prelude::*;

use crate::errors::{AuctionError, BidError, MarketError};
use crate::pubkey::Pubkey;
use crate::states::{Auction, AuctionStatus, Bid};

verus! {

/// Record-derivation salt of a new bid record.
#[derive(Debug, Clone, Copy, PartialEq, Eq, Structural)]
pub struct PlaceBidBumps {
    pub bid: u8,
}

/// The records that placing a bid reads and writes.
#[derive(Debug, Clone, Copy, PartialEq, Eq, Structural)]
pub struct PlaceBid {
    /// The caller.
    pub bidder: Pubkey,
    /// The bidder's bid record on this auction: vacant before the first bid.
    pub bid: Bid,
    pub auction: Auction,
    /// The address of the auction record.
    pub auction_key: Pubkey,
    /// The mint of the currency the bid is paid in.
    pub token_mint: Pubkey,
}

impl PlaceBid {
    /// The bidder's total once `amount` is added: a standing bid is topped
    /// up, otherwise `amount` opens a new one.
    pub open spec fn spec_new_total(&self, amount: u64) -> int {
        if self.bid.is_active {
            self.bid.amount + amount
        } else {
            amount as int
        }
    }

    /// A standing bid is the record of this bidder on this auction.
    pub open spec fn bid_matches(&self) -> bool {
        self.bid.is_active ==> self.bid.bidder == self.bidder && self.bid.auction
            == self.auction_key
    }

    /// Why the bid is refused, checked in this order; `None` when it is
    /// accepted.
    pub open spec fn bid_rejection(&self, amount: u64) -> Option<MarketError> {
        if self.auction.auction_status != AuctionStatus::Active {
            Some(MarketError::Bid(BidError::AuctionNotAvailable))
        } else if self.token_mint != self.auction.accepted_token {
            Some(MarketError::Bid(BidError::WrongToken))
        } else if !self.bid_matches() {
            Some(MarketError::Bid(BidError::BidMismatch))
        } else if self.spec_new_total(amount) > u64::MAX {
            Some(MarketError::Bid(BidError::TotalOverflow))
        } else if self.spec_new_total(amount) <= self.auction.highest_bid {
            Some(MarketError::Bid(BidError::BidTooLow))
        } else {
            None
        }
    }

    /// The bid record once `amount` is accepted at `now`.
    pub open spec fn spec_placed_bid(&self, amount: u64, bump: u8, now: i64) -> Bid {
        if self.bid.is_active {
            Bid { amount: self.spec_new_total(amount) as u64, time_stamp: now, ..self.bid }
        } else {
            Bid {
                bidder: self.bidder,
                amount,
                auction: self.auction_key,
                token_mint: self.token_mint,
                time_stamp: now,
                is_active: true,
                is_winner: false,
                bump,
            }
        }
    }

    /// The auction once `amount` is accepted: the bidder leads with their
    /// new total.
    pub open spec fn spec_outbid_auction(&self, amount: u64) -> Auction {
        Auction {
            highest_bid: self.spec_new_total(amount) as u64,
            highest_bidder: self.bidder,
            ..self.auction
        }
    }

    /// Bids `amount` more on an active auction, in the auction's currency.
    /// The bidder's total (their standing bid plus `amount`, or `amount`
    /// alone for a first bid) must exceed the highest bid; it then becomes
    /// the highest bid. A standing bid must be this bidder's record on this
    /// auction, and the total must fit in a token amount. `amount` is what
    /// the caller moves into the bid's escrow. On failure nothing changes.
    pub fn place_bid(&mut self, amount: u64, bumps: &PlaceBidBumps, now: i64) -> (r: Result<
        (),
        MarketError,
    >)
        ensures
            match old(self).bid_rejection(amount) {
                Some(e) => r == Err::<(), MarketError>(e) && *final(self) == *old(self),
                None => r is Ok && *final(self) == (PlaceBid {
                    bid: old(self).spec_placed_bid(amount, bumps.bid, now),
                    auction: old(self).spec_outbid_auction(amount),
                    ..*old(self)
                }),
            },
            r is Ok ==> final(self).auction.highest_bid > old(self).auction.highest_bid,
            r is Ok ==> {
                &&& final(self).auction.highest_bid == final(self).bid.amount
                &&& final(self).auction.highest_bidder == old(self).bidder
                &&& final(self).bid.bidder == old(self).bidder
                &&& final(self).bid.auction == old(self).auction_key
                &&& final(self).bid.is_active
            },
            old(self).spec_new_total(amount) <= old(self).auction.highest_bid ==> r is Err
                && *final(self) == *old(self),
    {
        if self.auction.auction_status != AuctionStatus::Active {
            return Err(MarketError::Bid(BidError::AuctionNotAvailable));
        }
        if self.token_mint != self.auction.accepted_token {
            return Err(MarketError::Bid(BidError::WrongToken));
        }
        if self.bid.is_active {
            if self.bid.bidder != self.bidder || self.bid.auction != self.auction_key {
                return Err(MarketError::Bid(BidError::BidMismatch));
            }
            if amount > u64::MAX - self.bid.amount {
                return Err(MarketError::Bid(BidError::TotalOverflow));
            }
            let new_total = self.bid.amount + amount;
            if new_total <= self.auction.highest_bid {
                return Err(MarketError::Bid(BidError::BidTooLow));
            }
            self.bid.amount = new_total;
            self.bid.time_stamp = now;
        } else {
            if amount <= self.auction.highest_bid {
                return Err(MarketError::Bid(BidError::BidTooLow));
            }
            self.bid = Bid {
                bidder: self.bidder,
                amount,
                auction: self.auction_key,
                token_mint: self.token_mint,
                time_stamp: now,
                is_active: true,
                is_winner: false,
                bump: bumps.bid,
            };
        }
        self.auction.highest_bid = self.bid.amount;
        self.auction.highest_bidder = self.bidder;
        Ok(())
    }
}

/// The records that withdrawing a bid reads and writes.
#[derive(Debug, Clone, Copy, PartialEq, Eq, Structural)]
pub struct WithdrawBid {
    /// The caller.
    pub bidder: Pubkey,
    pub seller: Pubkey,
    pub auction: Auction,
    /// The address of the auction record.
    pub auction_key: Pubkey,
    /// The bidder's bid record on this auction.
    pub bid: Bid,
}

impl WithdrawBid {
    /// Why the withdrawal is refused, checked in this order; `None` when it
    /// goes ahead.
    pub open spec fn withdraw_rejection(&self) -> Option<MarketError> {
        if self.auction.auction_status != AuctionStatus::Ended || self.auction.highest_bidder
            == self.bidder {
            Some(MarketError::Bid(BidError::StillWinning))
        } else if !self.bid.is_active {
            Some(MarketError::Auction(AuctionError::BidNotActive))
        } else if self.bid.bidder != self.bidder || self.bid.auction != self.auction_key {
            Some(MarketError::Bid(BidError::BidMismatch))
        } else {
            None
        }
    }

    /// Closes a losing bid, this bidder's record on this auction, on an ended
    /// auction. Returns the bid's whole
    /// escrowed amount, which the caller releases to the bidder; the bid
    /// record becomes vacant. The highest bidder cannot withdraw. On failure
    /// nothing changes.
    pub fn withdraw_bid(&mut self) -> (r: Result<u64, MarketError>)
        ensures
            match old(self).withdraw_rejection() {
                Some(e) => r == Err::<u64, MarketError>(e) && *final(self) == *old(self),
                None => r == Ok::<u64, MarketError>(old(self).bid.amount) && *final(self) == (
                WithdrawBid { bid: Bid::spec_vacant(), ..*old(self) }),
            },
    {
        if self.auction.auction_status != AuctionStatus::Ended || self.auction.highest_bidder
            == self.bidder {
            return Err(MarketError::Bid(BidError::StillWinning));
        }
        if !self.bid.is_active {
            return Err(MarketError::Auction(AuctionError::BidNotActive));
        }
        if self.bid.bidder != self.bidder || self.bid.auction != self.auction_key {
            return Err(MarketError::Bid(BidError::BidMismatch));
        }
        let refund = self.bid.amount;
        self.bid = Bid::vacant();
        Ok(refund)
    }
}

} // verus!
