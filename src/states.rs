//! The persisted records: auctions, bids, authentications, the authenticator
//! directory, the platform configuration and per-seller bookkeeping.
use vstd::prelude::*;

use crate::pubkey::Pubkey;

verus! {

/// Lifecycle of an auction: Pending, then Active once biddable, then Ended,
/// then Settled; or Cancelled when authentication is rejected.
#[derive(Debug, Clone, Copy, PartialEq, Eq, Structural)]
pub enum AuctionStatus {
    Pending,
    Paused,
    Active,
    Ended,
    Settled,
    Cancelled,
    Failed,
}

/// What is being sold: a purely digital item, or a physical item that must be
/// authenticated before bidding opens.
#[derive(Debug, Clone, Copy, PartialEq, Eq, Structural)]
pub enum AssetType {
    DigitalNFT,
    PhysicalRWA,
}

/// Authentication state of an auction, mirrored on its authentication record.
#[derive(Debug, Clone, Copy, PartialEq, Eq, Structural)]
pub enum AuthStatus {
    NotRequired,
    Pending,
    Verified,
    Rejected,
}

/// One auction.
#[derive(Debug, Clone, Copy, PartialEq, Eq, Structural)]
pub struct Auction {
    pub seller: Pubkey,
    pub nft_mint: Pubkey,
    pub item_vault: Pubkey,
    pub asset_type: AssetType,
    pub starting_bid: u64,
    pub reserved_price: u64,
    pub highest_bid: u64,
    pub highest_bidder: Pubkey,
    pub accepted_token: Pubkey,
    pub start_date: i64,
    pub end_date: i64,
    pub auction_status: AuctionStatus,
    pub auth_status: AuthStatus,
    pub bump: u8,
}

/// The authentication record of a physical-asset auction.
#[derive(Debug, Clone)]
pub struct Authentication {
    pub auction: Pubkey,
    pub auth_status: AuthStatus,
    pub authenticator: Pubkey,
    pub seller: Pubkey,
    /// Reference to the seller's evidence about the item.
    pub metadata_hash: String,
    /// Reference to the authenticator's report; empty until uploaded.
    pub report_hash: String,
    pub uploaded_at: i64,
    pub verified_at: i64,
    pub fee_amount: u64,
    pub fee_paid: bool,
    pub bump: u8,
}

/// The approved authenticators and the round-robin cursor over them.
#[derive(Debug, Clone)]
pub struct AuthenticatorsRegistry {
    pub admin: Pubkey,
    pub authenticators: Vec<Pubkey>,
    pub next_index: u64,
    pub bump: u8,
}

/// One bidder's standing bid on one auction. `amount` is the total held in
/// the bid's escrow: top-ups add to it.
#[derive(Debug, Clone, Copy, PartialEq, Eq, Structural)]
pub struct Bid {
    pub bidder: Pubkey,
    pub amount: u64,
    pub auction: Pubkey,
    pub token_mint: Pubkey,
    pub time_stamp: i64,
    pub is_active: bool,
    pub is_winner: bool,
    pub bump: u8,
}

/// Platform-wide settings.
#[derive(Debug, Clone, Copy, PartialEq, Eq, Structural)]
pub struct PlatformConfig {
    pub admin: Pubkey,
    /// Platform fee in basis points of the winning bid.
    pub platform_fee_bps: u16,
    pub treasury_usdc: Pubkey,
    pub treasury_sol: Pubkey,
    /// Authenticator fee in basis points of the winning bid.
    pub auth_fee_bps: u16,
    pub is_paused: bool,
    pub min_auction_duration: i64,
    pub max_auction_duration: i64,
    pub bump: u8,
}

/// Per-seller bookkeeping: the count of auctions the seller has created.
#[derive(Debug, Clone, Copy, PartialEq, Eq, Structural)]
pub struct SellerState {
    pub seller: Pubkey,
    pub auction_count: u64,
    pub bump: u8,
}

impl Bid {
    /// A closed or never-opened bid record: every field zero.
    pub open spec fn spec_vacant() -> Bid {
        Bid {
            bidder: Pubkey::spec_zeroed(),
            amount: 0,
            auction: Pubkey::spec_zeroed(),
            token_mint: Pubkey::spec_zeroed(),
            time_stamp: 0,
            is_active: false,
            is_winner: false,
            bump: 0,
        }
    }

    pub fn vacant() -> (b: Bid)
        ensures
            b == Bid::spec_vacant(),
    {
        Bid {
            bidder: Pubkey::zeroed(),
            amount: 0,
            auction: Pubkey::zeroed(),
            token_mint: Pubkey::zeroed(),
            time_stamp: 0,
            is_active: false,
            is_winner: false,
            bump: 0,
        }
    }
}

} // verus!
