//! The bid ledger of one auction as a whole: the auction record together with
//! every bidder's bid record on it, keyed by bidder. Until the auction is
//! settled, the auction's highest bid is the escrowed total of the highest
//! bidder's active bid, or zero when that bidder holds none; each operation
//! keeps this so, together with the agreement of an auction's
//! authentication status with its asset type and lifecycle.
use vstd::prelude::*;

use crate::auction::{CreateAuction, EndAuction};
use crate::authentication::{AttestAuthentication, UploadAuthDocument};
use crate::bidding::{PlaceBid, WithdrawBid};
use crate::pubkey::Pubkey;
use crate::settlement::SettleAuction;
use crate::states::{AssetType, Auction, AuctionStatus, AuthStatus, Bid};

verus! {

/// The record of `who` in `bids`: vacant when there is none.
pub open spec fn bid_slot(bids: Map<Pubkey, Bid>, who: Pubkey) -> Bid {
    if bids.contains_key(who) {
        bids[who]
    } else {
        Bid::spec_vacant()
    }
}

/// Whether `who` holds an active bid in `bids`.
pub open spec fn has_active_bid(bids: Map<Pubkey, Bid>, who: Pubkey) -> bool {
    bids.contains_key(who) && bids[who].is_active
}

/// Every active bid is filed under its own bidder, and, unless the auction
/// is settled, its highest bid is the amount of the highest bidder's active
/// bid, or zero when that bidder holds none. Besides, authentication is not
/// required exactly for a digital asset, and an auction whose authentication
/// is pending is itself pending.
pub open spec fn ledger_consistent(auction: Auction, bids: Map<Pubkey, Bid>) -> bool {
    &&& (auction.auth_status == AuthStatus::NotRequired <==> auction.asset_type
        == AssetType::DigitalNFT)
    &&& auction.auth_status == AuthStatus::Pending ==> auction.auction_status
        == AuctionStatus::Pending
    &&& forall|k: Pubkey| #[trigger]
        bids.contains_key(k) && bids[k].is_active ==> bids[k].bidder == k
    &&& auction.auction_status != AuctionStatus::Settled ==> if has_active_bid(
        bids,
        auction.highest_bidder,
    ) {
        auction.highest_bid == bids[auction.highest_bidder].amount
    } else {
        auction.highest_bid == 0
    }
}

/// A newly created auction, which has no bids yet, is consistent.
pub proof fn lemma_created_ledger_consistent(
    ctx: CreateAuction,
    accepted_token: Pubkey,
    starting_bid: u64,
    reserved_price: u64,
    start_date: i64,
    end_date: i64,
    asset_type: AssetType,
    bump: u8,
)
    ensures
        ledger_consistent(
            ctx.spec_new_auction(
                accepted_token,
                starting_bid,
                reserved_price,
                start_date,
                end_date,
                asset_type,
                bump,
            ),
            Map::empty(),
        ),
{
}

/// An accepted bid keeps the ledger consistent.
pub proof fn lemma_place_bid_keeps_ledger(
    ctx: PlaceBid,
    bids: Map<Pubkey, Bid>,
    amount: u64,
    bump: u8,
    now: i64,
)
    requires
        ledger_consistent(ctx.auction, bids),
        ctx.bid == bid_slot(bids, ctx.bidder),
        ctx.bid_rejection(amount) is None,
    ensures
        ledger_consistent(
            ctx.spec_outbid_auction(amount),
            bids.insert(ctx.bidder, ctx.spec_placed_bid(amount, bump, now)),
        ),
{
    let after = bids.insert(ctx.bidder, ctx.spec_placed_bid(amount, bump, now));
    assert forall|k: Pubkey| #[trigger]
        after.contains_key(k) && after[k].is_active implies after[k].bidder == k by {
        if k != ctx.bidder {
            assert(bids.contains_key(k) && bids[k] == after[k]);
        }
    }
    assert(has_active_bid(after, ctx.bidder));
}

/// Withdrawing a losing bid keeps the ledger consistent.
pub proof fn lemma_withdraw_keeps_ledger(ctx: WithdrawBid, bids: Map<Pubkey, Bid>)
    requires
        ledger_consistent(ctx.auction, bids),
        ctx.bid == bid_slot(bids, ctx.bidder),
        ctx.withdraw_rejection() is None,
    ensures
        ledger_consistent(ctx.auction, bids.insert(ctx.bidder, Bid::spec_vacant())),
{
    let after = bids.insert(ctx.bidder, Bid::spec_vacant());
    assert forall|k: Pubkey| #[trigger]
        after.contains_key(k) && after[k].is_active implies after[k].bidder == k by {
        if k != ctx.bidder {
            assert(bids.contains_key(k) && bids[k] == after[k]);
        }
    }
    let hb = ctx.auction.highest_bidder;
    assert(has_active_bid(after, hb) == has_active_bid(bids, hb));
}

/// Closing an auction keeps its ledger consistent.
pub proof fn lemma_end_keeps_ledger(ctx: EndAuction, bids: Map<Pubkey, Bid>, now: i64)
    requires
        ledger_consistent(ctx.auction, bids),
        ctx.end_rejection(now) is None,
    ensures
        ledger_consistent(
            Auction { auction_status: AuctionStatus::Ended, ..ctx.auction },
            bids,
        ),
{
}

/// A verdict on the authentication keeps the ledger consistent.
pub proof fn lemma_attest_keeps_ledger(
    ctx: AttestAuthentication,
    bids: Map<Pubkey, Bid>,
    approved: bool,
)
    requires
        ledger_consistent(ctx.auction, bids),
        ctx.attest_rejection() is None,
    ensures
        ledger_consistent(ctx.spec_judged_auction(approved), bids),
{
}

/// Uploading a report leaves the auction, and so its ledger, as it is.
pub proof fn lemma_upload_keeps_ledger(ctx: UploadAuthDocument, bids: Map<Pubkey, Bid>)
    requires
        ledger_consistent(ctx.auction, bids),
        ctx.upload_rejection() is None,
    ensures
        ledger_consistent(ctx.auction, bids),
{
}

/// Settlement keeps every active bid filed under its bidder.
pub proof fn lemma_settle_keeps_ledger(ctx: SettleAuction, bids: Map<Pubkey, Bid>)
    requires
        ledger_consistent(ctx.auction, bids),
        ctx.bid == bid_slot(bids, ctx.winner),
        ctx.settle_rejection() is None,
    ensures
        ledger_consistent(ctx.settled_auction(), bids.insert(ctx.winner, ctx.settled_bid())),
{
    let after = bids.insert(ctx.winner, ctx.settled_bid());
    assert forall|k: Pubkey| #[trigger]
        after.contains_key(k) && after[k].is_active implies after[k].bidder == k by {
        if k != ctx.winner {
            assert(bids.contains_key(k) && bids[k] == after[k]);
        }
    }
}

} // verus!
