//! Failure reasons, one enum per component, and the tagged union of them
//! that every operation returns.
use vstd::prelude::*;

verus! {

/// Auction lifecycle and settlement failures.
#[derive(Debug, Clone, Copy, PartialEq, Eq, Structural)]
pub enum AuctionError {
    /// The start date is not in the future.
    StartDateIsBehind,
    /// The reserved price is not above the starting bid.
    ReservedPriceTooLow,
    /// The end date is not after the start date.
    EndDateIsBehindStartDate,
    /// A token account holds another mint than the auction's currency.
    WrongToken,
    /// The fee destination is not the platform treasury of the auction's
    /// currency.
    InvalidTreasury,
    /// The auction is not (yet) in the Ended state.
    AuctionNotEnded,
    /// The caller is not the highest bidder.
    NotWinner,
    /// The highest bid is below the reserved price.
    ReserveNotMet,
    /// The bid record is not active.
    BidNotActive,
}

/// Authentication workflow and authenticator directory failures.
#[derive(Debug, Clone, Copy, PartialEq, Eq, Structural)]
pub enum AuctionAuthError {
    /// The all-zero key cannot be an authenticator.
    InvalidKey,
    /// The caller is not in the authenticator directory, or is not the
    /// authenticator assigned to this auction.
    AuthenticatorNotRecognized,
    /// The auction's authentication is not pending.
    NotPending,
    /// A verdict was given before any review was provided.
    ReviewHashNotProvided,
    /// The caller may not update this authentication record.
    Unauthorized,
    /// The authenticator is already in the directory.
    AlreadyRegistered,
    /// No report has been uploaded yet.
    ReportNotUploaded,
    /// The authentication record belongs to another auction.
    InvalidAuthentication,
    /// The directory holds no authenticator to assign.
    NoAuthenticatorAvailable,
}

/// Bid ledger failures.
#[derive(Debug, Clone, Copy, PartialEq, Eq, Structural)]
pub enum BidError {
    /// The auction does not accept bids.
    AuctionNotAvailable,
    /// Bidding on the auction is closed.
    BiddingClosed,
    /// The bidder's total does not exceed the highest bid.
    BidTooLow,
    /// The bid is paid in another currency than the auction accepts.
    WrongToken,
    /// The bidder still holds the highest bid, or the auction has not ended.
    StillWinning,
    /// The bidder's total would not fit in a token amount.
    TotalOverflow,
    /// The bid record belongs to another bidder or another auction.
    BidMismatch,
}

/// Platform configuration failures.
#[derive(Debug, Clone, Copy, PartialEq, Eq, Structural)]
pub enum ConfigError {
    /// A fee rate is above the platform's cap, or the rates together exceed
    /// the price.
    FeeTooHigh,
    /// A fee rate is zero.
    FeeTooLow,
    /// The auction durations are not positive and increasing.
    DurationNotRealistic,
    /// Only the platform admin may do this.
    ExclusiveToAdmin,
    /// The admin cannot also be an authenticator.
    AdminCannotbeAuthenticator,
    /// The authenticator is not in the directory.
    AuthenticatorNotInRegistry,
    /// The directory would hold more than `MAX_AUTHENTICATORS` entries.
    RegistryFull,
}

/// The failure reason of any operation.
#[derive(Debug, Clone, Copy, PartialEq, Eq, Structural)]
pub enum MarketError {
    Auction(AuctionError),
    Auth(AuctionAuthError),
    Bid(BidError),
    Config(ConfigError),
}

} // verus!
