//! Settlement engine for an escrow-backed auction marketplace.
//!
//! Every operation is a method on a context struct that holds, as plain
//! values, the records the operation reads and writes. A method either
//! succeeds and commits all of its changes, or fails with a tagged error and
//! leaves its context untouched. Token movements and the wall clock are the
//! caller's concern: operations take the current time as an argument and
//! report the amounts to move.
pub mod auction;
pub mod authentication;
pub mod bidding;
pub mod directory;
pub mod errors;
pub mod ledger;
pub mod platform;
pub mod pubkey;
pub mod settlement;
pub mod states;

pub use auction::{CreateAuction, CreateAuctionBumps, EndAuction};
pub use authentication::{AttestAuthentication, UploadAuthDocument};
pub use bidding::{PlaceBid, PlaceBidBumps, WithdrawBid};
pub use directory::{RegisterAuthenticators, RemoveAuthenticator, MAX_AUTHENTICATORS};
pub use errors::{AuctionAuthError, AuctionError, BidError, ConfigError, MarketError};
pub use platform::{
    ConfigField, InitializePlatform, InitializePlatformBumps, TogglePause, UpdatePlatformConfig,
};
pub use pubkey::Pubkey;
pub use settlement::{fee_amount, SettleAuction, Settlement};
pub use states::{
    AssetType, Auction, AuctionStatus, AuthStatus, Authentication, AuthenticatorsRegistry, Bid,
    PlatformConfig, SellerState,
};
