//! Platform administration: setting up the configuration and the
//! authenticator directory, updating fee rates and auction durations, and
//! pausing.
use vstd::prelude::*;

use crate::errors::{ConfigError, MarketError};
use crate::pubkey::Pubkey;
use crate::states::{AuthenticatorsRegistry, PlatformConfig};

verus! {

/// The highest fee rate an update accepts, in basis points (10%).
pub const MAX_FEE_BPS: u16 = 1000;

/// Record-derivation salts of the records that set-up writes.
#[derive(Debug, Clone, Copy, PartialEq, Eq, Structural)]
pub struct InitializePlatformBumps {
    pub platform_config: u8,
    pub authenticators_registry: u8,
}

/// The records that platform set-up writes.
#[derive(Debug, Clone)]
pub struct InitializePlatform {
    /// The caller, who becomes the platform admin.
    pub admin: Pubkey,
    pub platform_config: PlatformConfig,
    pub authenticators_registry: AuthenticatorsRegistry,
    pub treasury_usdc: Pubkey,
    pub treasury_sol: Pubkey,
}

impl InitializePlatform {
    /// Writes the platform configuration, unpaused, with the caller as admin
    /// and the two given treasuries, and the directory with `authenticators`
    /// and its cursor at the start.
    pub fn initialize_platform(
        &mut self,
        platform_fee_bps: u16,
        auth_fee_bps: u16,
        min_auction_duration: i64,
        max_auction_duration: i64,
        authenticators: Vec<Pubkey>,
        bumps: &InitializePlatformBumps,
    )
        ensures
            final(self).platform_config == (PlatformConfig {
                admin: old(self).admin,
                platform_fee_bps,
                treasury_usdc: old(self).treasury_usdc,
                treasury_sol: old(self).treasury_sol,
                auth_fee_bps,
                is_paused: false,
                min_auction_duration,
                max_auction_duration,
                bump: bumps.platform_config,
            }),
            final(self).authenticators_registry.admin == old(self).admin,
            final(self).authenticators_registry.authenticators@ == authenticators@,
            final(self).authenticators_registry.next_index == 0,
            final(self).authenticators_registry.bump == bumps.authenticators_registry,
            final(self).admin == old(self).admin,
            final(self).treasury_usdc == old(self).treasury_usdc,
            final(self).treasury_sol == old(self).treasury_sol,
    {
        self.platform_config = PlatformConfig {
            admin: self.admin,
            platform_fee_bps,
            treasury_usdc: self.treasury_usdc,
            treasury_sol: self.treasury_sol,
            auth_fee_bps,
            is_paused: false,
            min_auction_duration,
            max_auction_duration,
            bump: bumps.platform_config,
        };
        self.authenticators_registry = AuthenticatorsRegistry {
            admin: self.admin,
            authenticators,
            next_index: 0,
            bump: bumps.authenticators_registry,
        };
    }
}

/// A setting that a configuration update can change.
#[derive(Debug, Clone, Copy, PartialEq, Eq, Structural)]
pub enum ConfigField {
    PlatformFeeBps,
    AuthFeeBps,
    MinAuctionDuration,
    MaxAuctionDuration,
}

/// `value` when given, else `current`.
pub open spec fn given_or<T>(value: Option<T>, current: T) -> T {
    match value {
        Some(v) => v,
        None => current,
    }
}

/// Why a fee rate is refused: it must be positive and at most the cap.
pub open spec fn fee_rate_error(bps: u16) -> Option<MarketError> {
    if bps == 0 {
        Some(MarketError::Config(ConfigError::FeeTooLow))
    } else if bps > MAX_FEE_BPS {
        Some(MarketError::Config(ConfigError::FeeTooHigh))
    } else {
        None
    }
}

fn check_fee_rate(bps: u16) -> (r: Result<(), MarketError>)
    ensures
        match fee_rate_error(bps) {
            Some(e) => r == Err::<(), MarketError>(e),
            None => r is Ok,
        },
{
    if bps == 0 {
        Err(MarketError::Config(ConfigError::FeeTooLow))
    } else if bps > MAX_FEE_BPS {
        Err(MarketError::Config(ConfigError::FeeTooHigh))
    } else {
        Ok(())
    }
}

/// `[f]` when `changed`, else empty.
pub open spec fn field_if(changed: bool, f: ConfigField) -> Seq<ConfigField> {
    if changed {
        seq![f]
    } else {
        Seq::empty()
    }
}

/// The records that a configuration update writes.
#[derive(Debug, Clone, Copy, PartialEq, Eq, Structural)]
pub struct UpdatePlatformConfig {
    /// The caller, who must be the platform admin.
    pub admin: Pubkey,
    pub platform_config: PlatformConfig,
}

impl UpdatePlatformConfig {
    /// Why the update is refused, checked in this order; `None` when it
    /// goes ahead. Settings that are not given keep their current value and
    /// are checked as well.
    pub open spec fn update_rejection(
        &self,
        platform_fee_bps: Option<u16>,
        auth_fee_bps: Option<u16>,
        min_auction_duration: Option<i64>,
        max_auction_duration: Option<i64>,
    ) -> Option<MarketError> {
        let c = self.platform_config;
        let min = given_or(min_auction_duration, c.min_auction_duration);
        let max = given_or(max_auction_duration, c.max_auction_duration);
        if self.admin != c.admin {
            Some(MarketError::Config(ConfigError::ExclusiveToAdmin))
        } else if fee_rate_error(given_or(platform_fee_bps, c.platform_fee_bps)) is Some {
            fee_rate_error(given_or(platform_fee_bps, c.platform_fee_bps))
        } else if fee_rate_error(given_or(auth_fee_bps, c.auth_fee_bps)) is Some {
            fee_rate_error(given_or(auth_fee_bps, c.auth_fee_bps))
        } else if min <= 0 || max <= min {
            Some(MarketError::Config(ConfigError::DurationNotRealistic))
        } else {
            None
        }
    }

    /// Sets each given setting. Fee rates must be positive and at most
    /// `MAX_FEE_BPS`; the minimum duration must be positive and the maximum
    /// above it. Returns the settings whose value changed, in declaration
    /// order. On failure nothing changes.
    pub fn update_platform_config(
        &mut self,
        platform_fee_bps: Option<u16>,
        auth_fee_bps: Option<u16>,
        min_auction_duration: Option<i64>,
        max_auction_duration: Option<i64>,
    ) -> (r: Result<Vec<ConfigField>, MarketError>)
        ensures
            match old(self).update_rejection(
                platform_fee_bps,
                auth_fee_bps,
                min_auction_duration,
                max_auction_duration,
            ) {
                Some(e) => r == Err::<Vec<ConfigField>, MarketError>(e) && *final(self) == *old(
                    self,
                ),
                None => {
                    let c = old(self).platform_config;
                    let fee = given_or(platform_fee_bps, c.platform_fee_bps);
                    let auth = given_or(auth_fee_bps, c.auth_fee_bps);
                    let min = given_or(min_auction_duration, c.min_auction_duration);
                    let max = given_or(max_auction_duration, c.max_auction_duration);
                    &&& r is Ok
                    &&& r->Ok_0@ == field_if(fee != c.platform_fee_bps, ConfigField::PlatformFeeBps)
                        + field_if(auth != c.auth_fee_bps, ConfigField::AuthFeeBps) + field_if(
                        min != c.min_auction_duration,
                        ConfigField::MinAuctionDuration,
                    ) + field_if(max != c.max_auction_duration, ConfigField::MaxAuctionDuration)
                    &&& final(self).platform_config == (PlatformConfig {
                        platform_fee_bps: fee,
                        auth_fee_bps: auth,
                        min_auction_duration: min,
                        max_auction_duration: max,
                        ..c
                    })
                    &&& final(self).admin == old(self).admin
                },
            },
    {
        if self.admin != self.platform_config.admin {
            return Err(MarketError::Config(ConfigError::ExclusiveToAdmin));
        }
        let new_fee_bps = match platform_fee_bps {
            Some(v) => v,
            None => self.platform_config.platform_fee_bps,
        };
        let new_auth_fee_bps = match auth_fee_bps {
            Some(v) => v,
            None => self.platform_config.auth_fee_bps,
        };
        let new_min_duration = match min_auction_duration {
            Some(v) => v,
            None => self.platform_config.min_auction_duration,
        };
        let new_max_duration = match max_auction_duration {
            Some(v) => v,
            None => self.platform_config.max_auction_duration,
        };
        match check_fee_rate(new_fee_bps) {
            Err(e) => {
                return Err(e);
            },
            Ok(()) => {},
        }
        match check_fee_rate(new_auth_fee_bps) {
            Err(e) => {
                return Err(e);
            },
            Ok(()) => {},
        }
        if new_min_duration <= 0 || new_max_duration <= new_min_duration {
            return Err(MarketError::Config(ConfigError::DurationNotRealistic));
        }
        let ghost c = self.platform_config;
        let mut updated: Vec<ConfigField> = Vec::new();
        if new_fee_bps != self.platform_config.platform_fee_bps {
            self.platform_config.platform_fee_bps = new_fee_bps;
            updated.push(ConfigField::PlatformFeeBps);
        }
        assert(updated@ =~= field_if(new_fee_bps != c.platform_fee_bps, ConfigField::PlatformFeeBps));
        let ghost after_fee = updated@;
        if new_auth_fee_bps != self.platform_config.auth_fee_bps {
            self.platform_config.auth_fee_bps = new_auth_fee_bps;
            updated.push(ConfigField::AuthFeeBps);
        }
        assert(updated@ =~= after_fee + field_if(
            new_auth_fee_bps != c.auth_fee_bps,
            ConfigField::AuthFeeBps,
        ));
        let ghost after_auth = updated@;
        if new_min_duration != self.platform_config.min_auction_duration {
            self.platform_config.min_auction_duration = new_min_duration;
            updated.push(ConfigField::MinAuctionDuration);
        }
        assert(updated@ =~= after_auth + field_if(
            new_min_duration != c.min_auction_duration,
            ConfigField::MinAuctionDuration,
        ));
        let ghost after_min = updated@;
        if new_max_duration != self.platform_config.max_auction_duration {
            self.platform_config.max_auction_duration = new_max_duration;
            updated.push(ConfigField::MaxAuctionDuration);
        }
        assert(updated@ =~= after_min + field_if(
            new_max_duration != c.max_auction_duration,
            ConfigField::MaxAuctionDuration,
        ));
        Ok(updated)
    }
}

/// The record that pausing writes.
#[derive(Debug, Clone, Copy, PartialEq, Eq, Structural)]
pub struct TogglePause {
    /// The caller, who must be the platform admin.
    pub admin: Pubkey,
    pub platform_config: PlatformConfig,
}

impl TogglePause {
    /// Pauses the platform when it runs, and resumes it when paused.
    pub fn toggle_pause(&mut self) -> (r: Result<(), MarketError>)
        ensures
            old(self).admin != old(self).platform_config.admin ==> r == Err::<(), MarketError>(
                MarketError::Config(ConfigError::ExclusiveToAdmin),
            ) && *final(self) == *old(self),
            old(self).admin == old(self).platform_config.admin ==> r is Ok && *final(self) == (
            TogglePause {
                platform_config: PlatformConfig {
                    is_paused: !old(self).platform_config.is_paused,
                    ..old(self).platform_config
                },
                ..*old(self)
            }),
    {
        if self.admin != self.platform_config.admin {
            return Err(MarketError::Config(ConfigError::ExclusiveToAdmin));
        }
        self.platform_config.is_paused = !self.platform_config.is_paused;
        Ok(())
    }
}

} // verus!
