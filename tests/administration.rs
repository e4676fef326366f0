use bidx::{
    AuctionAuthError, AuthenticatorsRegistry, ConfigError, ConfigField, InitializePlatform,
    InitializePlatformBumps, MarketError, PlatformConfig, Pubkey, RegisterAuthenticators,
    RemoveAuthenticator, TogglePause, UpdatePlatformConfig, MAX_AUTHENTICATORS,
};
use std::collections::HashSet;

fn key(n: u64) -> Pubkey {
    Pubkey { w0: n, w1: n, w2: 0, w3: 1 }
}

fn admin() -> Pubkey {
    key(1)
}

fn registry(authenticators: Vec<Pubkey>, next_index: u64) -> AuthenticatorsRegistry {
    AuthenticatorsRegistry { admin: admin(), authenticators, next_index, bump: 7 }
}

fn config() -> PlatformConfig {
    PlatformConfig {
        admin: admin(),
        platform_fee_bps: 250,
        treasury_usdc: key(2),
        treasury_sol: key(3),
        auth_fee_bps: 100,
        is_paused: false,
        min_auction_duration: 60,
        max_auction_duration: 3600,
        bump: 9,
    }
}

#[test]
fn assignment_goes_round_robin() {
    let mut r = registry(vec![key(10), key(11), key(12)], 0);
    assert_eq!(r.assign(), Ok(key(10)));
    assert_eq!(r.next_index, 1);
    assert_eq!(r.assign(), Ok(key(11)));
    assert_eq!(r.assign(), Ok(key(12)));
    assert_eq!(r.next_index, 0);
    assert_eq!(r.assign(), Ok(key(10)));
}

#[test]
fn assignment_takes_cursor_modulo_length() {
    let mut r = registry(vec![key(10), key(11)], 5);
    assert_eq!(r.assign(), Ok(key(11)));
    assert_eq!(r.next_index, 0);
    let mut far = registry(vec![key(10), key(11), key(12)], u64::MAX);
    // u64::MAX is 0 modulo 3.
    assert_eq!(far.assign(), Ok(key(10)));
    assert_eq!(far.next_index, 1);
}

#[test]
fn assignment_from_empty_directory_fails() {
    let mut r = registry(vec![], 3);
    assert_eq!(r.assign(), Err(MarketError::Auth(AuctionAuthError::NoAuthenticatorAvailable)));
    assert_eq!(r.next_index, 3);
}

#[test]
fn register_appends_in_order() {
    let mut ctx = RegisterAuthenticators { admin: admin(), registry: registry(vec![key(10)], 0) };
    assert_eq!(ctx.register_authenticators(vec![key(11), key(12)]), Ok(()));
    assert_eq!(ctx.registry.authenticators, vec![key(10), key(11), key(12)]);
    assert_eq!(ctx.registry.next_index, 0);
    assert_eq!(ctx.register_authenticators(vec![]), Ok(()));
    assert_eq!(ctx.registry.authenticators.len(), 3);
}

#[test]
fn register_refusals_change_nothing() {
    let mut ctx = RegisterAuthenticators { admin: admin(), registry: registry(vec![key(10)], 0) };
    assert_eq!(
        ctx.register_authenticators(vec![key(11), Pubkey::zeroed()]),
        Err(MarketError::Auth(AuctionAuthError::InvalidKey))
    );
    assert_eq!(
        ctx.register_authenticators(vec![key(11), key(10)]),
        Err(MarketError::Auth(AuctionAuthError::AlreadyRegistered))
    );
    assert_eq!(
        ctx.register_authenticators(vec![key(11), key(12), key(11)]),
        Err(MarketError::Auth(AuctionAuthError::AlreadyRegistered))
    );
    assert_eq!(
        ctx.register_authenticators(vec![key(11), admin()]),
        Err(MarketError::Config(ConfigError::AdminCannotbeAuthenticator))
    );
    assert_eq!(ctx.registry.authenticators, vec![key(10)]);
    let mut outsider = RegisterAuthenticators { admin: key(99), registry: registry(vec![], 0) };
    assert_eq!(
        outsider.register_authenticators(vec![key(11)]),
        Err(MarketError::Config(ConfigError::ExclusiveToAdmin))
    );
    assert!(outsider.registry.authenticators.is_empty());
}

#[test]
fn remove_moves_last_into_place() {
    let mut ctx =
        RemoveAuthenticator { admin: admin(), registry: registry(vec![key(10), key(11), key(12)], 2) };
    assert_eq!(ctx.remove_authenticator(key(10)), Ok(()));
    assert_eq!(ctx.registry.authenticators, vec![key(12), key(11)]);
    assert_eq!(ctx.registry.next_index, 2);
    assert_eq!(
        ctx.remove_authenticator(key(10)),
        Err(MarketError::Config(ConfigError::AuthenticatorNotInRegistry))
    );
    let mut outsider =
        RemoveAuthenticator { admin: key(99), registry: registry(vec![key(10)], 0) };
    assert_eq!(
        outsider.remove_authenticator(key(10)),
        Err(MarketError::Config(ConfigError::ExclusiveToAdmin))
    );
    assert_eq!(outsider.registry.authenticators, vec![key(10)]);
}

#[test]
fn register_then_remove_restores_membership() {
    let listed = vec![key(10), key(11), key(12)];
    let mut reg = RegisterAuthenticators { admin: admin(), registry: registry(listed.clone(), 1) };
    reg.register_authenticators(vec![key(13)]).unwrap();
    let mut rem = RemoveAuthenticator { admin: admin(), registry: reg.registry };
    rem.remove_authenticator(key(13)).unwrap();
    let before: HashSet<Pubkey> = listed.iter().copied().collect();
    let after: HashSet<Pubkey> = rem.registry.authenticators.iter().copied().collect();
    assert_eq!(before, after);
    assert_eq!(rem.registry.authenticators, listed);
}

#[test]
fn initialize_writes_config_and_directory() {
    let mut ctx = InitializePlatform {
        admin: admin(),
        platform_config: PlatformConfig {
            admin: Pubkey::zeroed(),
            platform_fee_bps: 0,
            treasury_usdc: Pubkey::zeroed(),
            treasury_sol: Pubkey::zeroed(),
            auth_fee_bps: 0,
            is_paused: true,
            min_auction_duration: 0,
            max_auction_duration: 0,
            bump: 0,
        },
        authenticators_registry: registry(vec![], 4),
        treasury_usdc: key(2),
        treasury_sol: key(3),
    };
    let bumps = InitializePlatformBumps { platform_config: 9, authenticators_registry: 8 };
    ctx.initialize_platform(250, 100, 60, 3600, vec![key(10), key(11)], &bumps);
    assert_eq!(ctx.platform_config, config());
    assert_eq!(ctx.authenticators_registry.admin, admin());
    assert_eq!(ctx.authenticators_registry.authenticators, vec![key(10), key(11)]);
    assert_eq!(ctx.authenticators_registry.next_index, 0);
    assert_eq!(ctx.authenticators_registry.bump, 8);
}

#[test]
fn update_sets_given_fields_and_reports_changes() {
    let mut ctx = UpdatePlatformConfig { admin: admin(), platform_config: config() };
    let changed = ctx.update_platform_config(Some(300), Some(100), None, Some(7200)).unwrap();
    assert_eq!(changed, vec![ConfigField::PlatformFeeBps, ConfigField::MaxAuctionDuration]);
    assert_eq!(ctx.platform_config.platform_fee_bps, 300);
    assert_eq!(ctx.platform_config.auth_fee_bps, 100);
    assert_eq!(ctx.platform_config.min_auction_duration, 60);
    assert_eq!(ctx.platform_config.max_auction_duration, 7200);
    let none = ctx.update_platform_config(None, None, None, None).unwrap();
    assert!(none.is_empty());
    let all = ctx.update_platform_config(Some(1000), Some(1), Some(1), Some(2)).unwrap();
    assert_eq!(
        all,
        vec![
            ConfigField::PlatformFeeBps,
            ConfigField::AuthFeeBps,
            ConfigField::MinAuctionDuration,
            ConfigField::MaxAuctionDuration
        ]
    );
}

#[test]
fn update_refusals_change_nothing() {
    let mut ctx = UpdatePlatformConfig { admin: admin(), platform_config: config() };
    assert_eq!(
        ctx.update_platform_config(Some(0), None, None, None),
        Err(MarketError::Config(ConfigError::FeeTooLow))
    );
    assert_eq!(
        ctx.update_platform_config(None, Some(0), None, None),
        Err(MarketError::Config(ConfigError::FeeTooLow))
    );
    assert_eq!(
        ctx.update_platform_config(Some(1001), None, None, None),
        Err(MarketError::Config(ConfigError::FeeTooHigh))
    );
    assert_eq!(
        ctx.update_platform_config(None, Some(5000), None, None),
        Err(MarketError::Config(ConfigError::FeeTooHigh))
    );
    assert_eq!(
        ctx.update_platform_config(None, None, Some(0), None),
        Err(MarketError::Config(ConfigError::DurationNotRealistic))
    );
    assert_eq!(
        ctx.update_platform_config(None, None, Some(3600), None),
        Err(MarketError::Config(ConfigError::DurationNotRealistic))
    );
    assert_eq!(ctx.platform_config, config());
    let mut outsider = UpdatePlatformConfig { admin: key(99), platform_config: config() };
    assert_eq!(
        outsider.update_platform_config(Some(300), None, None, None),
        Err(MarketError::Config(ConfigError::ExclusiveToAdmin))
    );
}

#[test]
fn toggle_pause_flips_and_needs_admin() {
    let mut ctx = TogglePause { admin: admin(), platform_config: config() };
    assert_eq!(ctx.toggle_pause(), Ok(()));
    assert!(ctx.platform_config.is_paused);
    assert_eq!(ctx.toggle_pause(), Ok(()));
    assert!(!ctx.platform_config.is_paused);
    let mut outsider = TogglePause { admin: key(99), platform_config: config() };
    assert_eq!(outsider.toggle_pause(), Err(MarketError::Config(ConfigError::ExclusiveToAdmin)));
    assert!(!outsider.platform_config.is_paused);
}

#[test]
fn register_beyond_the_directory_bound_is_refused() {
    let full: Vec<Pubkey> = (0..99).map(|i| key(100 + i)).collect();
    let mut ctx = RegisterAuthenticators { admin: admin(), registry: registry(full.clone(), 0) };
    assert_eq!(
        ctx.register_authenticators(vec![key(500), key(501)]),
        Err(MarketError::Config(ConfigError::RegistryFull))
    );
    assert_eq!(ctx.registry.authenticators, full);
    assert_eq!(ctx.register_authenticators(vec![key(500)]), Ok(()));
    assert_eq!(ctx.registry.authenticators.len(), MAX_AUTHENTICATORS);
    assert_eq!(
        ctx.register_authenticators(vec![key(501)]),
        Err(MarketError::Config(ConfigError::RegistryFull))
    );
}
