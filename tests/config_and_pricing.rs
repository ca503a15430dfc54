use dutch::error::CustomErrorCode;
use dutch::identity::Identity;
use dutch::instructions::CreateAuctionConfig;
use dutch::pricing::price_at;
use dutch::state::{config_seed, AuctionConfig, AUCTION_CONFIG_VERSION};

fn key(n: u8) -> Identity {
    Identity::new([n; 32])
}

fn fresh() -> CreateAuctionConfig {
    CreateAuctionConfig {
        authority: key(1),
        auction_config: AuctionConfig {
            bump: [0],
            version: 0,
            authority: key(0),
            moderator: key(0),
            global_vault: key(0),
            currency_mint: key(0),
            interval_seconds: 0,
            next_auction_start: 0,
            next_round_id: 0,
            fee_account: key(0),
            fee_bps: 0,
            fee_burn_bps: 0,
            max_auction_slots: 4,
        },
        moderator: key(2),
        currency_mint: key(3),
        fee_account: key(4),
        global_vault: key(5),
    }
}

#[test]
fn create_fills_every_field() {
    let mut ctx = fresh();
    assert_eq!(ctx.process(30, 12_345, 250, 75, 253), Ok(()));
    let c = ctx.auction_config;
    assert_eq!(c.bump, [253]);
    assert_eq!(c.version, AUCTION_CONFIG_VERSION);
    assert_eq!(c.authority, key(1));
    assert_eq!(c.moderator, key(2));
    assert_eq!(c.currency_mint, key(3));
    assert_eq!(c.fee_account, key(4));
    assert_eq!(c.global_vault, key(5));
    assert_eq!(c.interval_seconds, 30);
    assert_eq!(c.next_auction_start, 12_345);
    assert_eq!(c.next_round_id, 1);
    assert_eq!(c.fee_bps, 250);
    assert_eq!(c.fee_burn_bps, 75);
    assert_eq!(c.max_auction_slots, 4);
}

#[test]
fn create_fee_bounds() {
    let mut ctx = fresh();
    assert_eq!(ctx.process(30, 0, 10_001, 0, 0), Err(CustomErrorCode::InvalidFee));
    assert_eq!(ctx.auction_config.authority, key(0));
    assert_eq!(ctx.process(30, 0, 0, 10_001, 0), Err(CustomErrorCode::InvalidFeeBurn));
    assert_eq!(ctx.process(30, 0, u32::MAX, u32::MAX, 0), Err(CustomErrorCode::InvalidFee));
    assert_eq!(ctx.auction_config.next_round_id, 0);
    assert_eq!(ctx.process(30, 0, 10_000, 10_000, 0), Ok(()));
    assert_eq!(ctx.auction_config.fee_bps, 10_000);
    assert_eq!(ctx.auction_config.fee_burn_bps, 10_000);
}

#[test]
fn config_seeds() {
    let mut ctx = fresh();
    assert_eq!(ctx.process(30, 0, 1, 1, 9), Ok(()));
    let seeds = ctx.auction_config.auth_seeds();
    assert_eq!(seeds.len(), 4);
    assert_eq!(seeds[0], b"config".to_vec());
    assert_eq!(seeds[0], config_seed());
    assert_eq!(seeds[1], vec![1u8; 32]);
    assert_eq!(seeds[2], vec![3u8; 32]);
    assert_eq!(seeds[3], vec![9u8]);
}

#[test]
fn price_formula() {
    assert_eq!(price_at(1000, 0, 1000, 500), 500);
    assert_eq!(price_at(1000, 50, 1000, 50), 1000);
    assert_eq!(price_at(1000, 50, 1000, 1050), 0);
    assert_eq!(price_at(10, -20, 3, -19), 7);
    assert_eq!(price_at(u32::MAX, 0, i64::MAX, i64::MAX), 0);
    assert_eq!(price_at(u32::MAX, i64::MIN, i64::MAX, -1), 0);
    assert_eq!(price_at(u32::MAX, i64::MIN, i64::MAX, -2), 1);
}

#[test]
fn price_never_rises_in_window() {
    let mut last = price_at(997, 3, 101, 3);
    for now in 3..=104 {
        let p = price_at(997, 3, 101, now);
        assert!(p <= last);
        last = p;
    }
    assert_eq!(last, 0);
}

#[test]
fn identity_comparison() {
    let a = key(1);
    let mut bytes = [1u8; 32];
    assert!(a.same_as(&Identity::new(bytes)));
    bytes[31] = 0;
    assert!(!a.same_as(&Identity::new(bytes)));
    assert_eq!(a.to_vec(), vec![1u8; 32]);
}

#[test]
fn error_messages() {
    assert_eq!(CustomErrorCode::AuctionLate.message(), "Auction has concluded");
    assert_eq!(CustomErrorCode::InvalidFee.message(), "Invalid fee");
    assert_eq!(
        CustomErrorCode::PreviousRoundNotEnd.message(),
        "Previous auction round has not been ended"
    );
}
