//! Creation of an auction configuration.
use vstd::prelude::*;
use crate::error::CustomErrorCode;
use crate::identity::Identity;
use crate::state::{AuctionConfig, AUCTION_CONFIG_VERSION, MAX_FEE_BPS};

verus! {

/// The accounts that take part in creating a configuration, by key, with the
/// configuration record to fill.
#[derive(Clone, Copy, Debug)]
pub struct CreateAuctionConfig {
    /// The owner, who signs and pays.
    pub authority: Identity,
    /// The record to fill, fresh from storage.
    pub auction_config: AuctionConfig,
    pub moderator: Identity,
    pub currency_mint: Identity,
    pub fee_account: Identity,
    pub global_vault: Identity,
}

/// The rejection, if any, of a configuration with these fee rates.
pub open spec fn create_error(fee_bps: u32, fee_burn_bps: u32) -> Option<CustomErrorCode> {
    if fee_bps > MAX_FEE_BPS {
        Some(CustomErrorCode::InvalidFee)
    } else if fee_burn_bps > MAX_FEE_BPS {
        Some(CustomErrorCode::InvalidFeeBurn)
    } else {
        None
    }
}

/// The configuration that `process` writes: every field from the accounts
/// and arguments, the round counter at one, the slot count left as it was.
pub open spec fn created_config(
    ctx: CreateAuctionConfig,
    interval_seconds: u32,
    next_auction_start: i64,
    fee_bps: u32,
    fee_burn_bps: u32,
    config_bump: u8,
) -> AuctionConfig {
    AuctionConfig {
        bump: [config_bump],
        version: AUCTION_CONFIG_VERSION,
        authority: ctx.authority,
        moderator: ctx.moderator,
        global_vault: ctx.global_vault,
        currency_mint: ctx.currency_mint,
        interval_seconds,
        next_auction_start,
        next_round_id: 1,
        fee_account: ctx.fee_account,
        fee_bps,
        fee_burn_bps,
        max_auction_slots: ctx.auction_config.max_auction_slots,
    }
}

impl CreateAuctionConfig {
    /// Checks the fee rates and fills the configuration record.
    pub fn process(
        &mut self,
        interval_seconds: u32,
        next_auction_start: i64,
        fee_bps: u32,
        fee_burn_bps: u32,
        config_bump: u8,
    ) -> (r: Result<(), CustomErrorCode>)
        ensures
            match create_error(fee_bps, fee_burn_bps) {
                Some(e) => r == Err::<(), CustomErrorCode>(e) && *final(self) == *old(self),
                None => r is Ok && *final(self) == (CreateAuctionConfig {
                    auction_config: created_config(
                        *old(self),
                        interval_seconds,
                        next_auction_start,
                        fee_bps,
                        fee_burn_bps,
                        config_bump,
                    ),
                    ..*old(self)
                }),
            },
            r is Ok ==> final(self).auction_config.wf(),
    {
        if fee_bps > MAX_FEE_BPS {
            return Err(CustomErrorCode::InvalidFee);
        }
        if fee_burn_bps > MAX_FEE_BPS {
            return Err(CustomErrorCode::InvalidFeeBurn);
        }
        self.auction_config.bump = [config_bump];
        self.auction_config.version = AUCTION_CONFIG_VERSION;
        self.auction_config.authority = self.authority;
        self.auction_config.moderator = self.moderator;
        self.auction_config.currency_mint = self.currency_mint;
        self.auction_config.interval_seconds = interval_seconds;
        self.auction_config.next_auction_start = next_auction_start;
        self.auction_config.next_round_id = 1;
        self.auction_config.fee_bps = fee_bps;
        self.auction_config.fee_burn_bps = fee_burn_bps;
        self.auction_config.fee_account = self.fee_account;
        self.auction_config.global_vault = self.global_vault;
        Ok(())
    }
}

} // verus!
