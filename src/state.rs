//! The two records of the auction: the long-lived configuration of an
//! owner and currency, and the round that it runs.
use vstd::prelude::*;
use crate::identity::Identity;

verus! {

/// Schema version written into every new configuration.
pub const AUCTION_CONFIG_VERSION: u8 = 1;

/// Bytes that a configuration record takes in storage.
pub const AUCTION_CONFIG_SIZE: usize = 8 + 1 + 1 + 32 + 32 + 32 + 32 + 4 + 8 + 8 + 32 + 4 + 4 + 4;

/// The largest fee rate, in basis points: one hundred percent.
pub const MAX_FEE_BPS: u32 = 10_000;

/// The seed that, with the owner and the currency, addresses a configuration.
pub open spec fn config_seed_bytes() -> Seq<u8> {
    seq![99u8, 111u8, 110u8, 102u8, 105u8, 103u8]
}

/// The bytes of the configuration seed (`"config"`).
pub fn config_seed() -> (r: Vec<u8>)
    ensures
        r@ == config_seed_bytes(),
{
    let r: Vec<u8> = vec![99u8, 111u8, 110u8, 102u8, 105u8, 103u8];
    assert(r@ =~= config_seed_bytes());
    r
}

/// Recurring auction parameters for one owner and one currency.
#[derive(Clone, Copy, Debug)]
pub struct AuctionConfig {
    /// Bump seed of the configuration's program address.
    pub bump: [u8; 1],
    pub version: u8,
    /// Owner of the configuration.
    pub authority: Identity,
    /// Second signer required to open a round.
    pub moderator: Identity,
    /// Where the payments of the bids go.
    pub global_vault: Identity,
    /// The currency that this configuration governs.
    pub currency_mint: Identity,
    /// Least spacing, in seconds, between the starts of two rounds.
    pub interval_seconds: u32,
    /// Earliest instant at which a new round may open.
    pub next_auction_start: i64,
    /// Sequence number of the next round.
    pub next_round_id: u64,
    pub fee_account: Identity,
    /// Fee rate in basis points.
    pub fee_bps: u32,
    /// Share of the fees to burn, in basis points.
    pub fee_burn_bps: u32,
    /// Slots granted to each new round.
    pub max_auction_slots: u32,
}

impl AuctionConfig {
    /// Both fee rates are at most one hundred percent.
    pub open spec fn wf(&self) -> bool {
        self.fee_bps <= MAX_FEE_BPS && self.fee_burn_bps <= MAX_FEE_BPS
    }

    /// The seeds of the configuration's program address: the configuration
    /// seed, the owner, the currency and the bump.
    pub fn auth_seeds(&self) -> (r: Vec<Vec<u8>>)
        ensures
            r@.len() == 4,
            r@[0]@ == config_seed_bytes(),
            r@[1]@ == self.authority.bytes@,
            r@[2]@ == self.currency_mint.bytes@,
            r@[3]@ == self.bump@,
    {
        let mut r: Vec<Vec<u8>> = Vec::new();
        r.push(config_seed());
        r.push(self.authority.to_vec());
        r.push(self.currency_mint.to_vec());
        let mut bump: Vec<u8> = Vec::new();
        bump.push(self.bump[0]);
        assert(bump@ =~= self.bump@);
        r.push(bump);
        r
    }
}

/// Bytes that a round record takes in storage.
pub const AUCTION_ACCOUNT_LEN: usize = 8 + 1 + 32 + 8 + 32 + 4 + 8 + 8 + 4;

/// One selling window of a configuration, reused from round to round.
#[derive(Clone, Copy, Debug)]
pub struct AuctionAccount {
    /// Bump seed of the round's program address.
    pub bump: u8,
    /// Owner of the round, who may close it.
    pub authority: Identity,
    /// Quantity of the asset handed over for each bid.
    pub amount: u64,
    /// The account that holds the unsold asset.
    pub escrow_account: Identity,
    /// Price at the start of the current decay window.
    pub starting_price: u32,
    /// Start of the current decay window.
    pub starting_time: i64,
    /// Length of the decay window, in seconds.
    pub auction_period: i64,
    /// Bids that the round still takes.
    pub current_auction_slot_count: u32,
}

impl AuctionAccount {
    /// The round takes bids while it has slots left.
    pub open spec fn is_open(&self) -> bool {
        self.current_auction_slot_count > 0
    }

    /// An open round has a decay window of positive length.
    pub open spec fn wf(&self) -> bool {
        self.is_open() ==> self.auction_period > 0
    }
}

} // verus!
