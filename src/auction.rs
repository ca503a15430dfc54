//! The life of a round: opening it from a configuration, bidding on it, and
//! closing it. The clock reading and the movements of assets are the
//! platform's: the current time comes in as an argument, and the quantities
//! to move come back as results.
use vstd::prelude::*;
use crate::error::CustomErrorCode;
use crate::identity::Identity;
use crate::pricing::{decayed_price, price_at};
use crate::state::{AuctionAccount, AuctionConfig};

verus! {

/// A token account as the round logic reads it: its key and its balance.
#[derive(Clone, Copy, Debug)]
pub struct TokenBalance {
    pub key: Identity,
    pub amount: u64,
}

/// A movement of tokens, to be signed by `authority` over `from`.
#[derive(Clone, Copy, Debug)]
pub struct TokenTransfer {
    pub authority: Identity,
    pub from: Identity,
    pub to: Identity,
}

/// The release of an emptied token account, whose rent goes to `destination`.
#[derive(Clone, Copy, Debug)]
pub struct TokenAccountClose {
    pub account: Identity,
    pub authority: Identity,
    pub destination: Identity,
}

/// The accounts that take part in opening a round.
#[derive(Clone, Copy, Debug)]
pub struct InitializeAuction {
    /// The second signer, who must be the configuration's moderator.
    pub moderator: Identity,
    /// The owner, who must be the configuration's authority.
    pub authority: Identity,
    pub auction_config: AuctionConfig,
    /// The round record, fresh or left by an earlier round.
    pub auction_account: AuctionAccount,
    /// The escrow that holds the asset on sale.
    pub escrow_token_account: TokenBalance,
    pub mint: Identity,
}

/// The accounts that take part in closing a round.
#[derive(Clone, Copy, Debug)]
pub struct CloseAuction {
    /// The caller, who must own both the configuration and the round.
    pub authority: Identity,
    pub auction_config: AuctionConfig,
    pub auction_account: AuctionAccount,
    /// The key of the round record, which signs for the escrow.
    pub auction_account_key: Identity,
    /// Where the unsold asset goes.
    pub holder_token_account: Identity,
    pub escrow_token_account: Identity,
    pub mint: Identity,
}

/// The accounts that take part in a bid.
#[derive(Clone, Copy, Debug)]
pub struct Bid {
    /// The bidder, who pays and receives the asset.
    pub authority: Identity,
    pub auction_config: AuctionConfig,
    pub auction_account: AuctionAccount,
    /// The key of the round record, which signs for the escrow.
    pub auction_account_key: Identity,
    /// Must be the round's escrow.
    pub escrow_token_account: Identity,
    pub bidder_token_account: Identity,
    /// Must be the configuration's vault.
    pub global_vault: Identity,
    pub mint: Identity,
}

/// The rejection, if any, of opening a round at `current_time`, in the
/// order in which the conditions are checked.
pub open spec fn open_error(
    ctx: InitializeAuction,
    current_time: i64,
    starting_time: i64,
    auction_period: i64,
    amount: u64,
) -> Option<CustomErrorCode> {
    if ctx.moderator != ctx.auction_config.moderator || ctx.authority != ctx.auction_config.authority {
        Some(CustomErrorCode::IncorrectAuthority)
    } else if starting_time >= starting_time + auction_period {
        Some(CustomErrorCode::InvalidDateRange)
    } else if current_time > starting_time {
        Some(CustomErrorCode::InvalidStartDate)
    } else if ctx.escrow_token_account.amount == 0 {
        Some(CustomErrorCode::AuctionInvalid)
    } else if amount == 0 {
        Some(CustomErrorCode::InvalidEscrowAmount)
    } else if ctx.auction_config.next_auction_start > current_time {
        Some(CustomErrorCode::PreviousRoundNotEnd)
    } else if ctx.auction_account.current_auction_slot_count > 0 {
        Some(CustomErrorCode::PreviousRoundNotEnd)
    } else {
        None
    }
}

/// The accounts after a round is opened: the schedule gate moves to
/// `current_time` plus the interval, the round counter advances, and the
/// round takes its parameters and the configuration's slot count.
pub open spec fn opened(
    ctx: InitializeAuction,
    current_time: i64,
    starting_time: i64,
    auction_period: i64,
    start_price: u32,
    amount: u64,
    bump: u8,
) -> InitializeAuction {
    InitializeAuction {
        auction_config: AuctionConfig {
            next_auction_start: (current_time + ctx.auction_config.interval_seconds) as i64,
            next_round_id: (ctx.auction_config.next_round_id + 1) as u64,
            ..ctx.auction_config
        },
        auction_account: AuctionAccount {
            bump,
            authority: ctx.authority,
            amount: if amount <= ctx.escrow_token_account.amount {
                amount
            } else {
                ctx.escrow_token_account.amount
            },
            escrow_account: ctx.escrow_token_account.key,
            starting_price: start_price,
            starting_time,
            auction_period,
            current_auction_slot_count: ctx.auction_config.max_auction_slots,
        },
        ..ctx
    }
}

/// Opens a round at `current_time`, the platform clock's reading.
pub fn initialize_auction(
    ctx: &mut InitializeAuction,
    current_time: i64,
    starting_time: i64,
    auction_period: i64,
    start_price: u32,
    amount: u64,
    bump: u8,
) -> (r: Result<(), CustomErrorCode>)
    requires
        current_time + old(ctx).auction_config.interval_seconds <= i64::MAX,
        old(ctx).auction_config.next_round_id < u64::MAX,
    ensures
        match open_error(*old(ctx), current_time, starting_time, auction_period, amount) {
            Some(e) => r == Err::<(), CustomErrorCode>(e) && *final(ctx) == *old(ctx),
            None => r is Ok && *final(ctx) == opened(
                *old(ctx),
                current_time,
                starting_time,
                auction_period,
                start_price,
                amount,
                bump,
            ),
        },
        r is Ok ==> final(ctx).auction_account.wf(),
{
    if ctx.moderator != ctx.auction_config.moderator || ctx.authority != ctx.auction_config.authority {
        return Err(CustomErrorCode::IncorrectAuthority);
    }
    // The window's end is formed in 128 bits, where it cannot overflow.
    let ending_time: i128 = (starting_time as i128) + (auction_period as i128);
    if (starting_time as i128) >= ending_time {
        return Err(CustomErrorCode::InvalidDateRange);
    }
    if current_time > starting_time {
        return Err(CustomErrorCode::InvalidStartDate);
    }
    let escrow_amount = ctx.escrow_token_account.amount;
    if escrow_amount == 0 {
        return Err(CustomErrorCode::AuctionInvalid);
    }
    if amount == 0 {
        return Err(CustomErrorCode::InvalidEscrowAmount);
    }
    if ctx.auction_config.next_auction_start > current_time {
        return Err(CustomErrorCode::PreviousRoundNotEnd);
    }
    if ctx.auction_account.current_auction_slot_count > 0 {
        return Err(CustomErrorCode::PreviousRoundNotEnd);
    }
    ctx.auction_config.next_auction_start = current_time + ctx.auction_config.interval_seconds as i64;
    ctx.auction_config.next_round_id = ctx.auction_config.next_round_id + 1;
    ctx.auction_account.authority = ctx.authority;
    ctx.auction_account.escrow_account = ctx.escrow_token_account.key;
    ctx.auction_account.starting_price = start_price;
    ctx.auction_account.starting_time = starting_time;
    ctx.auction_account.current_auction_slot_count = ctx.auction_config.max_auction_slots;
    ctx.auction_account.auction_period = auction_period;
    ctx.auction_account.amount = if amount <= escrow_amount {
        amount
    } else {
        escrow_amount
    };
    ctx.auction_account.bump = bump;
    Ok(())
}

/// The rejection, if any, of closing the round.
pub open spec fn close_error(ctx: CloseAuction) -> Option<CustomErrorCode> {
    if ctx.auction_config.authority != ctx.authority || ctx.authority != ctx.auction_account.authority {
        Some(CustomErrorCode::IncorrectAuthority)
    } else {
        None
    }
}

/// Closes the round for its owner, at any time. The result is the quantity
/// of the asset that goes back from the escrow to the owner: all that the
/// round still holds, whatever its slot count.
pub fn close_auction(ctx: &CloseAuction) -> (r: Result<u64, CustomErrorCode>)
    ensures
        match close_error(*ctx) {
            Some(e) => r == Err::<u64, CustomErrorCode>(e),
            None => r == Ok::<u64, CustomErrorCode>(ctx.auction_account.amount),
        },
{
    if ctx.auction_config.authority != ctx.authority || ctx.authority != ctx.auction_account.authority {
        return Err(CustomErrorCode::IncorrectAuthority);
    }
    Ok(ctx.auction_account.amount)
}

impl CloseAuction {
    /// The movement of the unsold asset from the escrow to the owner,
    /// signed by the round record.
    pub fn into_transfer_ctx(&self) -> (r: TokenTransfer)
        ensures
            r == (TokenTransfer {
                authority: self.auction_account_key,
                from: self.escrow_token_account,
                to: self.holder_token_account,
            }),
    {
        TokenTransfer {
            authority: self.auction_account_key,
            from: self.escrow_token_account,
            to: self.holder_token_account,
        }
    }

    /// The release of the emptied escrow, whose rent goes to the owner.
    pub fn into_close_account_ctx(&self) -> (r: TokenAccountClose)
        ensures
            r == (TokenAccountClose {
                account: self.escrow_token_account,
                authority: self.auction_account_key,
                destination: self.authority,
            }),
    {
        TokenAccountClose {
            account: self.escrow_token_account,
            authority: self.auction_account_key,
            destination: self.authority,
        }
    }
}

/// The rejection, if any, of a bid at `current_time`, in the order in which
/// the conditions are checked.
pub open spec fn bid_error(ctx: Bid, current_time: i64) -> Option<CustomErrorCode> {
    let round = ctx.auction_account;
    if ctx.escrow_token_account != round.escrow_account {
        Some(CustomErrorCode::InvalidEscrow)
    } else if ctx.auction_config.global_vault != ctx.global_vault {
        Some(CustomErrorCode::MismatchedGlobalVault)
    } else if current_time < round.starting_time {
        Some(CustomErrorCode::AuctionEarly)
    } else if current_time > round.starting_time + round.auction_period {
        Some(CustomErrorCode::AuctionLate)
    } else if round.current_auction_slot_count == 0 {
        Some(CustomErrorCode::AuctionLate)
    } else {
        None
    }
}

/// The accounts after a bid at `current_time`: the decay window restarts at
/// the bid and the round has one slot less.
pub open spec fn after_bid(ctx: Bid, current_time: i64) -> Bid {
    Bid {
        auction_account: AuctionAccount {
            starting_time: current_time,
            current_auction_slot_count: (ctx.auction_account.current_auction_slot_count - 1) as u32,
            ..ctx.auction_account
        },
        ..ctx
    }
}

/// The price that a bid at `current_time` pays.
pub open spec fn bid_price(ctx: Bid, current_time: i64) -> int {
    decayed_price(
        ctx.auction_account.starting_price as int,
        ctx.auction_account.starting_time as int,
        ctx.auction_account.auction_period as int,
        current_time as int,
    )
}

/// Takes one slot of the round at `current_time`, the platform clock's
/// reading. The result is the price to move from the bidder to the vault;
/// the asset to move from the escrow to the bidder is the round's `amount`.
pub fn bid(ctx: &mut Bid, current_time: i64) -> (r: Result<u64, CustomErrorCode>)
    requires
        old(ctx).auction_account.wf(),
    ensures
        final(ctx).auction_account.wf(),
        match bid_error(*old(ctx), current_time) {
            Some(e) => r == Err::<u64, CustomErrorCode>(e) && *final(ctx) == *old(ctx),
            None => r == Ok::<u64, CustomErrorCode>(bid_price(*old(ctx), current_time) as u64)
                && *final(ctx) == after_bid(*old(ctx), current_time),
        },
{
    if ctx.escrow_token_account != ctx.auction_account.escrow_account {
        return Err(CustomErrorCode::InvalidEscrow);
    }
    if ctx.auction_config.global_vault != ctx.global_vault {
        return Err(CustomErrorCode::MismatchedGlobalVault);
    }
    let starting_time = ctx.auction_account.starting_time;
    let ending_time: i128 = (starting_time as i128) + (ctx.auction_account.auction_period as i128);
    if current_time < starting_time {
        return Err(CustomErrorCode::AuctionEarly);
    }
    if (current_time as i128) > ending_time {
        return Err(CustomErrorCode::AuctionLate);
    }
    if ctx.auction_account.current_auction_slot_count == 0 {
        return Err(CustomErrorCode::AuctionLate);
    }
    let price = price_at(
        ctx.auction_account.starting_price,
        starting_time,
        ctx.auction_account.auction_period,
        current_time,
    );
    ctx.auction_account.starting_time = current_time;
    ctx.auction_account.current_auction_slot_count = ctx.auction_account.current_auction_slot_count - 1;
    Ok(price as u64)
}

impl Bid {
    /// The movement of one slot's asset from the escrow to the bidder,
    /// signed by the round record.
    pub fn into_transfer_ctx(&self) -> (r: TokenTransfer)
        ensures
            r == (TokenTransfer {
                authority: self.auction_account_key,
                from: self.escrow_token_account,
                to: self.bidder_token_account,
            }),
    {
        TokenTransfer {
            authority: self.auction_account_key,
            from: self.escrow_token_account,
            to: self.bidder_token_account,
        }
    }
}

} // verus!
