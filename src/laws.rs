//! Laws of the auction, stated over the models that the operations'
//! contracts use.
use vstd::prelude::*;
use vstd::arithmetic::div_mod::{lemma_div_is_ordered, lemma_div_multiples_vanish};
use vstd::arithmetic::mul::{lemma_mul_inequality, lemma_mul_is_commutative};
use crate::auction::{after_bid, bid_error, open_error, opened, Bid, InitializeAuction};
use crate::error::CustomErrorCode;
use crate::instructions::create_error;
use crate::pricing::decayed_price;
use crate::state::MAX_FEE_BPS;

verus! {

/// At the start of its window the price is the starting price.
pub proof fn lemma_price_at_start(starting_price: int, starting_time: int, period: int)
    requires
        0 < period,
    ensures
        decayed_price(starting_price, starting_time, period, starting_time) == starting_price,
{
}

/// At the end of its window the price is zero.
pub proof fn lemma_price_at_end(starting_price: int, starting_time: int, period: int)
    requires
        0 < period,
    ensures
        decayed_price(starting_price, starting_time, period, starting_time + period) == 0,
{
    lemma_mul_is_commutative(period, starting_price);
    lemma_div_multiples_vanish(starting_price, period);
}

/// Within its window the price never rises as time goes on.
pub proof fn lemma_price_non_increasing(
    starting_price: int,
    starting_time: int,
    period: int,
    earlier: int,
    later: int,
)
    requires
        0 <= starting_price,
        0 < period,
        starting_time <= earlier <= later <= starting_time + period,
    ensures
        decayed_price(starting_price, starting_time, period, later)
            <= decayed_price(starting_price, starting_time, period, earlier),
{
    lemma_mul_inequality(earlier - starting_time, later - starting_time, starting_price);
    lemma_div_is_ordered(
        (earlier - starting_time) * starting_price,
        (later - starting_time) * starting_price,
        period,
    );
}

/// Opening a round moves the schedule gate to the current time plus the
/// configuration's interval, whatever window the new round has.
pub proof fn lemma_open_moves_gate(
    ctx: InitializeAuction,
    current_time: i64,
    starting_time: i64,
    auction_period: i64,
    start_price: u32,
    amount: u64,
    bump: u8,
)
    requires
        open_error(ctx, current_time, starting_time, auction_period, amount) is None,
        current_time + ctx.auction_config.interval_seconds <= i64::MAX,
    ensures
        opened(ctx, current_time, starting_time, auction_period, start_price, amount, bump)
            .auction_config.next_auction_start == current_time + ctx.auction_config.interval_seconds,
{
}

/// A round with no slot left rejects as late every bid made on it with the
/// right escrow and vault from the start of its window on.
pub proof fn lemma_exhausted_round_rejects(ctx: Bid, current_time: i64)
    requires
        ctx.auction_account.current_auction_slot_count == 0,
        ctx.escrow_token_account == ctx.auction_account.escrow_account,
        ctx.auction_config.global_vault == ctx.global_vault,
        ctx.auction_account.starting_time <= current_time,
    ensures
        bid_error(ctx, current_time) == Some(CustomErrorCode::AuctionLate),
{
}

/// A bid that is taken uses exactly one slot and restarts the decay window
/// at the time of the bid.
pub proof fn lemma_bid_takes_one_slot(ctx: Bid, current_time: i64)
    requires
        bid_error(ctx, current_time) is None,
    ensures
        after_bid(ctx, current_time).auction_account.current_auction_slot_count
            == ctx.auction_account.current_auction_slot_count - 1,
        after_bid(ctx, current_time).auction_account.starting_time == current_time,
{
}

/// A configuration is accepted exactly when both fee rates are at most one
/// hundred percent, and a rate above that is rejected with its own error.
pub proof fn lemma_fee_bounds(fee_bps: u32, fee_burn_bps: u32)
    ensures
        create_error(fee_bps, fee_burn_bps) is None <==> (fee_bps <= MAX_FEE_BPS && fee_burn_bps
            <= MAX_FEE_BPS),
        fee_bps > MAX_FEE_BPS ==> create_error(fee_bps, fee_burn_bps) == Some(
            CustomErrorCode::InvalidFee,
        ),
        fee_bps <= MAX_FEE_BPS && fee_burn_bps > MAX_FEE_BPS ==> create_error(fee_bps, fee_burn_bps)
            == Some(CustomErrorCode::InvalidFeeBurn),
{
}

/// Opening is rejected for a zero amount, an empty escrow, a window of no
/// positive length, a start in the past, a schedule gate not yet reached,
/// and a previous round that still has slots.
pub proof fn lemma_open_rejections(
    ctx: InitializeAuction,
    current_time: i64,
    starting_time: i64,
    auction_period: i64,
    amount: u64,
)
    requires
        amount == 0
        || ctx.escrow_token_account.amount == 0
        || auction_period <= 0
        || current_time > starting_time
        || ctx.auction_config.next_auction_start > current_time
        || ctx.auction_account.current_auction_slot_count > 0,
    ensures
        open_error(ctx, current_time, starting_time, auction_period, amount) is Some,
{
}

} // verus!
