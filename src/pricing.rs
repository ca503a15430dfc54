//! The price of a round at a given instant: a linear decay from the starting
//! price at the start of the window down to zero at its end.
use vstd::prelude::*;
use vstd::arithmetic::div_mod::{lemma_div_is_ordered, lemma_div_multiples_vanish, lemma_div_pos_is_pos};
use vstd::arithmetic::mul::{lemma_mul_inequality, lemma_mul_is_commutative};

verus! {

/// `starting_price - elapsed * starting_price / period`, with
/// `elapsed = now - starting_time` and the division rounding down.
pub open spec fn decayed_price(starting_price: int, starting_time: int, period: int, now: int) -> int {
    starting_price - ((now - starting_time) * starting_price) / period
}

/// Inside the window the decayed price lies between zero and the starting price.
pub proof fn lemma_decayed_price_bounds(starting_price: int, starting_time: int, period: int, now: int)
    requires
        0 <= starting_price,
        0 < period,
        starting_time <= now <= starting_time + period,
    ensures
        0 <= decayed_price(starting_price, starting_time, period, now) <= starting_price,
{
    let elapsed = now - starting_time;
    lemma_mul_inequality(elapsed, period, starting_price);
    lemma_mul_is_commutative(period, starting_price);
    lemma_div_is_ordered(elapsed * starting_price, starting_price * period, period);
    lemma_div_multiples_vanish(starting_price, period);
    assert(0 <= elapsed * starting_price) by (nonlinear_arith)
        requires
            0 <= elapsed,
            0 <= starting_price,
    ;
    lemma_div_pos_is_pos(elapsed * starting_price, period);
}

/// The price at `now` of a window that opened at `starting_time` with
/// `starting_price` and lasts `period` seconds. The product of the elapsed
/// time and the price is formed in 128 bits, where it cannot overflow.
pub fn price_at(starting_price: u32, starting_time: i64, period: i64, now: i64) -> (price: u32)
    requires
        0 < period,
        starting_time <= now,
        now <= starting_time + period,
    ensures
        price == decayed_price(starting_price as int, starting_time as int, period as int, now as int),
{
    proof {
        lemma_decayed_price_bounds(starting_price as int, starting_time as int, period as int, now as int);
    }
    let elapsed: u128 = ((now as i128) - (starting_time as i128)) as u128;
    proof {
        assert(elapsed * (starting_price as u128) <= (u64::MAX as int) * (u32::MAX as int)) by (nonlinear_arith)
            requires
                elapsed <= u64::MAX,
                starting_price <= u32::MAX,
        ;
    }
    let product: u128 = elapsed * (starting_price as u128);
    let drop: u128 = product / (period as u128);
    ((starting_price as u128) - drop) as u32
}

} // verus!
