//! When a session ends: wall-clock deadline and expiry block.

use vstd::prelude::*;

use crate::types::{Clock, Config};

verus! {

/// The number of blocks a session of `duration` milliseconds lasts: the
/// quotient `duration / ms_per_block`, rounded up.
pub open spec fn blocks_for(duration: u64, ms_per_block: u64) -> int
    recommends
        ms_per_block > 0,
{
    if (duration as int) % (ms_per_block as int) == 0 {
        (duration as int) / (ms_per_block as int)
    } else {
        (duration as int) / (ms_per_block as int) + 1
    }
}

/// Whether both deadlines of a session that starts at `clock` and lasts
/// `duration` milliseconds can be represented: the wall-clock deadline in 64
/// bits, the expiry block in 32.
pub open spec fn expiry_fits(config: Config, clock: Clock, duration: u64) -> bool {
    &&& clock.block_timestamp + duration <= u64::MAX
    &&& clock.block_height + blocks_for(duration, config.ms_per_block) <= u32::MAX
}

/// The two deadlines of a session, and the distance to the second in blocks.
#[derive(Clone, Copy, Debug, PartialEq, Eq, Structural)]
pub struct Expiry {
    /// Wall-clock deadline in milliseconds.
    pub expires: u64,
    /// Blocks between the start of the session and its expiry.
    pub number_of_blocks: u32,
    /// First block at which the session is no longer active.
    pub expires_at_block: u32,
}

/// The deadlines of a session that starts at `clock` and lasts `duration`
/// milliseconds. Meaningful where [`expiry_fits`] holds.
pub open spec fn expiry_of(config: Config, clock: Clock, duration: u64) -> Expiry {
    Expiry {
        expires: (clock.block_timestamp + duration) as u64,
        number_of_blocks: blocks_for(duration, config.ms_per_block) as u32,
        expires_at_block: (clock.block_height + blocks_for(duration, config.ms_per_block)) as u32,
    }
}

/// The deadlines where they can be represented, and `None` where not.
pub open spec fn expiry_outcome(config: Config, clock: Clock, duration: u64) -> Option<Expiry> {
    if expiry_fits(config, clock, duration) {
        Some(expiry_of(config, clock, duration))
    } else {
        None
    }
}

/// `blocks_for` is the least number of blocks that covers the duration.
pub proof fn lemma_blocks_for_is_least(duration: u64, ms_per_block: u64)
    requires
        ms_per_block > 0,
    ensures
        0 <= blocks_for(duration, ms_per_block) <= duration,
        blocks_for(duration, ms_per_block) * ms_per_block >= duration,
        forall|n: int|
            0 <= n && #[trigger] (n * ms_per_block) >= duration ==> n >= blocks_for(
                duration,
                ms_per_block,
            ),
{
    let d = duration as int;
    let m = ms_per_block as int;
    let q = d / m;
    let r = d % m;
    assert(d == q * m + r && 0 <= r < m && 0 <= q <= d) by (nonlinear_arith)
        requires
            q == d / m,
            r == d % m,
            m > 0,
            d >= 0,
    ;
    assert((q + 1) * m == q * m + m) by (nonlinear_arith);
    if r != 0 {
        assert(q + 1 <= d) by (nonlinear_arith)
            requires
                d == q * m + r,
                0 < r < m,
                q >= 0,
        ;
    }
    assert forall|n: int| 0 <= n && #[trigger] (n * m) >= d implies n >= blocks_for(
        duration,
        ms_per_block,
    ) by {
        if n < blocks_for(duration, ms_per_block) {
            if r == 0 {
                assert(n * m <= (q - 1) * m) by (nonlinear_arith)
                    requires
                        n <= q - 1,
                        m > 0,
                ;
                assert((q - 1) * m == q * m - m) by (nonlinear_arith);
            } else {
                assert(n * m <= q * m) by (nonlinear_arith)
                    requires
                        n <= q,
                        m > 0,
                ;
            }
        }
    }
}

/// Computes the deadlines of a session, or `None` where one of them cannot
/// be represented.
pub fn compute_expiry(config: &Config, clock: &Clock, duration: u64) -> (expiry: Option<Expiry>)
    requires
        config.ms_per_block > 0,
    ensures
        expiry == expiry_outcome(*config, *clock, duration),
{
    let expires: u64 = match clock.block_timestamp.checked_add(duration) {
        Some(t) => t,
        None => {
            return None;
        },
    };
    let quotient: u64 = duration / config.ms_per_block;
    let remainder: u64 = duration % config.ms_per_block;
    proof {
        lemma_blocks_for_is_least(duration, config.ms_per_block);
    }
    let blocks: u64 = if remainder == 0 {
        quotient
    } else {
        quotient + 1
    };
    if blocks > u32::MAX as u64 {
        return None;
    }
    let number_of_blocks: u32 = blocks as u32;
    match clock.block_height.checked_add(number_of_blocks) {
        Some(expires_at_block) => Some(Expiry { expires, number_of_blocks, expires_at_block }),
        None => None,
    }
}

} // verus!
