use vstd::prelude::*;
use crate::state::{Key, Pool, Prize, User, InstructionError};
use crate::accounts::{Play};
use crate::hash::{byte_sum, digest_sum, play_digest, play_number};
use crate::transfer::SolTransfer;

verus! {

broadcast use vstd::array::group_array_axioms;

/// What a play costs, in lamports.
pub const PLAY_FEE: u64 = 100_000_000;

/// Wins per million plays.
pub open spec fn payout_rate(wins: int, plays: int) -> int {
    (wins * 1_000_000) / plays
}

/// The tier a play is offered, counting the play itself: tier 1 while its
/// payout rate is under its odds, else tier 0 likewise, else tier 2 likewise.
pub open spec fn offered_tier(pool: Pool) -> Option<u8> {
    let plays = pool.play_tried + 1;
    if payout_rate(pool.reward1 as int, plays) < pool.prize_probability[1] {
        Some(1u8)
    } else if payout_rate(pool.reward0 as int, plays) < pool.prize_probability[0] {
        Some(0u8)
    } else if payout_rate(pool.reward2 as int, plays) < pool.prize_probability[2] {
        Some(2u8)
    } else {
        None
    }
}

/// How many prizes of a tier are in stock.
pub open spec fn stock(prize: Prize, tier: u8) -> nat {
    if tier == 0 {
        prize.prize0@.len()
    } else if tier == 1 {
        prize.prize1@.len()
    } else {
        prize.prize2@.len()
    }
}

/// How many prizes of a tier the pool has paid out, plus one.
pub open spec fn wins(pool: Pool, tier: u8) -> int {
    if tier == 0 {
        pool.reward0 as int
    } else if tier == 1 {
        pool.reward1 as int
    } else {
        pool.reward2 as int
    }
}

/// The tier a play wins: the offered tier, if it has a prize in stock.
pub open spec fn won_tier(pool: Pool, prize: Prize) -> Option<u8> {
    match offered_tier(pool) {
        Some(tier) => if stock(prize, tier) > 0 {
            Some(tier)
        } else {
            None
        },
        None => None,
    }
}

/// Which prize of a tier holding `count` prizes the play's number picks: the
/// number modulo the count when the number falls in the tier's band, else
/// the first prize.
pub open spec fn pick(tier: u8, number: int, count: int) -> int {
    let in_band = if tier == 1 {
        2000 <= number <= 2500
    } else if tier == 0 {
        number <= 3000
    } else {
        number > 5000
    };
    if in_band {
        number % count
    } else {
        0
    }
}

/// The amount a win of `tier` at `index` pays: the stocked amount for tiers 0
/// and 1, a single token for tier 2.
pub open spec fn prize_amount(prize: Prize, tier: u8, index: int) -> u64 {
    if tier == 0 {
        prize.prize0@[index]
    } else if tier == 1 {
        prize.prize1@[index]
    } else {
        1
    }
}

/// What a win of `tier` at `index` pays in: lamports (the system program) for
/// tier 0, the reward mint for tier 1, the stocked vault for tier 2.
pub open spec fn prize_token(pool: Pool, prize: Prize, system_program: Key, tier: u8, index: int) -> Key {
    if tier == 0 {
        system_program
    } else if tier == 1 {
        pool.reward_mint
    } else {
        prize.prize2@[index]
    }
}

/// The stock of a tier after a play: the picked prize removed if the play
/// won this tier.
pub open spec fn stock_after<T>(stock: Seq<T>, tier: u8, won: Option<u8>, index: int) -> Seq<T> {
    if won == Some(tier) {
        stock.remove(index)
    } else {
        stock
    }
}

/// The effect of a play whose number is `number`.
pub open spec fn drawn(before: Play, after: Play, number: int) -> bool {
    let won = won_tier(before.pool, before.prize);
    let tier = won->0;
    let index = pick(tier, number, stock(before.prize, tier) as int);
    let bump = |t: u8| if won == Some(t) { 1int } else { 0int };
    &&& after.sol_vault == before.sol_vault
    &&& after.owner == before.owner
    &&& after.system_program == before.system_program
    &&& after.pool == Pool {
        play_tried: (before.pool.play_tried + 1) as u64,
        reward0: (before.pool.reward0 + bump(0)) as u64,
        reward1: (before.pool.reward1 + bump(1)) as u64,
        reward2: (before.pool.reward2 + bump(2)) as u64,
        ..before.pool
    }
    &&& after.prize.nonce == before.prize.nonce
    &&& after.prize.id == before.prize.id
    &&& after.prize.authority == before.prize.authority
    &&& after.prize.prize0@ == stock_after(before.prize.prize0@, 0, won, index)
    &&& after.prize.prize1@ == stock_after(before.prize.prize1@, 1, won, index)
    &&& after.prize.prize2@ == stock_after(before.prize.prize2@, 2, won, index)
    &&& after.user == if won is Some {
        User {
            prize_amount: prize_amount(before.prize, tier, index),
            prize_token: prize_token(before.pool, before.prize, before.system_program, tier, index),
            prize_type: tier,
            win: true,
            ..before.user
        }
    } else {
        before.user
    }
}

/// The counters of a pool can take one more play.
pub open spec fn can_play(pool: Pool) -> bool {
    &&& pool.play_tried < u64::MAX
    &&& pool.reward0 * 1_000_000 <= u64::MAX
    &&& pool.reward1 * 1_000_000 <= u64::MAX
    &&& pool.reward2 * 1_000_000 <= u64::MAX
}

/// Counts a play and, if the odds offer a tier with stock left, hands the
/// player the prize that the digest's byte sum picks.
pub fn draw_prize(ctx: &mut Play, digest: &[u8; 32])
    requires
        can_play(old(ctx).pool),
    ensures
        drawn(*old(ctx), *final(ctx), byte_sum(digest@)),
{
    let sum = digest_sum(digest);
    let ghost before = *ctx;
    ctx.pool.play_tried = ctx.pool.play_tried + 1;
    let plays = ctx.pool.play_tried;
    let rate0 = ctx.pool.reward0 * 1_000_000 / plays;
    let rate1 = ctx.pool.reward1 * 1_000_000 / plays;
    let rate2 = ctx.pool.reward2 * 1_000_000 / plays;
    if rate1 < ctx.pool.prize_probability[1] {
        assert(offered_tier(before.pool) == Some(1u8));
        let count = ctx.prize.prize1.len();
        if count > 0 {
            ctx.pool.reward1 = ctx.pool.reward1 + 1;
            let mut index: u64 = 0;
            if sum >= 2000 && sum <= 2500 {
                index = sum % (count as u64);
            }
            assert(index == pick(1, sum as int, count as int));
            ctx.user.prize_amount = ctx.prize.prize1[index as usize];
            ctx.user.prize_token = ctx.pool.reward_mint;
            ctx.user.prize_type = 1;
            ctx.user.win = true;
            ctx.prize.prize1.remove(index as usize);
        }
    } else if rate0 < ctx.pool.prize_probability[0] {
        assert(offered_tier(before.pool) == Some(0u8));
        let count = ctx.prize.prize0.len();
        if count > 0 {
            ctx.pool.reward0 = ctx.pool.reward0 + 1;
            let mut index: u64 = 0;
            if sum <= 3000 {
                index = sum % (count as u64);
            }
            assert(index == pick(0, sum as int, count as int));
            ctx.user.prize_amount = ctx.prize.prize0[index as usize];
            ctx.user.prize_token = ctx.system_program;
            ctx.user.prize_type = 0;
            ctx.user.win = true;
            ctx.prize.prize0.remove(index as usize);
        }
    } else if rate2 < ctx.pool.prize_probability[2] {
        assert(offered_tier(before.pool) == Some(2u8));
        let count = ctx.prize.prize2.len();
        if count > 0 {
            ctx.pool.reward2 = ctx.pool.reward2 + 1;
            let mut index: u64 = 0;
            if sum > 5000 {
                index = sum % (count as u64);
            }
            assert(index == pick(2, sum as int, count as int));
            ctx.user.prize_amount = 1;
            ctx.user.prize_type = 2;
            ctx.user.prize_token = ctx.prize.prize2[index as usize];
            ctx.user.win = true;
            ctx.prize.prize2.remove(index as usize);
        }
    } else {
        assert(offered_tier(before.pool) is None);
    }
}

/// The outcome of `play`.
pub open spec fn play_result(
    before: Play,
    after: Play,
    current_time: u64,
    res: Result<SolTransfer, InstructionError>,
) -> bool {
    &&& (!before.constraints() ==> res == Err::<SolTransfer, InstructionError>(
            InstructionError::ConstraintRaw,
        ) && after == before)
    &&& (before.constraints() ==> {
            &&& res == Ok::<SolTransfer, InstructionError>(
                SolTransfer {
                    from: before.owner,
                    to: before.sol_vault,
                    lamports: PLAY_FEE,
                    signer: None,
                },
            )
            &&& drawn(before, after, play_number(before.owner, current_time))
        })
}

/// A play: refused, with nothing changed, unless the signer owns the
/// player account; otherwise charges the player the fee into the pool's
/// vault, then draws with the SHA-256 of the player's address and the clock.
pub fn play(ctx: &mut Play, current_time: u64) -> (res: Result<SolTransfer, InstructionError>)
    requires
        old(ctx).constraints() ==> can_play(old(ctx).pool),
    ensures
        play_result(*old(ctx), *final(ctx), current_time, res),
{
    if !ctx.constraints_hold() {
        return Err(InstructionError::ConstraintRaw);
    }
    let fee = SolTransfer { from: ctx.owner, to: ctx.sol_vault, lamports: PLAY_FEE, signer: None };
    let digest = play_digest(&ctx.owner, current_time);
    draw_prize(ctx, &digest);
    Ok(fee)
}

} // verus!
