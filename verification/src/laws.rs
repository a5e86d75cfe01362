//! Properties of the game that span its operations.
use vstd::prelude::*;
use crate::state::User;
use crate::accounts::{Initialize, Play};
use crate::admin::initialized;
use crate::claim::claim;
use crate::game::{can_play, drawn, payout_rate, pick, stock, wins, won_tier};
use crate::state::{ErrorCode, Pool, Prize};

verus! {

broadcast use {vstd::seq_lib::group_to_multiset_ensures, vstd::array::group_array_axioms};

/// A play wins at most one prize, and a prize leaves the stock only by
/// becoming the player's prize: each tier's stock loses exactly the prize the
/// player is handed, and that tier's win count goes up by one; every other
/// tier is untouched. So a tier's win count plus its stock never changes on
/// a play, and a winning play leaves a claim waiting.
pub proof fn law_play_moves_one_prize_to_the_player(before: Play, after: Play, number: int)
    requires
        can_play(before.pool),
        drawn(before, after, number),
    ensures
        after.pool.play_tried == before.pool.play_tried + 1,
        forall|t: u8|
            t < 3 ==> wins(after.pool, t) + stock(after.prize, t) == wins(before.pool, t) + stock(
                before.prize,
                t,
            ),
        won_tier(before.pool, before.prize) is Some ==> claim(after.user) is Ok,
        won_tier(before.pool, before.prize) is None ==> {
            &&& after.prize.prize0@ == before.prize.prize0@
            &&& after.prize.prize1@ == before.prize.prize1@
            &&& after.prize.prize2@ == before.prize.prize2@
            &&& after.user == before.user
        },
        won_tier(before.pool, before.prize) == Some(0u8) ==> before.prize.prize0@.to_multiset()
            == after.prize.prize0@.to_multiset().insert(after.user.prize_amount),
        won_tier(before.pool, before.prize) == Some(1u8) ==> before.prize.prize1@.to_multiset()
            == after.prize.prize1@.to_multiset().insert(after.user.prize_amount),
        won_tier(before.pool, before.prize) == Some(2u8) ==> before.prize.prize2@.to_multiset()
            == after.prize.prize2@.to_multiset().insert(after.user.prize_token),
{
    let won = won_tier(before.pool, before.prize);
    if let Some(tier) = won {
        let index = pick(tier, number, stock(before.prize, tier) as int);
        assert(0 <= index < stock(before.prize, tier));
        if tier == 0 {
            let s = before.prize.prize0@;
            assert(s.to_multiset() =~= s.remove(index).to_multiset().insert(s[index]));
        } else if tier == 1 {
            let s = before.prize.prize1@;
            assert(s.to_multiset() =~= s.remove(index).to_multiset().insert(s[index]));
        } else {
            let s = before.prize.prize2@;
            assert(s.to_multiset() =~= s.remove(index).to_multiset().insert(s[index]));
        }
    }
}

/// A prize is paid once: a claim that succeeds leaves nothing to claim, so
/// any claim after it, of any tier, is refused with `NotWinner`.
pub proof fn law_prize_claimed_once(user: User)
    ensures
        claim(user) matches Ok(after) ==> claim(after) == Err::<User, ErrorCode>(
            ErrorCode::NotWinner,
        ),
        claim(user) is Err <==> !user.win,
{
}

/// A play wins a tier only while that tier's payout rate, counting the play,
/// is under the tier's odds, and only if the tier has a prize in stock.
pub proof fn law_wins_respect_the_odds(pool: Pool, prize: Prize, tier: u8)
    requires
        won_tier(pool, prize) == Some(tier),
    ensures
        tier < 3,
        payout_rate(wins(pool, tier), pool.play_tried + 1) < pool.prize_probability[tier as int],
        stock(prize, tier) > 0,
{
}

/// A tier whose odds are zero is never won.
pub proof fn law_closed_tier_never_pays(pool: Pool, prize: Prize, tier: u8)
    requires
        tier < 3,
        pool.prize_probability[tier as int] == 0,
    ensures
        won_tier(pool, prize) != Some(tier),
{
    if won_tier(pool, prize) == Some(tier) {
        law_wins_respect_the_odds(pool, prize, tier);
        let w = wins(pool, tier);
        let p = pool.play_tried + 1;
        assert((w * 1_000_000) / p >= 0) by (nonlinear_arith)
            requires
                w >= 0,
                p > 0,
        ;
    }
}

/// A freshly set-up pool pays nothing until its authority opens a tier, and
/// each tier starts with a win count of one and no stock.
pub proof fn law_fresh_pool(
    before: Initialize,
    after: Initialize,
    pool_nonce: u8,
    vault_nonce: u8,
    prize_nonce: u8,
    prize: Prize,
)
    requires
        initialized(before, after, pool_nonce, vault_nonce, prize_nonce),
    ensures
        won_tier(after.pool, prize) is None,
        forall|t: u8| t < 3 ==> wins(after.pool, t) + stock(after.prize, t) == 1,
        can_play(after.pool),
{
    law_closed_tier_never_pays(after.pool, prize, 0);
    law_closed_tier_never_pays(after.pool, prize, 1);
    law_closed_tier_never_pays(after.pool, prize, 2);
}

} // verus!
