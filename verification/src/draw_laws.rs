//! What a draw does, stated directly over the pool's counters and odds, the
//! stock and the play's number.
use vstd::prelude::*;
use crate::accounts::Play;
use crate::game::{can_play, drawn};
use crate::hash::{be_bytes, byte_sum, play_seed};
use crate::state::{Key, Pool};

verus! {

broadcast use vstd::array::group_array_axioms;

/// Wins per million plays, counting this play.
pub open spec fn rate_of(before: Play, wins: u64) -> int {
    (wins as int * 1_000_000) / (before.pool.play_tried as int + 1)
}

/// Nothing but the play counter changes: no tier pays, the stock and the
/// player account stay as they were.
pub open spec fn nothing_won(before: Play, after: Play) -> bool {
    &&& after.user == before.user
    &&& after.prize.prize0@ == before.prize.prize0@
    &&& after.prize.prize1@ == before.prize.prize1@
    &&& after.prize.prize2@ == before.prize.prize2@
    &&& after.pool.play_tried == before.pool.play_tried + 1
    &&& after.pool.reward0 == before.pool.reward0
    &&& after.pool.reward1 == before.pool.reward1
    &&& after.pool.reward2 == before.pool.reward2
    &&& after.pool.prize_probability == before.pool.prize_probability
}

/// Tier 1 comes first: while its rate is under its odds and it has stock,
/// the player wins the tier-1 prize at `number % len` when the number is
/// between 2000 and 2500, else the first one, paid in the reward mint; the
/// other tiers are untouched whatever their odds.
pub proof fn law_tier1_first(before: Play, after: Play, number: int)
    requires
        can_play(before.pool),
        drawn(before, after, number),
        rate_of(before, before.pool.reward1) < before.pool.prize_probability[1] as int,
        before.prize.prize1@.len() > 0,
    ensures
        ({
            let s = before.prize.prize1@;
            let i = if 2000 <= number && number <= 2500 { number % (s.len() as int) } else { 0 };
            &&& after.user.win
            &&& after.user.prize_type == 1
            &&& after.user.prize_amount == s[i]
            &&& after.user.prize_token == before.pool.reward_mint
            &&& after.user.owner == before.user.owner
            &&& after.user.nonce == before.user.nonce
            &&& after.prize.prize1@ == s.subrange(0, i) + s.subrange(i + 1, s.len() as int)
            &&& after.prize.prize0@ == before.prize.prize0@
            &&& after.prize.prize2@ == before.prize.prize2@
            &&& after.pool.reward1 == before.pool.reward1 + 1
            &&& after.pool.reward0 == before.pool.reward0
            &&& after.pool.reward2 == before.pool.reward2
            &&& after.pool.play_tried == before.pool.play_tried + 1
            &&& after.pool.prize_probability == before.pool.prize_probability
            &&& after.pool.authority == before.pool.authority
            &&& after.pool.reward_mint == before.pool.reward_mint
            &&& after.owner == before.owner
        }),
{
    let s = before.prize.prize1@;
    let i = if 2000 <= number && number <= 2500 { number % (s.len() as int) } else { 0 };
    assert(s.remove(i) =~= s.subrange(0, i) + s.subrange(i + 1, s.len() as int));
}

/// An open tier 1 with no stock wins nothing, even if tier 0 or 2 is open.
pub proof fn law_open_empty_tier1_blocks(before: Play, after: Play, number: int)
    requires
        can_play(before.pool),
        drawn(before, after, number),
        rate_of(before, before.pool.reward1) < before.pool.prize_probability[1] as int,
        before.prize.prize1@.len() == 0,
    ensures
        nothing_won(before, after),
{
}

/// With tier 1 closed, tier 0 comes next: while its rate is under its odds
/// and it has stock, the player wins the tier-0 prize at `number % len` when
/// the number is at most 3000, else the first one, paid in lamports (the
/// system program); tier 2 is untouched whatever its odds.
pub proof fn law_tier0_before_tier2(before: Play, after: Play, number: int)
    requires
        can_play(before.pool),
        drawn(before, after, number),
        rate_of(before, before.pool.reward1) >= before.pool.prize_probability[1] as int,
        rate_of(before, before.pool.reward0) < before.pool.prize_probability[0] as int,
        before.prize.prize0@.len() > 0,
    ensures
        ({
            let s = before.prize.prize0@;
            let i = if number <= 3000 { number % (s.len() as int) } else { 0 };
            &&& after.user.win
            &&& after.user.prize_type == 0
            &&& after.user.prize_amount == s[i]
            &&& after.user.prize_token == before.system_program
            &&& after.user.owner == before.user.owner
            &&& after.user.nonce == before.user.nonce
            &&& after.prize.prize0@ == s.subrange(0, i) + s.subrange(i + 1, s.len() as int)
            &&& after.prize.prize1@ == before.prize.prize1@
            &&& after.prize.prize2@ == before.prize.prize2@
            &&& after.pool.reward0 == before.pool.reward0 + 1
            &&& after.pool.reward1 == before.pool.reward1
            &&& after.pool.reward2 == before.pool.reward2
            &&& after.pool.play_tried == before.pool.play_tried + 1
            &&& after.pool.prize_probability == before.pool.prize_probability
            &&& after.pool.authority == before.pool.authority
            &&& after.pool.reward_mint == before.pool.reward_mint
            &&& after.owner == before.owner
        }),
{
    let s = before.prize.prize0@;
    let i = if number <= 3000 { number % (s.len() as int) } else { 0 };
    assert(s.remove(i) =~= s.subrange(0, i) + s.subrange(i + 1, s.len() as int));
}

/// With tier 1 closed, an open tier 0 with no stock wins nothing, even if
/// tier 2 is open.
pub proof fn law_open_empty_tier0_blocks(before: Play, after: Play, number: int)
    requires
        can_play(before.pool),
        drawn(before, after, number),
        rate_of(before, before.pool.reward1) >= before.pool.prize_probability[1] as int,
        rate_of(before, before.pool.reward0) < before.pool.prize_probability[0] as int,
        before.prize.prize0@.len() == 0,
    ensures
        nothing_won(before, after),
{
}

/// Only with tiers 1 and 0 closed is tier 2 offered: while its rate is under
/// its odds and it has stock, the player wins one token of the tier-2 vault
/// at `number % len` when the number is above 5000, else the first one.
pub proof fn law_tier2_last(before: Play, after: Play, number: int)
    requires
        can_play(before.pool),
        drawn(before, after, number),
        rate_of(before, before.pool.reward1) >= before.pool.prize_probability[1] as int,
        rate_of(before, before.pool.reward0) >= before.pool.prize_probability[0] as int,
        rate_of(before, before.pool.reward2) < before.pool.prize_probability[2] as int,
        before.prize.prize2@.len() > 0,
    ensures
        ({
            let s = before.prize.prize2@;
            let i = if number > 5000 { number % (s.len() as int) } else { 0 };
            &&& after.user.win
            &&& after.user.prize_type == 2
            &&& after.user.prize_amount == 1
            &&& after.user.prize_token == s[i]
            &&& after.user.owner == before.user.owner
            &&& after.user.nonce == before.user.nonce
            &&& after.prize.prize2@ == s.subrange(0, i) + s.subrange(i + 1, s.len() as int)
            &&& after.prize.prize0@ == before.prize.prize0@
            &&& after.prize.prize1@ == before.prize.prize1@
            &&& after.pool.reward2 == before.pool.reward2 + 1
            &&& after.pool.reward0 == before.pool.reward0
            &&& after.pool.reward1 == before.pool.reward1
            &&& after.pool.play_tried == before.pool.play_tried + 1
            &&& after.pool.prize_probability == before.pool.prize_probability
            &&& after.pool.authority == before.pool.authority
            &&& after.pool.reward_mint == before.pool.reward_mint
            &&& after.owner == before.owner
        }),
{
    let s = before.prize.prize2@;
    let i = if number > 5000 { number % (s.len() as int) } else { 0 };
    assert(s.remove(i) =~= s.subrange(0, i) + s.subrange(i + 1, s.len() as int));
}

/// With tiers 1 and 0 closed, and tier 2 closed or out of stock, a play wins
/// nothing.
pub proof fn law_no_open_tier_with_stock(before: Play, after: Play, number: int)
    requires
        can_play(before.pool),
        drawn(before, after, number),
        rate_of(before, before.pool.reward1) >= before.pool.prize_probability[1] as int,
        rate_of(before, before.pool.reward0) >= before.pool.prize_probability[0] as int,
        rate_of(before, before.pool.reward2) >= before.pool.prize_probability[2] as int
            || before.prize.prize2@.len() == 0,
    ensures
        nothing_won(before, after),
{
}

/// A pool can take one more play exactly when counting it cannot overflow:
/// the play counter is below the largest `u64`, and every tier's win count
/// times a million still fits in a `u64`.
pub proof fn law_can_play_iff_no_overflow(pool: Pool)
    ensures
        can_play(pool) <==> {
            &&& pool.play_tried as int + 1 <= 0xffff_ffff_ffff_ffff
            &&& pool.reward0 as int * 1_000_000 <= 0xffff_ffff_ffff_ffff
            &&& pool.reward1 as int * 1_000_000 <= 0xffff_ffff_ffff_ffff
            &&& pool.reward2 as int * 1_000_000 <= 0xffff_ffff_ffff_ffff
        },
{
}

/// The bytes a play hashes are the player's 32 address bytes followed by the
/// clock's 8 bytes, most significant first: read back in base 256 they give
/// the clock.
pub proof fn law_seed_is_address_then_clock(player: Key, time: u64)
    ensures
        play_seed(player, time).len() == 40,
        forall|i: int| 0 <= i < 32 ==> play_seed(player, time)[i] == player[i],
        ({
            let b = play_seed(player, time);
            time as int == b[32] as int * 0x100_0000_0000_0000 + b[33] as int * 0x1_0000_0000_0000
                + b[34] as int * 0x100_0000_0000 + b[35] as int * 0x1_0000_0000 + b[36] as int
                * 0x100_0000 + b[37] as int * 0x1_0000 + b[38] as int * 0x100 + b[39] as int
        }),
{
    let x = time;
    assert(x == ((x >> 56u64) as u8) as u64 * 0x100_0000_0000_0000u64 + ((x >> 48u64) as u8) as u64
        * 0x1_0000_0000_0000u64 + ((x >> 40u64) as u8) as u64 * 0x100_0000_0000u64 + ((x
        >> 32u64) as u8) as u64 * 0x1_0000_0000u64 + ((x >> 24u64) as u8) as u64 * 0x100_0000u64
        + ((x >> 16u64) as u8) as u64 * 0x1_0000u64 + ((x >> 8u64) as u8) as u64 * 0x100u64 + (x
        as u8) as u64) by (bit_vector);
    let b = play_seed(player, time);
    assert(b[32] == be_bytes(time)[0]);
}

/// The number that picks a prize is the plain sum of the digest's bytes.
pub proof fn law_byte_sum_is_the_sum(bytes: Seq<u8>)
    ensures
        byte_sum(bytes) == bytes.fold_left(0int, |acc: int, b: u8| acc + b),
    decreases bytes.len(),
{
    if bytes.len() > 0 {
        law_byte_sum_is_the_sum(bytes.drop_last());
    }
}

} // verus!
