use random_prize_game::accounts::{GetPrize0, Initialize, Play, TokenAccount};
use random_prize_game::admin::initialize;
use random_prize_game::claim::get_prize0;
use random_prize_game::game::{draw_prize, play, PLAY_FEE};
use random_prize_game::hash::{digest_sum, play_digest, seed_bytes, to_be_bytes};
use random_prize_game::state::{ErrorCode, InstructionError, Key, Pool, Prize, User};

fn key(b: u8) -> Key {
    [b; 32]
}

fn pool(probability: [u64; 3], play_tried: u64, rewards: [u64; 3]) -> Pool {
    Pool {
        authority: key(1),
        nonce: 9,
        vault_nonce: 8,
        sol_vault: key(2),
        reward_vault: key(3),
        reward_mint: key(4),
        prize_probability: probability,
        play_tried,
        reward0: rewards[0],
        reward1: rewards[1],
        reward2: rewards[2],
    }
}

fn prize(p0: Vec<u64>, p1: Vec<u64>, p2: Vec<Key>) -> Prize {
    Prize { nonce: 5, id: 0, authority: key(1), prize0: p0, prize1: p1, prize2: p2 }
}

fn user() -> User {
    User { nonce: 3, prize_amount: 0, prize_token: key(0), prize_type: 0, win: false, owner: key(7) }
}

fn ctx(pool: Pool, prize: Prize) -> Play {
    Play { pool, prize, user: user(), sol_vault: key(2), owner: key(7), system_program: key(0) }
}

/// A digest whose bytes add up to `sum` (at most 32 * 255).
fn digest_with_sum(mut sum: u64) -> [u8; 32] {
    let mut d = [0u8; 32];
    for b in d.iter_mut() {
        let take = if sum > 255 { 255 } else { sum };
        *b = take as u8;
        sum -= take;
    }
    d
}

#[test]
fn be_bytes_are_most_significant_first() {
    assert_eq!(to_be_bytes(0x0102_0304_0506_0708), [1, 2, 3, 4, 5, 6, 7, 8]);
    assert_eq!(to_be_bytes(1_700_000_000), 1_700_000_000u64.to_be_bytes());
}

#[test]
fn seed_is_address_then_clock() {
    let owner: Key = core::array::from_fn(|i| i as u8 + 1);
    let seed = seed_bytes(&owner, 1_700_000_000);
    assert_eq!(seed.len(), 40);
    assert_eq!(&seed[..32], &owner[..]);
    assert_eq!(&seed[32..], &1_700_000_000u64.to_be_bytes()[..]);
}

#[test]
fn play_digest_is_sha256_of_seed() {
    let owner: Key = core::array::from_fn(|i| i as u8 + 1);
    let d = play_digest(&owner, 1_700_000_000);
    assert_eq!(
        d,
        [
            67, 5, 17, 76, 220, 94, 243, 87, 60, 181, 180, 177, 107, 130, 224, 64, 13, 164, 53,
            249, 225, 200, 25, 145, 98, 254, 249, 241, 114, 159, 72, 89
        ]
    );
    assert_eq!(digest_sum(&d), 4282);
}

#[test]
fn digest_sum_bounds() {
    assert_eq!(digest_sum(&[0u8; 32]), 0);
    assert_eq!(digest_sum(&[255u8; 32]), 8160);
    assert_eq!(digest_sum(&digest_with_sum(2100)), 2100);
}

#[test]
fn closed_odds_pay_nothing_but_count_the_play() {
    let mut c = ctx(pool([0, 0, 0], 0, [1, 1, 1]), prize(vec![10], vec![20], vec![key(9)]));
    draw_prize(&mut c, &digest_with_sum(100));
    assert_eq!(c.pool.play_tried, 1);
    assert_eq!((c.pool.reward0, c.pool.reward1, c.pool.reward2), (1, 1, 1));
    assert_eq!(c.prize.prize0, vec![10]);
    assert_eq!(c.prize.prize1, vec![20]);
    assert_eq!(c.prize.prize2, vec![key(9)]);
    assert!(!c.user.win);
}

#[test]
fn tier1_in_band_picks_by_modulo() {
    // rate1 = 1 * 1_000_000 / 1 = 1_000_000 < 2_000_000
    let mut c = ctx(pool([0, 2_000_000, 0], 0, [1, 1, 1]), prize(vec![], vec![5, 6, 7], vec![]));
    draw_prize(&mut c, &digest_with_sum(2101)); // 2101 % 3 == 1
    assert_eq!(c.pool.reward1, 2);
    assert_eq!(c.prize.prize1, vec![5, 7]);
    assert!(c.user.win);
    assert_eq!(c.user.prize_amount, 6);
    assert_eq!(c.user.prize_type, 1);
    assert_eq!(c.user.prize_token, key(4));
}

#[test]
fn tier1_out_of_band_picks_first() {
    let mut c = ctx(pool([0, 2_000_000, 0], 0, [1, 1, 1]), prize(vec![], vec![5, 6, 7], vec![]));
    draw_prize(&mut c, &digest_with_sum(1999));
    assert_eq!(c.user.prize_amount, 5);
    assert_eq!(c.prize.prize1, vec![6, 7]);
}

#[test]
fn open_tier1_without_stock_blocks_tier0() {
    let mut c = ctx(pool([u64::MAX, 2_000_000, 0], 0, [1, 1, 1]), prize(vec![10], vec![], vec![]));
    draw_prize(&mut c, &digest_with_sum(100));
    assert!(!c.user.win);
    assert_eq!(c.prize.prize0, vec![10]);
    assert_eq!(c.pool.reward0, 1);
    assert_eq!(c.pool.play_tried, 1);
}

#[test]
fn tier0_pays_lamports_by_modulo_up_to_3000() {
    // plays 10 after this one: rate0 = 1 * 1e6 / 10 = 100_000 < 100_001
    let mut c = ctx(pool([100_001, 0, 0], 9, [1, 1, 1]), prize(vec![10, 20, 30, 40], vec![], vec![]));
    draw_prize(&mut c, &digest_with_sum(3000)); // 3000 % 4 == 0
    assert_eq!(c.user.prize_amount, 10);
    assert_eq!(c.user.prize_type, 0);
    assert_eq!(c.user.prize_token, key(0));
    assert_eq!(c.prize.prize0, vec![20, 30, 40]);
    assert_eq!(c.pool.reward0, 2);
    let mut c = ctx(pool([100_001, 0, 0], 9, [1, 1, 1]), prize(vec![10, 20, 30, 40], vec![], vec![]));
    draw_prize(&mut c, &digest_with_sum(2999)); // 2999 % 4 == 3
    assert_eq!(c.user.prize_amount, 40);
}

#[test]
fn tier0_rate_at_odds_is_closed() {
    // rate0 = 1e6 / 10 = 100_000, not under 100_000
    let mut c = ctx(pool([100_000, 0, 0], 9, [1, 1, 1]), prize(vec![10], vec![], vec![]));
    draw_prize(&mut c, &digest_with_sum(0));
    assert!(!c.user.win);
}

#[test]
fn tier2_pays_one_nft_above_5000() {
    let mut c = ctx(pool([0, 0, 1_000_001], 0, [1, 1, 1]), prize(vec![], vec![], vec![key(20), key(21)]));
    draw_prize(&mut c, &digest_with_sum(5001)); // 5001 % 2 == 1
    assert_eq!(c.user.prize_amount, 1);
    assert_eq!(c.user.prize_type, 2);
    assert_eq!(c.user.prize_token, key(21));
    assert_eq!(c.prize.prize2, vec![key(20)]);
    assert_eq!(c.pool.reward2, 2);
    let mut c = ctx(pool([0, 0, 1_000_001], 0, [1, 1, 1]), prize(vec![], vec![], vec![key(20), key(21)]));
    draw_prize(&mut c, &digest_with_sum(5000));
    assert_eq!(c.user.prize_token, key(20));
}

#[test]
fn play_charges_fee_and_draws_with_hash() {
    let owner: Key = core::array::from_fn(|i| i as u8 + 1);
    let mut c = ctx(pool([2_000_000, 0, 0], 0, [1, 1, 1]), prize(vec![11, 22], vec![], vec![]));
    c.owner = owner;
    c.user.owner = owner;
    let fee = play(&mut c, 1_700_000_000).unwrap();
    assert_eq!(fee.from, owner);
    assert_eq!(fee.to, key(2));
    assert_eq!(fee.lamports, PLAY_FEE);
    assert_eq!(PLAY_FEE, 100_000_000);
    assert!(fee.signer.is_none());
    // the number is 4282 > 3000: the first prize of tier 0
    assert!(c.user.win);
    assert_eq!(c.user.prize_amount, 11);
    assert_eq!(c.prize.prize0, vec![22]);
    assert_eq!(c.pool.play_tried, 1);
}

#[test]
fn a_new_win_replaces_an_unclaimed_one() {
    let mut c = ctx(pool([2_000_000, 0, 0], 0, [1, 1, 1]), prize(vec![11, 22], vec![], vec![]));
    c.user.win = true;
    c.user.prize_amount = 999;
    c.user.prize_type = 1;
    draw_prize(&mut c, &digest_with_sum(0));
    assert_eq!(c.user.prize_amount, 11);
    assert_eq!(c.user.prize_type, 0);
}

#[test]
fn stock_plus_wins_is_kept_by_a_play() {
    let mut c = ctx(pool([0, 2_000_000, 0], 0, [1, 1, 1]), prize(vec![1], vec![5, 6], vec![key(9)]));
    let before: Vec<u64> = vec![
        c.pool.reward0 + c.prize.prize0.len() as u64,
        c.pool.reward1 + c.prize.prize1.len() as u64,
        c.pool.reward2 + c.prize.prize2.len() as u64,
    ];
    draw_prize(&mut c, &digest_with_sum(2200));
    let after: Vec<u64> = vec![
        c.pool.reward0 + c.prize.prize0.len() as u64,
        c.pool.reward1 + c.prize.prize1.len() as u64,
        c.pool.reward2 + c.prize.prize2.len() as u64,
    ];
    assert_eq!(before, after);
    assert!(c.user.win);
}

#[test]
fn a_fresh_pool_pays_nothing() {
    let mut init = Initialize {
        authority: key(1),
        pool_signer: key(2),
        pool: pool([5, 5, 5], 77, [0, 0, 0]),
        prize: prize(vec![], vec![], vec![]),
        sol_vault: key(2),
        reward_mint: key(4),
        reward_vault: TokenAccount { key: key(3), mint: key(4), owner: key(2), close_authority: None },
    };
    assert_eq!(initialize(&mut init, 1, 2, 3), Ok(()));
    let mut c = ctx(init.pool, prize(vec![10], vec![20], vec![key(9)]));
    for sum in [0u64, 2100, 3000, 5001, 8160] {
        draw_prize(&mut c, &digest_with_sum(sum));
        assert!(!c.user.win);
    }
    assert_eq!(c.pool.play_tried, 5);
}

#[test]
fn a_win_is_claimed_for_the_drawn_amount_once() {
    let mut c = ctx(pool([2_000_000, 0, 0], 0, [1, 1, 1]), prize(vec![300, 400], vec![], vec![]));
    draw_prize(&mut c, &digest_with_sum(1)); // 1 % 2 == 1
    assert_eq!(c.prize.prize0, vec![300]);
    let mut g = GetPrize0 { pool_key: key(30), pool: c.pool, user: c.user, from: key(2), to: key(7), owner: key(7) };
    assert!(g.constraints_hold());
    assert_eq!(get_prize0(&mut g).unwrap().lamports, 400);
    assert_eq!(get_prize0(&mut g).unwrap_err(), InstructionError::Program(ErrorCode::NotWinner));
}
