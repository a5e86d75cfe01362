use random_prize_game::accounts::{
    AddPrize0, AddPrize1, AddPrize2, CreateUser, Initialize, SetPrizeProbability, TokenAccount,
};
use random_prize_game::admin::{
    add_prize0, add_prize1, add_prize2, create_user, initialize, set_prize_type,
};
use random_prize_game::state::{keys_equal, ErrorCode, InstructionError, Key, Pool, Prize, User};

fn key(b: u8) -> Key {
    [b; 32]
}

fn blank_pool() -> Pool {
    Pool {
        authority: key(0),
        nonce: 0,
        vault_nonce: 0,
        sol_vault: key(0),
        reward_vault: key(0),
        reward_mint: key(0),
        prize_probability: [0, 0, 0],
        play_tried: 0,
        reward0: 0,
        reward1: 0,
        reward2: 0,
    }
}

fn blank_prize() -> Prize {
    Prize { nonce: 0, id: 0, authority: key(0), prize0: vec![], prize1: vec![], prize2: vec![] }
}

fn token(k: u8, mint: u8, owner: u8) -> TokenAccount {
    TokenAccount { key: key(k), mint: key(mint), owner: key(owner), close_authority: None }
}

#[test]
fn keys_compare_bytewise() {
    assert!(keys_equal(&key(3), &key(3)));
    let mut k = key(3);
    k[31] = 4;
    assert!(!keys_equal(&key(3), &k));
}

#[test]
fn error_messages() {
    assert_eq!(ErrorCode::MisMatchPrizeType.message(), "Mismatch prize type");
    assert_eq!(ErrorCode::FeeNotEnough.message(), "Fee amount is not enough.");
    assert_eq!(ErrorCode::NotWinner.message(), "Tried to get prize with not winner.");
}

#[test]
fn initialize_sets_up_a_closed_pool() {
    let mut prize = blank_prize();
    prize.id = 42;
    prize.prize0 = vec![1, 2];
    let mut ctx = Initialize {
        authority: key(1),
        pool_signer: key(2),
        pool: blank_pool(),
        prize,
        sol_vault: key(3),
        reward_mint: key(4),
        reward_vault: token(5, 4, 2),
    };
    assert!(ctx.constraints_hold());
    assert_eq!(initialize(&mut ctx, 7, 8, 9), Ok(()));
    let p = ctx.pool;
    assert_eq!(p.authority, key(1));
    assert_eq!((p.nonce, p.vault_nonce), (7, 8));
    assert_eq!(p.sol_vault, key(3));
    assert_eq!(p.reward_vault, key(5));
    assert_eq!(p.reward_mint, key(4));
    assert_eq!(p.prize_probability, [0, 0, 0]);
    assert_eq!(p.play_tried, 0);
    assert_eq!((p.reward0, p.reward1, p.reward2), (1, 1, 1));
    assert_eq!(ctx.prize.nonce, 9);
    assert_eq!(ctx.prize.id, 42);
    assert_eq!(ctx.prize.authority, key(1));
    assert!(ctx.prize.prize0.is_empty() && ctx.prize.prize1.is_empty() && ctx.prize.prize2.is_empty());
}

#[test]
fn initialize_constraints() {
    let mut ctx = Initialize {
        authority: key(1),
        pool_signer: key(2),
        pool: blank_pool(),
        prize: blank_prize(),
        sol_vault: key(3),
        reward_mint: key(4),
        reward_vault: token(5, 4, 2),
    };
    ctx.reward_vault.close_authority = Some(key(1));
    assert!(!ctx.constraints_hold());
    assert_eq!(initialize(&mut ctx, 7, 8, 9), Err(InstructionError::ConstraintRaw));
    assert_eq!(ctx.pool.nonce, 0);
    assert_eq!(ctx.pool.reward0, 0);
    assert_eq!(ctx.prize.nonce, 0);
    ctx.reward_vault = token(5, 6, 2);
    assert!(!ctx.constraints_hold());
    ctx.reward_vault = token(5, 4, 1);
    assert!(!ctx.constraints_hold());
}

#[test]
fn create_user_resets_the_win() {
    let mut ctx = CreateUser {
        user: User { nonce: 0, prize_amount: 5, prize_token: key(3), prize_type: 2, win: true, owner: key(0) },
        owner: key(7),
    };
    create_user(&mut ctx, 254);
    assert_eq!(ctx.user.owner, key(7));
    assert_eq!(ctx.user.nonce, 254);
    assert!(!ctx.user.win);
    assert_eq!(ctx.user.prize_amount, 5);
}

#[test]
fn set_prize_type_sets_one_tier() {
    for t in 0..3u8 {
        let mut ctx = SetPrizeProbability { pool: blank_pool(), owner: key(0) };
        assert!(ctx.constraints_hold());
        assert_eq!(set_prize_type(&mut ctx, t, 1234), Ok(()));
        let mut expect = [0u64; 3];
        expect[t as usize] = 1234;
        assert_eq!(ctx.pool.prize_probability, expect);
    }
}

#[test]
fn set_prize_type_refuses_tiers_above_three() {
    for t in [4u8, 5, 200, 255] {
        let mut ctx = SetPrizeProbability { pool: blank_pool(), owner: key(0) };
        assert_eq!(
            set_prize_type(&mut ctx, t, 1),
            Err(InstructionError::Program(ErrorCode::MisMatchPrizeType))
        );
        assert_eq!(ctx.pool.prize_probability, [0, 0, 0]);
    }
}

#[test]
fn only_the_authority_sets_odds() {
    let mut ctx = SetPrizeProbability { pool: blank_pool(), owner: key(9) };
    assert!(!ctx.constraints_hold());
    for t in [0u8, 1, 2, 3, 4] {
        assert_eq!(set_prize_type(&mut ctx, t, 777), Err(InstructionError::ConstraintRaw));
        assert_eq!(ctx.pool.prize_probability, [0, 0, 0]);
    }
}

#[test]
fn add_prize0_stocks_and_deposits() {
    let mut ctx = AddPrize0 { prize: blank_prize(), sol_vault: key(3), depositor: key(8), owner: key(0) };
    assert!(ctx.constraints_hold());
    let t = add_prize0(&mut ctx, 500).unwrap();
    assert_eq!(ctx.prize.prize0, vec![500]);
    assert_eq!((t.from, t.to, t.lamports), (key(8), key(3), 500));
    assert!(t.signer.is_none());
    ctx.owner = key(1);
    assert!(!ctx.constraints_hold());
    assert_eq!(add_prize0(&mut ctx, 9).unwrap_err(), InstructionError::ConstraintRaw);
    assert_eq!(ctx.prize.prize0, vec![500]);
}

#[test]
fn add_prize1_stocks_and_deposits() {
    let mut pool = blank_pool();
    pool.reward_mint = key(4);
    let mut ctx = AddPrize1 {
        prize: blank_prize(),
        pool,
        pool_signer: key(2),
        reward_vault: token(5, 4, 2),
        depositor: token(6, 4, 0),
        owner: key(0),
    };
    assert!(ctx.constraints_hold());
    let t = add_prize1(&mut ctx, 70).unwrap();
    assert_eq!(ctx.prize.prize1, vec![70]);
    assert_eq!((t.from, t.to, t.authority, t.amount), (key(6), key(5), key(0), 70));
    ctx.depositor = token(6, 9, 0);
    assert!(!ctx.constraints_hold());
    assert_eq!(add_prize1(&mut ctx, 9).unwrap_err(), InstructionError::ConstraintRaw);
    assert_eq!(ctx.prize.prize1, vec![70]);
}

#[test]
fn add_prize2_stocks_the_vault() {
    let mut ctx = AddPrize2 {
        prize: blank_prize(),
        pool_signer: key(2),
        nft_vault: token(10, 11, 2),
        nft_from: token(12, 11, 0),
        owner: key(0),
    };
    assert!(ctx.constraints_hold());
    let t = add_prize2(&mut ctx).unwrap();
    assert_eq!(ctx.prize.prize2, vec![key(10)]);
    assert_eq!((t.from, t.to, t.authority, t.amount), (key(12), key(10), key(0), 1));
    ctx.nft_from = token(12, 13, 0);
    assert!(!ctx.constraints_hold());
    assert_eq!(add_prize2(&mut ctx).unwrap_err(), InstructionError::ConstraintRaw);
    assert_eq!(ctx.prize.prize2, vec![key(10)]);
}
