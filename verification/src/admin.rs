use vstd::prelude::*;
use crate::state::{Pool, User, ErrorCode, InstructionError};
use crate::accounts::{Initialize, CreateUser, SetPrizeProbability, AddPrize0, AddPrize1, AddPrize2};
use crate::transfer::{SolTransfer, TokenTransfer};

verus! {

broadcast use vstd::array::group_array_axioms;

/// The effect of `initialize`: a fresh pool with no plays, every win count at
/// one, every tier closed, and an empty stock.
pub open spec fn initialized(
    before: Initialize,
    after: Initialize,
    pool_nonce: u8,
    vault_nonce: u8,
    prize_nonce: u8,
) -> bool {
    &&& after.authority == before.authority
    &&& after.pool_signer == before.pool_signer
    &&& after.sol_vault == before.sol_vault
    &&& after.reward_mint == before.reward_mint
    &&& after.reward_vault == before.reward_vault
    &&& after.pool.authority == before.authority
    &&& after.pool.nonce == pool_nonce
    &&& after.pool.vault_nonce == vault_nonce
    &&& after.pool.sol_vault == before.sol_vault
    &&& after.pool.reward_vault == before.reward_vault.key
    &&& after.pool.reward_mint == before.reward_mint
    &&& after.pool.prize_probability@ == seq![0u64, 0u64, 0u64]
    &&& after.pool.play_tried == 0
    &&& after.pool.reward0 == 1
    &&& after.pool.reward1 == 1
    &&& after.pool.reward2 == 1
    &&& after.prize.nonce == prize_nonce
    &&& after.prize.id == before.prize.id
    &&& after.prize.authority == before.authority
    &&& after.prize.prize0@ == Seq::<u64>::empty()
    &&& after.prize.prize1@ == Seq::<u64>::empty()
    &&& after.prize.prize2@ == Seq::<[u8; 32]>::empty()
}

/// The outcome of `initialize`.
pub open spec fn initialize_result(
    before: Initialize,
    after: Initialize,
    pool_nonce: u8,
    vault_nonce: u8,
    prize_nonce: u8,
    res: Result<(), InstructionError>,
) -> bool {
    &&& (!before.constraints() ==> res == Err::<(), InstructionError>(
            InstructionError::ConstraintRaw,
        ) && after == before)
    &&& (before.constraints() ==> res == Ok::<(), InstructionError>(()) && initialized(
            before,
            after,
            pool_nonce,
            vault_nonce,
            prize_nonce,
        ))
}

/// Sets up the pool and its prize stock for the given authority; refused,
/// with nothing written, unless the reward vault is the pool's.
pub fn initialize(ctx: &mut Initialize, pool_nonce: u8, vault_nonce: u8, prize_nonce: u8) -> (res:
    Result<(), InstructionError>)
    ensures
        initialize_result(*old(ctx), *final(ctx), pool_nonce, vault_nonce, prize_nonce, res),
{
    if !ctx.constraints_hold() {
        return Err(InstructionError::ConstraintRaw);
    }
    ctx.pool.authority = ctx.authority;
    ctx.pool.play_tried = 0;
    ctx.pool.reward0 = 1;
    ctx.pool.reward1 = 1;
    ctx.pool.reward2 = 1;
    ctx.pool.nonce = pool_nonce;
    ctx.pool.vault_nonce = vault_nonce;
    ctx.pool.reward_mint = ctx.reward_mint;
    ctx.pool.reward_vault = ctx.reward_vault.key;
    ctx.pool.sol_vault = ctx.sol_vault;
    ctx.pool.prize_probability = [0, 0, 0];
    assert(ctx.pool.prize_probability@ =~= seq![0u64, 0u64, 0u64]);

    ctx.prize.nonce = prize_nonce;
    ctx.prize.authority = ctx.authority;
    ctx.prize.prize0 = Vec::new();
    ctx.prize.prize1 = Vec::new();
    ctx.prize.prize2 = Vec::new();
    Ok(())
}

/// Registers a player account for its owner, with nothing to claim.
pub fn create_user(ctx: &mut CreateUser, nonce: u8)
    ensures
        final(ctx).owner == old(ctx).owner,
        final(ctx).user == (User { owner: old(ctx).owner, nonce: nonce, win: false, ..old(ctx).user }),
{
    ctx.user.owner = ctx.owner;
    ctx.user.nonce = nonce;
    ctx.user.win = false;
}

/// The outcome of `set_prize_type`.
pub open spec fn set_prize_type_result(
    before: SetPrizeProbability,
    after: SetPrizeProbability,
    prize_type: u8,
    probability: u64,
    res: Result<(), InstructionError>,
) -> bool {
    &&& (!before.constraints() ==> res == Err::<(), InstructionError>(
            InstructionError::ConstraintRaw,
        ) && after == before)
    &&& (before.constraints() && prize_type > 3 ==> res == Err::<(), InstructionError>(
            InstructionError::Program(ErrorCode::MisMatchPrizeType),
        ) && after == before)
    &&& (before.constraints() && prize_type < 3 ==> {
            &&& res == Ok::<(), InstructionError>(())
            &&& after.owner == before.owner
            &&& after.pool.prize_probability@ == before.pool.prize_probability@.update(
                prize_type as int,
                probability,
            )
            &&& after.pool == Pool {
                prize_probability: after.pool.prize_probability,
                ..before.pool
            }
        })
}

/// Sets the odds of a tier (0, 1 or 2). Refused with `ConstraintRaw` unless
/// the signer is the pool's authority, then with `MisMatchPrizeType` for a
/// tier above 3; a refusal changes nothing.
pub fn set_prize_type(ctx: &mut SetPrizeProbability, prize_type: u8, probability: u64) -> (res:
    Result<(), InstructionError>)
    requires
        old(ctx).constraints() ==> prize_type != 3,
    ensures
        set_prize_type_result(*old(ctx), *final(ctx), prize_type, probability, res),
{
    if !ctx.constraints_hold() {
        return Err(InstructionError::ConstraintRaw);
    }
    if prize_type > 3 {
        return Err(InstructionError::Program(ErrorCode::MisMatchPrizeType));
    }
    ctx.pool.prize_probability[prize_type as usize] = probability;
    Ok(())
}

/// The outcome of `add_prize0`.
pub open spec fn add_prize0_result(
    before: AddPrize0,
    after: AddPrize0,
    amount: u64,
    res: Result<SolTransfer, InstructionError>,
) -> bool {
    &&& (!before.constraints() ==> res == Err::<SolTransfer, InstructionError>(
            InstructionError::ConstraintRaw,
        ) && after == before)
    &&& (before.constraints() ==> {
            &&& after.prize.prize0@ == before.prize.prize0@.push(amount)
            &&& after.prize.prize1@ == before.prize.prize1@
            &&& after.prize.prize2@ == before.prize.prize2@
            &&& after.prize.nonce == before.prize.nonce
            &&& after.prize.id == before.prize.id
            &&& after.prize.authority == before.prize.authority
            &&& after.sol_vault == before.sol_vault
            &&& after.depositor == before.depositor
            &&& after.owner == before.owner
            &&& res == Ok::<SolTransfer, InstructionError>(
                SolTransfer {
                    from: before.depositor,
                    to: before.sol_vault,
                    lamports: amount,
                    signer: None,
                },
            )
        })
}

/// Stocks a lamport prize of `amount`; the depositor pays it into the pool's
/// vault. Refused, with nothing changed, unless the signer is the prize
/// account's authority.
pub fn add_prize0(ctx: &mut AddPrize0, amount: u64) -> (res: Result<SolTransfer, InstructionError>)
    ensures
        add_prize0_result(*old(ctx), *final(ctx), amount, res),
{
    if !ctx.constraints_hold() {
        return Err(InstructionError::ConstraintRaw);
    }
    ctx.prize.prize0.push(amount);
    Ok(SolTransfer { from: ctx.depositor, to: ctx.sol_vault, lamports: amount, signer: None })
}

/// The outcome of `add_prize1`.
pub open spec fn add_prize1_result(
    before: AddPrize1,
    after: AddPrize1,
    amount: u64,
    res: Result<TokenTransfer, InstructionError>,
) -> bool {
    &&& (!before.constraints() ==> res == Err::<TokenTransfer, InstructionError>(
            InstructionError::ConstraintRaw,
        ) && after == before)
    &&& (before.constraints() ==> {
            &&& after.prize.prize0@ == before.prize.prize0@
            &&& after.prize.prize1@ == before.prize.prize1@.push(amount)
            &&& after.prize.prize2@ == before.prize.prize2@
            &&& after.prize.nonce == before.prize.nonce
            &&& after.prize.id == before.prize.id
            &&& after.prize.authority == before.prize.authority
            &&& after.pool == before.pool
            &&& after.pool_signer == before.pool_signer
            &&& after.reward_vault == before.reward_vault
            &&& after.depositor == before.depositor
            &&& after.owner == before.owner
            &&& res == Ok::<TokenTransfer, InstructionError>(
                TokenTransfer {
                    from: before.depositor.key,
                    to: before.reward_vault.key,
                    authority: before.owner,
                    amount: amount,
                    signer: None,
                },
            )
        })
}

/// Stocks a reward-token prize of `amount`; the owner moves it from the
/// depositor's account into the pool's reward vault. Refused, with nothing
/// changed, unless the accounts meet [`AddPrize1::constraints`].
pub fn add_prize1(ctx: &mut AddPrize1, amount: u64) -> (res: Result<TokenTransfer, InstructionError>)
    ensures
        add_prize1_result(*old(ctx), *final(ctx), amount, res),
{
    if !ctx.constraints_hold() {
        return Err(InstructionError::ConstraintRaw);
    }
    ctx.prize.prize1.push(amount);
    Ok(
        TokenTransfer {
            from: ctx.depositor.key,
            to: ctx.reward_vault.key,
            authority: ctx.owner,
            amount: amount,
            signer: None,
        },
    )
}

/// The outcome of `add_prize2`.
pub open spec fn add_prize2_result(
    before: AddPrize2,
    after: AddPrize2,
    res: Result<TokenTransfer, InstructionError>,
) -> bool {
    &&& (!before.constraints() ==> res == Err::<TokenTransfer, InstructionError>(
            InstructionError::ConstraintRaw,
        ) && after == before)
    &&& (before.constraints() ==> {
            &&& after.prize.prize0@ == before.prize.prize0@
            &&& after.prize.prize1@ == before.prize.prize1@
            &&& after.prize.prize2@ == before.prize.prize2@.push(before.nft_vault.key)
            &&& after.prize.nonce == before.prize.nonce
            &&& after.prize.id == before.prize.id
            &&& after.prize.authority == before.prize.authority
            &&& after.pool_signer == before.pool_signer
            &&& after.nft_vault == before.nft_vault
            &&& after.nft_from == before.nft_from
            &&& after.owner == before.owner
            &&& res == Ok::<TokenTransfer, InstructionError>(
                TokenTransfer {
                    from: before.nft_from.key,
                    to: before.nft_vault.key,
                    authority: before.owner,
                    amount: 1,
                    signer: None,
                },
            )
        })
}

/// Stocks an NFT prize: records the vault it goes to; the owner moves the one
/// token there. Refused, with nothing changed, unless the accounts meet
/// [`AddPrize2::constraints`].
pub fn add_prize2(ctx: &mut AddPrize2) -> (res: Result<TokenTransfer, InstructionError>)
    ensures
        add_prize2_result(*old(ctx), *final(ctx), res),
{
    if !ctx.constraints_hold() {
        return Err(InstructionError::ConstraintRaw);
    }
    ctx.prize.prize2.push(ctx.nft_vault.key);
    Ok(
        TokenTransfer {
            from: ctx.nft_from.key,
            to: ctx.nft_vault.key,
            authority: ctx.owner,
            amount: 1,
            signer: None,
        },
    )
}

} // verus!
