//! What each instruction answers, stated over the accounts it is given: when
//! it goes through, what it pays or writes, and when it is refused.
use vstd::prelude::*;
use crate::accounts::{
    AddPrize0, AddPrize1, AddPrize2, GetPrize0, GetPrize1, GetPrize2, Initialize, Play,
    SetPrizeProbability,
};
use crate::admin::{
    add_prize0_result, add_prize1_result, add_prize2_result, initialize_result,
    set_prize_type_result,
};
use crate::claim::{get_prize0_result, get_prize1_result, get_prize2_result};
use crate::game::{drawn, play_result};
use crate::hash::play_number;
use crate::state::{ErrorCode, InstructionError, User};
use crate::transfer::{PoolSigner, SolTransfer, TokenTransfer};

verus! {

broadcast use vstd::array::group_array_axioms;

/// Set-up goes through exactly when the reward vault is for the reward mint,
/// held by the pool's signer and closable by nobody; then the pool belongs to
/// the signer, counts no plays, has every win count at one and every tier's
/// odds at zero, and the stock is empty. Otherwise nothing is written.
pub proof fn law_initialize_outcome(
    before: Initialize,
    after: Initialize,
    pool_nonce: u8,
    vault_nonce: u8,
    prize_nonce: u8,
    res: Result<(), InstructionError>,
)
    requires
        initialize_result(before, after, pool_nonce, vault_nonce, prize_nonce, res),
    ensures
        ({
            let v = before.reward_vault;
            v.mint == before.reward_mint && v.owner == before.pool_signer && v.close_authority is None
        }) ==> {
            &&& res is Ok
            &&& after.pool.authority == before.authority
            &&& after.prize.authority == before.authority
            &&& after.pool.reward_vault == before.reward_vault.key
            &&& after.pool.reward_mint == before.reward_mint
            &&& after.pool.sol_vault == before.sol_vault
            &&& after.pool.nonce == pool_nonce && after.pool.vault_nonce == vault_nonce
            &&& after.prize.nonce == prize_nonce
            &&& after.pool.play_tried == 0
            &&& after.pool.reward0 == 1 && after.pool.reward1 == 1 && after.pool.reward2 == 1
            &&& forall|k: int| 0 <= k < 3 ==> after.pool.prize_probability[k] == 0
            &&& after.prize.prize0@.len() == 0 && after.prize.prize1@.len() == 0
                && after.prize.prize2@.len() == 0
        },
        !({
            let v = before.reward_vault;
            v.mint == before.reward_mint && v.owner == before.pool_signer && v.close_authority is None
        }) ==> res == Err::<(), InstructionError>(InstructionError::ConstraintRaw) && after
            == before,
{
}

/// Only the pool's authority sets the odds: when the signer is the pool's
/// authority and the tier is 0, 1 or 2, the call succeeds, that tier's odds
/// become `probability` and nothing else of the pool changes, whatever the
/// pool's other keys; a tier above 3 is refused with `MisMatchPrizeType`;
/// any other signer is refused; a refusal changes nothing.
pub proof fn law_set_prize_type_outcome(
    before: SetPrizeProbability,
    after: SetPrizeProbability,
    prize_type: u8,
    probability: u64,
    res: Result<(), InstructionError>,
)
    requires
        set_prize_type_result(before, after, prize_type, probability, res),
    ensures
        before.owner == before.pool.authority && prize_type < 3 ==> {
            &&& res == Ok::<(), InstructionError>(())
            &&& after.pool.prize_probability[prize_type as int] == probability
            &&& forall|k: int|
                0 <= k < 3 && k != prize_type ==> after.pool.prize_probability[k]
                    == before.pool.prize_probability[k]
            &&& after.pool.authority == before.pool.authority
            &&& after.pool.play_tried == before.pool.play_tried
            &&& after.pool.reward0 == before.pool.reward0
            &&& after.pool.reward1 == before.pool.reward1
            &&& after.pool.reward2 == before.pool.reward2
            &&& after.pool.sol_vault == before.pool.sol_vault
            &&& after.pool.reward_mint == before.pool.reward_mint
            &&& after.pool.reward_vault == before.pool.reward_vault
            &&& after.pool.nonce == before.pool.nonce
            &&& after.pool.vault_nonce == before.pool.vault_nonce
        },
        before.owner == before.pool.authority && prize_type > 3 ==> res == Err::<
            (),
            InstructionError,
        >(InstructionError::Program(ErrorCode::MisMatchPrizeType)) && after == before,
        before.owner != before.pool.authority ==> res == Err::<(), InstructionError>(
            InstructionError::ConstraintRaw,
        ) && after == before,
{
}

/// Only the prize account's authority stocks lamport prizes: then the amount
/// joins the end of tier 0 and the depositor pays it into the pool's vault;
/// anyone else is refused and nothing changes.
pub proof fn law_add_prize0_outcome(
    before: AddPrize0,
    after: AddPrize0,
    amount: u64,
    res: Result<SolTransfer, InstructionError>,
)
    requires
        add_prize0_result(before, after, amount, res),
    ensures
        before.owner == before.prize.authority ==> {
            &&& res == Ok::<SolTransfer, InstructionError>(
                SolTransfer {
                    from: before.depositor,
                    to: before.sol_vault,
                    lamports: amount,
                    signer: None,
                },
            )
            &&& after.prize.prize0@.len() == before.prize.prize0@.len() + 1
            &&& after.prize.prize0@.last() == amount
            &&& after.prize.prize0@.drop_last() == before.prize.prize0@
            &&& after.prize.prize1@ == before.prize.prize1@
            &&& after.prize.prize2@ == before.prize.prize2@
        },
        before.owner != before.prize.authority ==> res == Err::<SolTransfer, InstructionError>(
            InstructionError::ConstraintRaw,
        ) && after == before,
{
    if before.owner == before.prize.authority {
        assert(after.prize.prize0@.drop_last() =~= before.prize.prize0@);
    }
}

/// Reward-token prizes are stocked only by the prize account's authority,
/// into a vault of the pool's signer for the reward mint that nobody can
/// close, from an account of the reward mint: then the amount joins the end
/// of tier 1 and moves from the depositor to the vault; otherwise nothing
/// changes.
pub proof fn law_add_prize1_outcome(
    before: AddPrize1,
    after: AddPrize1,
    amount: u64,
    res: Result<TokenTransfer, InstructionError>,
)
    requires
        add_prize1_result(before, after, amount, res),
    ensures
        ({
            &&& before.owner == before.prize.authority
            &&& before.reward_vault.mint == before.pool.reward_mint
            &&& before.reward_vault.owner == before.pool_signer
            &&& before.reward_vault.close_authority is None
            &&& before.depositor.mint == before.pool.reward_mint
        }) ==> {
            &&& res == Ok::<TokenTransfer, InstructionError>(
                TokenTransfer {
                    from: before.depositor.key,
                    to: before.reward_vault.key,
                    authority: before.owner,
                    amount: amount,
                    signer: None,
                },
            )
            &&& after.prize.prize1@.drop_last() == before.prize.prize1@
            &&& after.prize.prize1@.len() == before.prize.prize1@.len() + 1
            &&& after.prize.prize1@.last() == amount
            &&& after.prize.prize0@ == before.prize.prize0@
            &&& after.prize.prize2@ == before.prize.prize2@
        },
        !({
            &&& before.owner == before.prize.authority
            &&& before.reward_vault.mint == before.pool.reward_mint
            &&& before.reward_vault.owner == before.pool_signer
            &&& before.reward_vault.close_authority is None
            &&& before.depositor.mint == before.pool.reward_mint
        }) ==> res == Err::<TokenTransfer, InstructionError>(InstructionError::ConstraintRaw) && after
            == before,
{
    if before.constraints() {
        assert(after.prize.prize1@.drop_last() =~= before.prize.prize1@);
    }
}

/// NFT prizes are stocked only by the prize account's authority, into a
/// vault of the pool's signer for the same mint as the token sent: then the
/// vault joins the end of tier 2 and one token moves into it; otherwise
/// nothing changes.
pub proof fn law_add_prize2_outcome(
    before: AddPrize2,
    after: AddPrize2,
    res: Result<TokenTransfer, InstructionError>,
)
    requires
        add_prize2_result(before, after, res),
    ensures
        ({
            &&& before.owner == before.prize.authority
            &&& before.nft_vault.owner == before.pool_signer
            &&& before.nft_vault.mint == before.nft_from.mint
        }) ==> {
            &&& res == Ok::<TokenTransfer, InstructionError>(
                TokenTransfer {
                    from: before.nft_from.key,
                    to: before.nft_vault.key,
                    authority: before.owner,
                    amount: 1,
                    signer: None,
                },
            )
            &&& after.prize.prize2@.drop_last() == before.prize.prize2@
            &&& after.prize.prize2@.len() == before.prize.prize2@.len() + 1
            &&& after.prize.prize2@.last() == before.nft_vault.key
            &&& after.prize.prize0@ == before.prize.prize0@
            &&& after.prize.prize1@ == before.prize.prize1@
        },
        !({
            &&& before.owner == before.prize.authority
            &&& before.nft_vault.owner == before.pool_signer
            &&& before.nft_vault.mint == before.nft_from.mint
        }) ==> res == Err::<TokenTransfer, InstructionError>(InstructionError::ConstraintRaw) && after
            == before,
{
    if before.constraints() {
        assert(after.prize.prize2@.drop_last() =~= before.prize.prize2@);
    }
}

/// Whoever owns the player account may play, whether or not an earlier prize
/// is still unclaimed: the play charges 100_000_000 lamports from the player
/// into the pool's vault and draws with the player's number. Anyone else is
/// refused and nothing changes.
pub proof fn law_play_outcome(
    before: Play,
    after: Play,
    current_time: u64,
    res: Result<SolTransfer, InstructionError>,
)
    requires
        play_result(before, after, current_time, res),
    ensures
        before.user.owner == before.owner ==> {
            &&& res == Ok::<SolTransfer, InstructionError>(
                SolTransfer {
                    from: before.owner,
                    to: before.sol_vault,
                    lamports: 100_000_000,
                    signer: None,
                },
            )
            &&& drawn(before, after, play_number(before.owner, current_time))
        },
        before.user.owner != before.owner ==> res == Err::<SolTransfer, InstructionError>(
            InstructionError::ConstraintRaw,
        ) && after == before,
{
}

/// A lamport claim goes to the player account's owner only, out of the
/// pool's vault into the owner's own wallet: with those accounts, a waiting
/// prize is paid once, for the recorded amount and signed by the pool, and
/// the account is left with nothing waiting; with nothing waiting the claim
/// is refused with `NotWinner`; with other accounts it is refused. A refusal
/// changes nothing.
pub proof fn law_get_prize0_outcome(
    before: GetPrize0,
    after: GetPrize0,
    res: Result<SolTransfer, InstructionError>,
)
    requires
        get_prize0_result(before, after, res),
    ensures
        ({
            &&& before.user.owner == before.owner
            &&& before.from == before.pool.sol_vault
            &&& before.to == before.owner
        }) ==> {
            &&& before.user.win ==> {
                &&& res == Ok::<SolTransfer, InstructionError>(
                    SolTransfer {
                        from: before.from,
                        to: before.to,
                        lamports: before.user.prize_amount,
                        signer: Some(PoolSigner { pool: before.pool_key, nonce: before.pool.nonce }),
                    },
                )
                &&& !after.user.win
                &&& after.user == User { win: false, ..before.user }
            }
            &&& !before.user.win ==> res == Err::<SolTransfer, InstructionError>(
                InstructionError::Program(ErrorCode::NotWinner),
            ) && after == before
        },
        !({
            &&& before.user.owner == before.owner
            &&& before.from == before.pool.sol_vault
            &&& before.to == before.owner
        }) ==> res == Err::<SolTransfer, InstructionError>(InstructionError::ConstraintRaw) && after
            == before,
{
}

/// A reward-token claim goes to the player account's owner only, out of an
/// account of the pool's signer into an account the owner holds for the same
/// mint, whatever the pool's reward mint: with those accounts a waiting prize
/// is paid once, for the recorded amount on the pool's signature, and the
/// account is left with nothing waiting; with nothing waiting it is refused
/// with `NotWinner`; with other accounts it is refused. A refusal changes
/// nothing.
pub proof fn law_get_prize1_outcome(
    before: GetPrize1,
    after: GetPrize1,
    res: Result<TokenTransfer, InstructionError>,
)
    requires
        get_prize1_result(before, after, res),
    ensures
        ({
            &&& before.user.owner == before.owner
            &&& before.from.owner == before.pool_signer
            &&& before.from.mint == before.to.mint
            &&& before.to.owner == before.owner
        }) ==> {
            &&& before.user.win ==> {
                &&& res == Ok::<TokenTransfer, InstructionError>(
                    TokenTransfer {
                        from: before.from.key,
                        to: before.to.key,
                        authority: before.pool_signer,
                        amount: before.user.prize_amount,
                        signer: Some(PoolSigner { pool: before.pool_key, nonce: before.pool.nonce }),
                    },
                )
                &&& after.user == User { win: false, ..before.user }
            }
            &&& !before.user.win ==> res == Err::<TokenTransfer, InstructionError>(
                InstructionError::Program(ErrorCode::NotWinner),
            ) && after == before
        },
        !({
            &&& before.user.owner == before.owner
            &&& before.from.owner == before.pool_signer
            &&& before.from.mint == before.to.mint
            &&& before.to.owner == before.owner
        }) ==> res == Err::<TokenTransfer, InstructionError>(InstructionError::ConstraintRaw) && after
            == before,
{
}

/// An NFT claim goes to the player account's owner only, out of an account
/// of the pool's signer into an account the owner holds for the same mint,
/// whatever the pool's reward mint: with those accounts a waiting prize is
/// paid once, for the recorded amount on the pool's signature, and the
/// account is left with nothing waiting; with nothing waiting it is refused
/// with `NotWinner`; with other accounts it is refused. A refusal changes
/// nothing.
pub proof fn law_get_prize2_outcome(
    before: GetPrize2,
    after: GetPrize2,
    res: Result<TokenTransfer, InstructionError>,
)
    requires
        get_prize2_result(before, after, res),
    ensures
        ({
            &&& before.user.owner == before.owner
            &&& before.from.owner == before.pool_signer
            &&& before.from.mint == before.to.mint
            &&& before.to.owner == before.owner
        }) ==> {
            &&& before.user.win ==> {
                &&& res == Ok::<TokenTransfer, InstructionError>(
                    TokenTransfer {
                        from: before.from.key,
                        to: before.to.key,
                        authority: before.pool_signer,
                        amount: before.user.prize_amount,
                        signer: Some(PoolSigner { pool: before.pool_key, nonce: before.pool.nonce }),
                    },
                )
                &&& after.user == User { win: false, ..before.user }
            }
            &&& !before.user.win ==> res == Err::<TokenTransfer, InstructionError>(
                InstructionError::Program(ErrorCode::NotWinner),
            ) && after == before
        },
        !({
            &&& before.user.owner == before.owner
            &&& before.from.owner == before.pool_signer
            &&& before.from.mint == before.to.mint
            &&& before.to.owner == before.owner
        }) ==> res == Err::<TokenTransfer, InstructionError>(InstructionError::ConstraintRaw) && after
            == before,
{
}

} // verus!
