use vstd::prelude::*;
use crate::state::{User, ErrorCode, InstructionError};
use crate::accounts::{GetPrize0, GetPrize1, GetPrize2};
use crate::transfer::{PoolSigner, SolTransfer, TokenTransfer};

verus! {

/// A claim on a player account: refused with `NotWinner` unless a prize is
/// waiting, and then the account is left with nothing waiting.
pub open spec fn claim(user: User) -> Result<User, ErrorCode> {
    if user.win {
        Ok(User { win: false, ..user })
    } else {
        Err(ErrorCode::NotWinner)
    }
}

/// The outcome of `get_prize0`.
pub open spec fn get_prize0_result(
    before: GetPrize0,
    after: GetPrize0,
    res: Result<SolTransfer, InstructionError>,
) -> bool {
    &&& (!before.constraints() ==> res == Err::<SolTransfer, InstructionError>(
            InstructionError::ConstraintRaw,
        ) && after == before)
    &&& (before.constraints() ==> match claim(before.user) {
            Err(e) => res == Err::<SolTransfer, InstructionError>(InstructionError::Program(e))
                && after == before,
            Ok(user) => {
                &&& res == Ok::<SolTransfer, InstructionError>(
                    SolTransfer {
                        from: before.from,
                        to: before.to,
                        lamports: before.user.prize_amount,
                        signer: Some(PoolSigner { pool: before.pool_key, nonce: before.pool.nonce }),
                    },
                )
                &&& after == GetPrize0 { user: user, ..before }
            },
        })
}

/// Pays a waiting prize in lamports out of the pool's vault, signed by the
/// pool. Refused, with nothing changed, unless the accounts meet
/// [`GetPrize0::constraints`], then unless a prize is waiting.
pub fn get_prize0(ctx: &mut GetPrize0) -> (res: Result<SolTransfer, InstructionError>)
    ensures
        get_prize0_result(*old(ctx), *final(ctx), res),
{
    if !ctx.constraints_hold() {
        return Err(InstructionError::ConstraintRaw);
    }
    if ctx.user.win == false {
        return Err(InstructionError::Program(ErrorCode::NotWinner));
    }
    let payout = SolTransfer {
        from: ctx.from,
        to: ctx.to,
        lamports: ctx.user.prize_amount,
        signer: Some(PoolSigner { pool: ctx.pool_key, nonce: ctx.pool.nonce }),
    };
    ctx.user.win = false;
    Ok(payout)
}

/// The outcome of `get_prize1`.
pub open spec fn get_prize1_result(
    before: GetPrize1,
    after: GetPrize1,
    res: Result<TokenTransfer, InstructionError>,
) -> bool {
    &&& (!before.constraints() ==> res == Err::<TokenTransfer, InstructionError>(
            InstructionError::ConstraintRaw,
        ) && after == before)
    &&& (before.constraints() ==> match claim(before.user) {
            Err(e) => res == Err::<TokenTransfer, InstructionError>(InstructionError::Program(e))
                && after == before,
            Ok(user) => {
                &&& res == Ok::<TokenTransfer, InstructionError>(
                    TokenTransfer {
                        from: before.from.key,
                        to: before.to.key,
                        authority: before.pool_signer,
                        amount: before.user.prize_amount,
                        signer: Some(PoolSigner { pool: before.pool_key, nonce: before.pool.nonce }),
                    },
                )
                &&& after == GetPrize1 { user: user, ..before }
            },
        })
}

/// Pays a waiting prize in tokens out of a vault of the pool's signer,
/// signed by the pool. Refused, with nothing changed, unless the accounts
/// meet [`GetPrize1::constraints`], then unless a prize is waiting.
pub fn get_prize1(ctx: &mut GetPrize1) -> (res: Result<TokenTransfer, InstructionError>)
    ensures
        get_prize1_result(*old(ctx), *final(ctx), res),
{
    if !ctx.constraints_hold() {
        return Err(InstructionError::ConstraintRaw);
    }
    if ctx.user.win == false {
        return Err(InstructionError::Program(ErrorCode::NotWinner));
    }
    let payout = TokenTransfer {
        from: ctx.from.key,
        to: ctx.to.key,
        authority: ctx.pool_signer,
        amount: ctx.user.prize_amount,
        signer: Some(PoolSigner { pool: ctx.pool_key, nonce: ctx.pool.nonce }),
    };
    ctx.user.win = false;
    Ok(payout)
}

/// The outcome of `get_prize2`.
pub open spec fn get_prize2_result(
    before: GetPrize2,
    after: GetPrize2,
    res: Result<TokenTransfer, InstructionError>,
) -> bool {
    &&& (!before.constraints() ==> res == Err::<TokenTransfer, InstructionError>(
            InstructionError::ConstraintRaw,
        ) && after == before)
    &&& (before.constraints() ==> match claim(before.user) {
            Err(e) => res == Err::<TokenTransfer, InstructionError>(InstructionError::Program(e))
                && after == before,
            Ok(user) => {
                &&& res == Ok::<TokenTransfer, InstructionError>(
                    TokenTransfer {
                        from: before.from.key,
                        to: before.to.key,
                        authority: before.pool_signer,
                        amount: before.user.prize_amount,
                        signer: Some(PoolSigner { pool: before.pool_key, nonce: before.pool.nonce }),
                    },
                )
                &&& after == GetPrize2 { user: user, ..before }
            },
        })
}

/// Pays a waiting NFT prize out of a vault of the pool's signer, signed by
/// the pool; the amount is the one recorded at the draw. Refused, with
/// nothing changed, unless the accounts meet [`GetPrize2::constraints`], then
/// unless a prize is waiting.
pub fn get_prize2(ctx: &mut GetPrize2) -> (res: Result<TokenTransfer, InstructionError>)
    ensures
        get_prize2_result(*old(ctx), *final(ctx), res),
{
    if !ctx.constraints_hold() {
        return Err(InstructionError::ConstraintRaw);
    }
    if ctx.user.win == false {
        return Err(InstructionError::Program(ErrorCode::NotWinner));
    }
    let payout = TokenTransfer {
        from: ctx.from.key,
        to: ctx.to.key,
        authority: ctx.pool_signer,
        amount: ctx.user.prize_amount,
        signer: Some(PoolSigner { pool: ctx.pool_key, nonce: ctx.pool.nonce }),
    };
    ctx.user.win = false;
    Ok(payout)
}

} // verus!
