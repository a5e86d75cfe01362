use vstd::prelude::*;
use crate::state::{Key, Pool, Prize, User, keys_equal};

verus! {

/// What the program reads of a token account.
#[derive(Clone, Copy, Debug)]
pub struct TokenAccount {
    pub key: Key,
    pub mint: Key,
    pub owner: Key,
    pub close_authority: Option<Key>,
}

/// The accounts of `initialize`.
pub struct Initialize {
    pub authority: Key,
    pub pool_signer: Key,
    pub pool: Pool,
    pub prize: Prize,
    pub sol_vault: Key,
    pub reward_mint: Key,
    pub reward_vault: TokenAccount,
}

/// The accounts of `create_user`.
#[derive(Clone, Copy, Debug)]
pub struct CreateUser {
    pub user: User,
    pub owner: Key,
}

/// The accounts of `set_prize_type`.
#[derive(Clone, Copy, Debug)]
pub struct SetPrizeProbability {
    pub pool: Pool,
    pub owner: Key,
}

/// The accounts of `add_prize0`.
pub struct AddPrize0 {
    pub prize: Prize,
    pub sol_vault: Key,
    pub depositor: Key,
    pub owner: Key,
}

/// The accounts of `add_prize1`.
pub struct AddPrize1 {
    pub prize: Prize,
    pub pool: Pool,
    pub pool_signer: Key,
    pub reward_vault: TokenAccount,
    pub depositor: TokenAccount,
    pub owner: Key,
}

/// The accounts of `add_prize2`.
pub struct AddPrize2 {
    pub prize: Prize,
    pub pool_signer: Key,
    pub nft_vault: TokenAccount,
    pub nft_from: TokenAccount,
    pub owner: Key,
}

/// The accounts of `play`.
pub struct Play {
    pub pool: Pool,
    pub prize: Prize,
    pub user: User,
    pub sol_vault: Key,
    pub owner: Key,
    pub system_program: Key,
}

/// The accounts of `get_prize0`.
#[derive(Clone, Copy, Debug)]
pub struct GetPrize0 {
    pub pool_key: Key,
    pub pool: Pool,
    pub user: User,
    pub from: Key,
    pub to: Key,
    pub owner: Key,
}

/// The accounts of `get_prize1`.
#[derive(Clone, Copy, Debug)]
pub struct GetPrize1 {
    pub pool_key: Key,
    pub pool: Pool,
    pub pool_signer: Key,
    pub user: User,
    pub from: TokenAccount,
    pub to: TokenAccount,
    pub owner: Key,
}

/// The accounts of `get_prize2`.
#[derive(Clone, Copy, Debug)]
pub struct GetPrize2 {
    pub pool_key: Key,
    pub pool: Pool,
    pub pool_signer: Key,
    pub user: User,
    pub from: TokenAccount,
    pub to: TokenAccount,
    pub owner: Key,
}

/// A vault the pool can pay out of: held by the pool's signer, for the given
/// mint, and with nobody able to close it.
pub open spec fn is_pool_vault(vault: TokenAccount, mint: Key, pool_signer: Key) -> bool {
    &&& vault.mint == mint
    &&& vault.owner == pool_signer
    &&& vault.close_authority is None
}

fn pool_vault(vault: &TokenAccount, mint: &Key, pool_signer: &Key) -> (ok: bool)
    ensures
        ok == is_pool_vault(*vault, *mint, *pool_signer),
{
    keys_equal(&vault.mint, mint) && keys_equal(&vault.owner, pool_signer)
        && vault.close_authority.is_none()
}

impl Initialize {
    /// The reward vault belongs to the pool and holds the reward mint.
    pub open spec fn constraints(&self) -> bool {
        is_pool_vault(self.reward_vault, self.reward_mint, self.pool_signer)
    }

    /// Checks [`Initialize::constraints`].
    pub fn constraints_hold(&self) -> (ok: bool)
        ensures
            ok == self.constraints(),
    {
        pool_vault(&self.reward_vault, &self.reward_mint, &self.pool_signer)
    }
}

impl SetPrizeProbability {
    /// Only the pool's authority may change the odds.
    pub open spec fn constraints(&self) -> bool {
        self.pool.authority == self.owner
    }

    /// Checks [`SetPrizeProbability::constraints`].
    pub fn constraints_hold(&self) -> (ok: bool)
        ensures
            ok == self.constraints(),
    {
        keys_equal(&self.pool.authority, &self.owner)
    }
}

impl AddPrize0 {
    /// Only the prize account's authority may stock it.
    pub open spec fn constraints(&self) -> bool {
        self.prize.authority == self.owner
    }

    /// Checks [`AddPrize0::constraints`].
    pub fn constraints_hold(&self) -> (ok: bool)
        ensures
            ok == self.constraints(),
    {
        keys_equal(&self.prize.authority, &self.owner)
    }
}

impl AddPrize1 {
    /// Only the prize account's authority may stock it, into the pool's
    /// reward vault, from an account of the reward mint.
    pub open spec fn constraints(&self) -> bool {
        &&& self.prize.authority == self.owner
        &&& is_pool_vault(self.reward_vault, self.pool.reward_mint, self.pool_signer)
        &&& self.depositor.mint == self.pool.reward_mint
    }

    /// Checks [`AddPrize1::constraints`].
    pub fn constraints_hold(&self) -> (ok: bool)
        ensures
            ok == self.constraints(),
    {
        keys_equal(&self.prize.authority, &self.owner)
            && pool_vault(&self.reward_vault, &self.pool.reward_mint, &self.pool_signer)
            && keys_equal(&self.depositor.mint, &self.pool.reward_mint)
    }
}

impl AddPrize2 {
    /// Only the prize account's authority may stock it, into a vault of the
    /// pool's signer for the same mint as the token sent.
    pub open spec fn constraints(&self) -> bool {
        &&& self.prize.authority == self.owner
        &&& self.nft_vault.owner == self.pool_signer
        &&& self.nft_vault.mint == self.nft_from.mint
    }

    /// Checks [`AddPrize2::constraints`].
    pub fn constraints_hold(&self) -> (ok: bool)
        ensures
            ok == self.constraints(),
    {
        keys_equal(&self.prize.authority, &self.owner)
            && keys_equal(&self.nft_vault.owner, &self.pool_signer)
            && keys_equal(&self.nft_vault.mint, &self.nft_from.mint)
    }
}

impl Play {
    /// Only the owner of a player account may play with it.
    pub open spec fn constraints(&self) -> bool {
        self.user.owner == self.owner
    }

    /// Checks [`Play::constraints`].
    pub fn constraints_hold(&self) -> (ok: bool)
        ensures
            ok == self.constraints(),
    {
        keys_equal(&self.user.owner, &self.owner)
    }
}

impl GetPrize0 {
    /// Only the owner of a player account may claim, out of the pool's vault,
    /// into the owner's own wallet.
    pub open spec fn constraints(&self) -> bool {
        &&& self.user.owner == self.owner
        &&& self.from == self.pool.sol_vault
        &&& self.to == self.owner
    }

    /// Checks [`GetPrize0::constraints`].
    pub fn constraints_hold(&self) -> (ok: bool)
        ensures
            ok == self.constraints(),
    {
        keys_equal(&self.user.owner, &self.owner) && keys_equal(&self.from, &self.pool.sol_vault)
            && keys_equal(&self.to, &self.owner)
    }
}

/// The claim of a token prize: by the player account's owner, out of a vault
/// of the pool's signer, into an account the owner holds for the same mint.
pub open spec fn token_claim_allowed(
    user: User,
    owner: Key,
    pool_signer: Key,
    from: TokenAccount,
    to: TokenAccount,
) -> bool {
    &&& user.owner == owner
    &&& from.owner == pool_signer
    &&& from.mint == to.mint
    &&& to.owner == owner
}

fn token_claim_checks(
    user: &User,
    owner: &Key,
    pool_signer: &Key,
    from: &TokenAccount,
    to: &TokenAccount,
) -> (ok: bool)
    ensures
        ok == token_claim_allowed(*user, *owner, *pool_signer, *from, *to),
{
    keys_equal(&user.owner, owner) && keys_equal(&from.owner, pool_signer) && keys_equal(
        &from.mint,
        &to.mint,
    ) && keys_equal(&to.owner, owner)
}

impl GetPrize1 {
    /// See [`token_claim_allowed`].
    pub open spec fn constraints(&self) -> bool {
        token_claim_allowed(self.user, self.owner, self.pool_signer, self.from, self.to)
    }

    /// Checks [`GetPrize1::constraints`].
    pub fn constraints_hold(&self) -> (ok: bool)
        ensures
            ok == self.constraints(),
    {
        token_claim_checks(&self.user, &self.owner, &self.pool_signer, &self.from, &self.to)
    }
}

impl GetPrize2 {
    /// See [`token_claim_allowed`].
    pub open spec fn constraints(&self) -> bool {
        token_claim_allowed(self.user, self.owner, self.pool_signer, self.from, self.to)
    }

    /// Checks [`GetPrize2::constraints`].
    pub fn constraints_hold(&self) -> (ok: bool)
        ensures
            ok == self.constraints(),
    {
        token_claim_checks(&self.user, &self.owner, &self.pool_signer, &self.from, &self.to)
    }
}

} // verus!
