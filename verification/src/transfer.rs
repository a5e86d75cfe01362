use vstd::prelude::*;
use crate::state::Key;

verus! {

/// The pool's program-derived signer: the seeds are the pool's address and
/// its nonce.
#[derive(Clone, Copy, Debug)]
pub struct PoolSigner {
    pub pool: Key,
    pub nonce: u8,
}

/// A transfer of lamports through the system program, signed by the pool
/// when `signer` is set.
#[derive(Clone, Copy, Debug)]
pub struct SolTransfer {
    pub from: Key,
    pub to: Key,
    pub lamports: u64,
    pub signer: Option<PoolSigner>,
}

/// A transfer of tokens through the token program, authorised by
/// `authority`, signed by the pool when `signer` is set.
#[derive(Clone, Copy, Debug)]
pub struct TokenTransfer {
    pub from: Key,
    pub to: Key,
    pub authority: Key,
    pub amount: u64,
    pub signer: Option<PoolSigner>,
}

} // verus!
