use vstd::prelude::*;

verus! {

broadcast use vstd::array::group_array_axioms;

/// An account address: the 32 bytes of an ed25519 public key.
pub type Key = [u8; 32];

/// Compares two addresses byte by byte.
pub fn keys_equal(a: &Key, b: &Key) -> (eq: bool)
    ensures
        eq == (*a == *b),
{
    let mut i: usize = 0;
    while i < 32
        invariant
            i <= 32,
            forall|j: int| 0 <= j < i ==> a[j] == b[j],
        decreases 32 - i,
    {
        if a[i] != b[i] {
            return false;
        }
        i = i + 1;
    }
    assert(*a =~= *b);
    true
}


/// The pool account: who runs the game, where its funds sit, the odds of each
/// prize tier and how many plays and wins there have been.
#[derive(Clone, Copy, Debug)]
pub struct Pool {
    pub authority: Key,
    pub nonce: u8,
    pub vault_nonce: u8,
    pub sol_vault: Key,
    pub reward_vault: Key,
    pub reward_mint: Key,
    /// Per tier, the payout rate (wins per million plays) under which the
    /// tier is still offered.
    pub prize_probability: [u64; 3],
    pub play_tried: u64,
    pub reward0: u64,
    pub reward1: u64,
    pub reward2: u64,
}

/// The prize account: the stock of each tier. Tier 0 holds lamport amounts,
/// tier 1 amounts of the reward token, tier 2 the vaults of single NFTs.
#[derive(Clone, Debug)]
pub struct Prize {
    pub nonce: u8,
    pub id: u8,
    pub authority: Key,
    pub prize0: Vec<u64>,
    pub prize1: Vec<u64>,
    pub prize2: Vec<Key>,
}

/// A player's account: what the player last won and whether it is still to
/// be claimed.
#[derive(Clone, Copy, Debug)]
pub struct User {
    pub nonce: u8,
    pub prize_amount: u64,
    pub prize_token: Key,
    pub prize_type: u8,
    pub win: bool,
    pub owner: Key,
}

/// The errors the program itself raises.
#[derive(Clone, Copy, Debug, PartialEq, Eq, Structural)]
pub enum ErrorCode {
    MisMatchPrizeType,
    FeeNotEnough,
    NotWinner,
}

/// Why an instruction is refused: its accounts break one of its
/// constraints, or the program itself raises an error.
#[derive(Clone, Copy, Debug, PartialEq, Eq, Structural)]
pub enum InstructionError {
    ConstraintRaw,
    Program(ErrorCode),
}

impl ErrorCode {
    /// The message the program attaches to the error.
    pub fn message(&self) -> (msg: &'static str)
        ensures
            *self == ErrorCode::MisMatchPrizeType ==> msg@ == "Mismatch prize type"@,
            *self == ErrorCode::FeeNotEnough ==> msg@ == "Fee amount is not enough."@,
            *self == ErrorCode::NotWinner ==> msg@ == "Tried to get prize with not winner."@,
    {
        match self {
            ErrorCode::MisMatchPrizeType => "Mismatch prize type",
            ErrorCode::FeeNotEnough => "Fee amount is not enough.",
            ErrorCode::NotWinner => "Tried to get prize with not winner.",
        }
    }
}

} // verus!
