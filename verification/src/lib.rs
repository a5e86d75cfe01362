//! The rules of a prize draw that runs as an on-chain program: a pool
//! authority stocks three tiers of prizes, players pay to play, a hash of the
//! player's key and the clock picks a prize when the pool's odds allow it, and
//! a winner claims what was drawn exactly once.
//!
//! Each instruction here first checks the account constraints it declares
//! and refuses, changing nothing, when one fails. The plumbing lives outside
//! this crate: deserialising accounts, checking signatures and the addresses
//! derived from seeds, invoking the system and token programs, and reading
//! the clock.

pub mod state;
pub mod transfer;
pub mod hash;
pub mod accounts;
pub mod game;
pub mod admin;
pub mod claim;
pub mod laws;
pub mod draw_laws;
pub mod instruction_laws;
