//! Verified core of a shielded-transfer verifier program: the state that a
//! Groth16 proof check is carried out in, the scheduler that decides which
//! piece of work the next `compute` instruction does, the byte layouts that
//! are handed to the Merkle tree program, and the order of the steps of a
//! shielded transfer.

pub mod state;
pub mod pda;
pub mod compute;
pub mod schedule;
pub mod instructions;
pub mod shielded;
pub mod errors;
