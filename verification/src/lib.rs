//! Succinct proofs of deterministic computations over a 128-bit prime field.
//!
//! Two computation families are supported: a repeated-cubing delay function
//! (each step cubes the state and adds a constant) and a balance-evolution
//! computation that folds a wallet's ordered transaction history into a
//! running balance. For each family the crate builds the execution trace,
//! describes the computation's transition rule and boundary assertions, and
//! prepares the values that an external STARK backend turns into an opaque
//! proof artifact. The message-level protocol around proof generation and
//! verification is handled here as well.

pub mod air;
pub mod codec;
pub mod field;
pub mod protocol;
pub mod shoe_size;
pub mod stacks;
pub mod stacks_voting;
