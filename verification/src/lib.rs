//! Arithmetic circuits over the Goldilocks field: the polynomial root check,
//! its witness, and the recursive composition of proofs.

pub mod circuit;
pub mod field;
pub mod poly;
pub mod prover;
pub mod recursion;
pub mod session;
pub mod witness;
