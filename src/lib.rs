//! Orchestration of zero-knowledge proof generation and verification for
//! compiled Noir circuits: the circuit manifest is read here, and each step of
//! the two pipelines turns the proving backend's outcome into the next step or
//! into a typed error.

pub mod error;
pub mod manifest;
pub mod proving;
pub mod verification;

pub use error::NoirBindingError;
pub use manifest::get_bytecode;
pub use proving::{begin_proof, ProofGeneration, SrsSetup, WitnessCreation};
pub use verification::{begin_verification, KeyDerivation, ProofCheck};
