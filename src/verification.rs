use vstd::prelude::*;

use crate::error::NoirBindingError;
use crate::manifest::{bytecode_outcome, get_bytecode};
use crate::proving::proof_generation_result;

verus! {

/// A verification run whose circuit is loaded and which next needs the
/// verification key derived from `bytecode`.
pub struct KeyDerivation {
    pub bytecode: String,
    pub proof: Vec<u8>,
}

/// A verification run that holds the key and next needs the backend to check
/// `proof` against it.
pub struct ProofCheck {
    pub proof: Vec<u8>,
    pub key: Vec<u8>,
}

pub open spec fn key_derivation_next(step: KeyDerivation, outcome: Result<Vec<u8>, String>) -> Result<
    ProofCheck,
    NoirBindingError,
> {
    match outcome {
        Ok(key) => Ok(ProofCheck { proof: step.proof, key }),
        Err(details) => Err(NoirBindingError::VerificationKeyError { details }),
    }
}

pub open spec fn proof_check_result(outcome: Result<bool, String>) -> Result<bool, NoirBindingError> {
    match outcome {
        Ok(accepted) => Ok(accepted),
        Err(details) => Err(NoirBindingError::VerificationError { details }),
    }
}

/// Starts a verification run: reads the circuit manifest and, where it yields
/// the bytecode, hands it on with the proof unchanged.
pub fn begin_verification(circuit_json_content: String, proof: Vec<u8>) -> (r: Result<
    KeyDerivation,
    NoirBindingError,
>)
    ensures
        match r {
            Ok(step) => bytecode_outcome(circuit_json_content@, Ok(step.bytecode)) && step.proof
                == proof,
            Err(e) => bytecode_outcome(circuit_json_content@, Err(e)),
        },
{
    match get_bytecode(circuit_json_content) {
        Ok(bytecode) => Ok(KeyDerivation { bytecode, proof }),
        Err(e) => Err(e),
    }
}

impl KeyDerivation {
    /// Takes the outcome of deriving the verification key: on success the run
    /// goes on to check the proof against that key, and a failure's message
    /// becomes a `VerificationKeyError`.
    pub fn complete(self, outcome: Result<Vec<u8>, String>) -> (r: Result<ProofCheck, NoirBindingError>)
        ensures
            r == key_derivation_next(self, outcome),
    {
        match outcome {
            Ok(key) => Ok(ProofCheck { proof: self.proof, key }),
            Err(details) => Err(NoirBindingError::VerificationKeyError { details }),
        }
    }
}

impl ProofCheck {
    /// Takes the outcome of checking the proof: the backend's verdict is the
    /// result, `false` included, and only a failure to evaluate the proof
    /// becomes a `VerificationError`.
    pub fn complete(self, outcome: Result<bool, String>) -> (r: Result<bool, NoirBindingError>)
        ensures
            r == proof_check_result(outcome),
    {
        match outcome {
            Ok(accepted) => Ok(accepted),
            Err(details) => Err(NoirBindingError::VerificationError { details }),
        }
    }
}

/// The proof that a proving run returns reaches the check unchanged: with the
/// key derived for the circuit, the check is made on exactly that proof, and
/// the backend's acceptance comes back as `true`.
pub proof fn lemma_proof_reaches_check(proof: Vec<u8>, bytecode: String, key: Vec<u8>)
    ensures
        proof_generation_result(Ok(proof)) == Ok::<Vec<u8>, NoirBindingError>(proof),
        key_derivation_next(KeyDerivation { bytecode, proof }, Ok(key)) == Ok::<
            ProofCheck,
            NoirBindingError,
        >(ProofCheck { proof, key }),
        proof_check_result(Ok(true)) == Ok::<bool, NoirBindingError>(true),
{
}

/// A proof that the backend evaluates and rejects is a successful check that
/// returns `false`, never an error.
pub proof fn lemma_rejected_proof_is_false()
    ensures
        proof_check_result(Ok(false)) == Ok::<bool, NoirBindingError>(false),
{
}

} // verus!
