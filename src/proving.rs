use vstd::prelude::*;

use crate::error::NoirBindingError;
use crate::manifest::{bytecode_outcome, get_bytecode};

verus! {

/// A proving run whose circuit is loaded and which next needs a structured
/// reference string sized to the circuit, from `srs_path` when it is given.
pub struct SrsSetup {
    pub bytecode: String,
    pub srs_path: Option<String>,
    pub inputs: Vec<String>,
}

/// A proving run whose reference string is ready and which next needs a
/// witness built from `inputs`, in their order.
pub struct WitnessCreation {
    pub bytecode: String,
    pub inputs: Vec<String>,
}

/// A proving run whose witness is built and which next needs the backend to
/// prove it against `bytecode`.
pub struct ProofGeneration {
    pub bytecode: String,
}

pub open spec fn srs_setup_next(step: SrsSetup, outcome: Result<(), String>) -> Result<
    WitnessCreation,
    NoirBindingError,
> {
    match outcome {
        Ok(()) => Ok(WitnessCreation { bytecode: step.bytecode, inputs: step.inputs }),
        Err(details) => Err(NoirBindingError::SrsSetupError { details }),
    }
}

pub open spec fn witness_creation_next(step: WitnessCreation, outcome: Result<(), String>) -> Result<
    ProofGeneration,
    NoirBindingError,
> {
    match outcome {
        Ok(()) => Ok(ProofGeneration { bytecode: step.bytecode }),
        Err(details) => Err(NoirBindingError::WitnessCreationError { details }),
    }
}

pub open spec fn proof_generation_result(outcome: Result<Vec<u8>, String>) -> Result<
    Vec<u8>,
    NoirBindingError,
> {
    match outcome {
        Ok(proof) => Ok(proof),
        Err(details) => Err(NoirBindingError::ProofGenerationError { details }),
    }
}

/// Starts a proving run: reads the circuit manifest and, where it yields the
/// bytecode, hands on the bytecode, the reference-string location and the
/// inputs unchanged. The inputs are not examined here.
pub fn begin_proof(circuit_json_content: String, srs_path: Option<String>, inputs: Vec<String>) -> (r:
    Result<SrsSetup, NoirBindingError>)
    ensures
        match r {
            Ok(step) => bytecode_outcome(circuit_json_content@, Ok(step.bytecode))
                && step.srs_path == srs_path && step.inputs == inputs,
            Err(e) => bytecode_outcome(circuit_json_content@, Err(e)),
        },
{
    let bytecode = get_bytecode(circuit_json_content);
    match bytecode {
        Ok(bytecode) => Ok(SrsSetup { bytecode, srs_path, inputs }),
        Err(e) => Err(e),
    }
}

impl SrsSetup {
    /// Takes the outcome of provisioning the reference string: on success the
    /// run goes on to witness creation, and a failure's message becomes an
    /// `SrsSetupError`.
    pub fn complete(self, outcome: Result<(), String>) -> (r: Result<WitnessCreation, NoirBindingError>)
        ensures
            r == srs_setup_next(self, outcome),
    {
        match outcome {
            Ok(()) => Ok(WitnessCreation { bytecode: self.bytecode, inputs: self.inputs }),
            Err(details) => Err(NoirBindingError::SrsSetupError { details }),
        }
    }
}

impl WitnessCreation {
    /// Takes the outcome of building the witness: on success the run goes on
    /// to proof generation, and a failure's message becomes a
    /// `WitnessCreationError`.
    pub fn complete(self, outcome: Result<(), String>) -> (r: Result<ProofGeneration, NoirBindingError>)
        ensures
            r == witness_creation_next(self, outcome),
    {
        match outcome {
            Ok(()) => Ok(ProofGeneration { bytecode: self.bytecode }),
            Err(details) => Err(NoirBindingError::WitnessCreationError { details }),
        }
    }
}

impl ProofGeneration {
    /// Takes the outcome of proving: the backend's proof is returned as it
    /// came, and a failure's message becomes a `ProofGenerationError`.
    pub fn complete(self, outcome: Result<Vec<u8>, String>) -> (r: Result<Vec<u8>, NoirBindingError>)
        ensures
            r == proof_generation_result(outcome),
    {
        match outcome {
            Ok(proof) => Ok(proof),
            Err(details) => Err(NoirBindingError::ProofGenerationError { details }),
        }
    }
}

/// An empty list of inputs is never refused by the library: once the
/// reference string is ready, the run moves to witness creation holding no
/// inputs, and a witness built from them leads on to proof generation for the
/// same bytecode.
pub proof fn lemma_empty_inputs_proceed(step: SrsSetup)
    requires
        step.inputs@.len() == 0,
    ensures
        srs_setup_next(step, Ok(())) is Ok,
        srs_setup_next(step, Ok(()))->Ok_0.inputs@.len() == 0,
        witness_creation_next(srs_setup_next(step, Ok(()))->Ok_0, Ok(())) == Ok::<
            ProofGeneration,
            NoirBindingError,
        >(ProofGeneration { bytecode: step.bytecode }),
{
}

} // verus!
