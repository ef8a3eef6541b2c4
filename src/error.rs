use vstd::prelude::*;

verus! {

/// Every way an operation of this library can fail, one variant per failure
/// class, each carrying the message of the step that failed where there is one.
#[derive(Debug, Clone)]
pub enum NoirBindingError {
    CircuitFileError { details: String },
    CircuitJsonParseError { details: String },
    MissingBytecodeError,
    SrsSetupError { details: String },
    WitnessCreationError { details: String },
    ProofGenerationError { details: String },
    VerificationKeyError { details: String },
    VerificationError { details: String },
    NoirInternalError { details: String },
}

} // verus!
