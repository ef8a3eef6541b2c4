use vstd::prelude::*;
use vstd::string::*;

use crate::error::NoirBindingError;

verus! {

#[verifier::external_type_specification]
#[verifier::external_body]
pub struct ExJsonError(serde_json::Error);

/// Whether the text is a well-formed JSON document.
pub uninterp spec fn json_parses(text: Seq<char>) -> bool;

/// The string held under `key` at the top level of the JSON document `text`:
/// `None` where the document is no object, lacks the key, or holds something
/// other than a string there.
pub uninterp spec fn json_string_member(text: Seq<char>, key: Seq<char>) -> Option<Seq<char>>;

pub open spec fn opt_view(o: Option<String>) -> Option<Seq<char>> {
    match o {
        Some(s) => Some(s@),
        None => None,
    }
}

/// Relies on `serde_json::from_str::<serde_json::Value>` to parse the text
/// (its success depends on the text alone), and on indexing the parsed value
/// by `key` followed by `Value::as_str`, which yield a string only for a
/// string member of an object.
#[verifier::external_body]
fn parse_string_member(text: &str, key: &str) -> (r: Result<Option<String>, serde_json::Error>)
    ensures
        match r {
            Ok(m) => json_parses(text@) && opt_view(m) == json_string_member(text@, key@),
            Err(_) => !json_parses(text@),
        },
{
    match serde_json::from_str::<serde_json::Value>(text) {
        Ok(v) => Ok(v[key].as_str().map(String::from)),
        Err(e) => Err(e),
    }
}

/// The field of a circuit manifest that holds the compiled circuit.
pub open spec fn bytecode_key() -> Seq<char> {
    "bytecode"@
}

/// The start of the message carried by a `CircuitJsonParseError`.
pub open spec fn parse_error_prefix() -> Seq<char> {
    "Failed to parse provided JSON circuit content: "@
}

pub open spec fn starts_with(s: Seq<char>, prefix: Seq<char>) -> bool {
    prefix.len() <= s.len() && s.subrange(0, prefix.len() as int) == prefix
}

/// What extracting the bytecode from the manifest `text` yields: a parse error
/// for malformed text, the `bytecode` string where there is one, and a
/// missing-bytecode error otherwise.
pub open spec fn bytecode_outcome(text: Seq<char>, r: Result<String, NoirBindingError>) -> bool {
    if !json_parses(text) {
        match r {
            Err(NoirBindingError::CircuitJsonParseError { details }) => starts_with(
                details@,
                parse_error_prefix(),
            ),
            _ => false,
        }
    } else {
        match json_string_member(text, bytecode_key()) {
            Some(b) => r is Ok && r->Ok_0@ == b,
            None => r == Err::<String, NoirBindingError>(NoirBindingError::MissingBytecodeError),
        }
    }
}

/// Reads a circuit manifest and returns the compiled circuit held in its
/// `bytecode` field, unchanged.
pub fn get_bytecode(circuit_json_content: String) -> (r: Result<String, NoirBindingError>)
    ensures
        bytecode_outcome(circuit_json_content@, r),
{
    let key = "bytecode";
    proof {
        reveal_strlit("bytecode");
    }
    match parse_string_member(circuit_json_content.as_str(), key) {
        Ok(Some(bytecode)) => Ok(bytecode),
        Ok(None) => Err(NoirBindingError::MissingBytecodeError),
        Err(e) => {
            let mut details = String::from_str("Failed to parse provided JSON circuit content: ");
            proof {
                reveal_strlit("Failed to parse provided JSON circuit content: ");
            }
            let message = e.to_string();
            details.append(message.as_str());
            assert(details@.subrange(0, parse_error_prefix().len() as int) =~= parse_error_prefix());
            Err(NoirBindingError::CircuitJsonParseError { details })
        },
    }
}

/// Reading the same manifest twice gives the same outcome: the same bytecode,
/// or failures of the same kind. Key derivation is thus always asked about the
/// same circuit for the same manifest.
pub proof fn lemma_bytecode_deterministic(
    text: Seq<char>,
    first: Result<String, NoirBindingError>,
    second: Result<String, NoirBindingError>,
)
    requires
        bytecode_outcome(text, first),
        bytecode_outcome(text, second),
    ensures
        first is Ok <==> second is Ok,
        first is Ok ==> first->Ok_0@ == second->Ok_0@,
        first is Err ==> (first->Err_0 is CircuitJsonParseError <==> second->Err_0 is CircuitJsonParseError),
        first is Err ==> (first->Err_0 is MissingBytecodeError <==> second->Err_0 is MissingBytecodeError),
{
}

} // verus!
