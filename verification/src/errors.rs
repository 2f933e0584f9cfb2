//! Error taxonomy of the core: parse-time rejection, engine-side registration
//! and query failures, unknown dataset names, and deliberately unsupported
//! operations.

use vstd::prelude::*;

verus! {

/// An error surfaced as the single reply text of the originating command.
#[derive(Clone, Debug)]
pub enum EngineError {
    /// A connection descriptor or extension token was rejected before any
    /// engine interaction.
    ParseError(String),
    /// The engine rejected a registered source (missing file, bad schema,
    /// decode failure).
    RegistrationError(String),
    /// An operation referenced a dataset name that was never registered.
    UnknownDataset(String),
    /// Query text failed to parse, plan or execute; the diagnostic is passed
    /// through verbatim.
    QueryError(String),
    /// The operation is a deliberate stub rather than a silent no-op.
    UnsupportedOperation(String),
}

/// The rendered reply text of an error.
pub open spec fn message_of(e: EngineError) -> Seq<char> {
    match e {
        EngineError::ParseError(s) => "Parse error: "@ + s@,
        EngineError::RegistrationError(s) => "Registration error: "@ + s@,
        EngineError::UnknownDataset(s) => "Unknown dataset: "@ + s@,
        EngineError::QueryError(s) => "Query error: "@ + s@,
        EngineError::UnsupportedOperation(s) => "Unsupported operation: "@ + s@,
    }
}

impl EngineError {
    /// Renders the error as reply text.
    pub fn message(&self) -> (r: String)
        ensures
            r@ == message_of(*self),
    {
        match self {
            EngineError::ParseError(s) => String::from_str("Parse error: ").concat(s.as_str()),
            EngineError::RegistrationError(s) => String::from_str("Registration error: ").concat(
                s.as_str(),
            ),
            EngineError::UnknownDataset(s) => String::from_str("Unknown dataset: ").concat(
                s.as_str(),
            ),
            EngineError::QueryError(s) => String::from_str("Query error: ").concat(s.as_str()),
            EngineError::UnsupportedOperation(s) => String::from_str(
                "Unsupported operation: ",
            ).concat(s.as_str()),
        }
    }
}

} // verus!
