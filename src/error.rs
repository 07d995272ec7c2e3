//! The failures that the library reports.
use vstd::prelude::*;

verus! {

/// What is wrong with a configuration record.
#[derive(Debug)]
pub enum ConfigProblem {
    /// No endpoint locator was given.
    MissingUrl,
    /// The endpoint locator is not a URL that the chosen backend can use; holds why.
    InvalidUrl(url::ParseError),
}

/// A failure of a client operation.
#[derive(Debug)]
pub enum ClientError {
    /// Missing or invalid configuration.
    Config(ConfigProblem),
    /// The requested or inferred backend kind is unknown or not enabled; holds its name.
    UnsupportedBackend(String),
    /// The backend kind, named here, needs a host context and a constructor of its own.
    ContextRequired(String),
    /// The response is not an array.
    ResponseShape,
    /// The response array does not hold one result per statement.
    ResponseCountMismatch { expected: usize, actual: usize },
    /// The result at `index` could not be parsed.
    StatementParse { index: usize, message: String },
    /// A failure reported by the backend's transport, passed on unchanged.
    Backend(String),
}

impl ClientError {
    /// A human-readable description of the failure; those of an unsupported or
    /// context-bound backend name the kind, and those of a parse or a transport
    /// failure are the message that came with it.
    pub fn message(&self) -> (r: String)
        ensures
            match self {
                ClientError::UnsupportedBackend(kind) => r@ == "Unknown backend: "@ + kind@
                    + ". Make sure your backend exists and is enabled"@,
                ClientError::ContextRequired(kind) => r@ == "Connecting through the "@ + kind@
                    + " backend needs its host context; call its own constructor directly"@,
                ClientError::StatementParse { message, .. } => r@ == message@,
                ClientError::Backend(message) => r@ == message@,
                _ => true,
            },
    {
        match self {
            ClientError::Config(ConfigProblem::MissingUrl) => String::from_str(
                "LIBSQL_CLIENT_URL variable should point to your libSQL/sqld database",
            ),
            ClientError::Config(ConfigProblem::InvalidUrl(_)) => String::from_str(
                "the endpoint URL could not be parsed",
            ),
            ClientError::UnsupportedBackend(kind) => {
                let mut m = String::from_str("Unknown backend: ");
                m.append(kind.as_str());
                m.append(". Make sure your backend exists and is enabled");
                m
            },
            ClientError::ContextRequired(kind) => {
                let mut m = String::from_str("Connecting through the ");
                m.append(kind.as_str());
                m.append(" backend needs its host context; call its own constructor directly");
                m
            },
            ClientError::ResponseShape => String::from_str("Response is not an array"),
            ClientError::ResponseCountMismatch { .. } => String::from_str(
                "Response array did not contain the expected number of results",
            ),
            ClientError::StatementParse { message, .. } => message.clone(),
            ClientError::Backend(message) => message.clone(),
        }
    }
}

} // verus!
