use vstd::prelude::*;

use crate::config::{decimal, write_decimal};

verus! {

/// Why the generation service's answer was not accepted.
#[derive(Debug, Clone, Copy, PartialEq, Eq, Structural)]
pub enum UpstreamError {
    /// The service answered with a status outside 200..=299.
    Status(u16),
    /// The service answered with success, but the body had not the expected shape.
    Malformed,
    /// No answer came back: the service could not be reached.
    Unreachable,
}

/// The structured error kinds that operations hand back to their caller.
#[derive(Debug, Clone, Copy, PartialEq, Eq, Structural)]
pub enum ApiError {
    /// Caller input was malformed or missing; nothing was touched.
    Validation,
    /// The identity is absent, or in the wrong lifecycle state for the operation.
    NotFound,
    /// A uniqueness constraint would be violated.
    Conflict,
    /// The generation service failed.
    Upstream(UpstreamError),
    /// A bounded resource (here: the identity space of a table) is used up.
    ResourceExhausted,
    /// No operation is registered under the requested name.
    Routing,
}

impl ApiError {
    /// The kind of the error, as its callers see it.
    pub open spec fn kind_text(self) -> Seq<char> {
        match self {
            ApiError::Validation => "ValidationError"@,
            ApiError::NotFound => "NotFound"@,
            ApiError::Conflict => "ConflictError"@,
            ApiError::Upstream(_) => "UpstreamError"@,
            ApiError::ResourceExhausted => "ResourceExhausted"@,
            ApiError::Routing => "RoutingError"@,
        }
    }

    /// The explanation that goes with the kind.
    pub open spec fn detail_text(self) -> Seq<char> {
        match self {
            ApiError::Validation => "malformed or missing input"@,
            ApiError::NotFound => "no active entity with this identity"@,
            ApiError::Conflict => "a unique field is already in use"@,
            ApiError::Upstream(UpstreamError::Status(s)) => "upstream answered with status "@
                + decimal(s as nat),
            ApiError::Upstream(UpstreamError::Malformed) => "upstream answer is malformed"@,
            ApiError::Upstream(UpstreamError::Unreachable) => "upstream could not be reached"@,
            ApiError::ResourceExhausted => "no identity is left to assign"@,
            ApiError::Routing => "no operation has this name"@,
        }
    }

    pub fn kind(&self) -> (r: &'static str)
        ensures
            r@ == self.kind_text(),
    {
        match self {
            ApiError::Validation => "ValidationError",
            ApiError::NotFound => "NotFound",
            ApiError::Conflict => "ConflictError",
            ApiError::Upstream(_) => "UpstreamError",
            ApiError::ResourceExhausted => "ResourceExhausted",
            ApiError::Routing => "RoutingError",
        }
    }

    /// The structured message: the kind, a colon, and the explanation.
    pub fn message(&self) -> (r: String)
        ensures
            r@ == self.kind_text() + ": "@ + self.detail_text(),
    {
        let mut r = String::from_str(self.kind());
        r.append(": ");
        match self {
            ApiError::Validation => r.append("malformed or missing input"),
            ApiError::NotFound => r.append("no active entity with this identity"),
            ApiError::Conflict => r.append("a unique field is already in use"),
            ApiError::Upstream(UpstreamError::Status(s)) => {
                r.append("upstream answered with status ");
                let code = write_decimal(*s);
                r.append(code.as_str());
            },
            ApiError::Upstream(UpstreamError::Malformed) => r.append("upstream answer is malformed"),
            ApiError::Upstream(UpstreamError::Unreachable) => r.append("upstream could not be reached"),
            ApiError::ResourceExhausted => r.append("no identity is left to assign"),
            ApiError::Routing => r.append("no operation has this name"),
        }
        r
    }
}

} // verus!
