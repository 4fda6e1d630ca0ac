use vstd::prelude::*;

verus! {

/// Error body returned to HTTP clients by the transport layer.
#[derive(Debug, Clone)]
pub struct ErrorResponse {
    pub message: String,
}

/// Application-level error taxonomy.
#[derive(Debug, Clone)]
pub enum AppError {
    /// A request failed validation.
    Validation(String),
    /// An upstream service failed.
    Upstream(String),
    /// Anything else.
    Internal(String),
}

impl AppError {
    /// Human-readable description, prefixed by the error class.
    pub fn message(&self) -> (r: String)
        ensures
            match self {
                AppError::Validation(m) => r@ == "validation error: "@ + m@,
                AppError::Upstream(m) => r@ == "upstream error: "@ + m@,
                AppError::Internal(m) => r@ == "internal error: "@ + m@,
            },
    {
        match self {
            AppError::Validation(m) => "validation error: ".to_owned().concat(m.as_str()),
            AppError::Upstream(m) => "upstream error: ".to_owned().concat(m.as_str()),
            AppError::Internal(m) => "internal error: ".to_owned().concat(m.as_str()),
        }
    }
}

/// Body of the health endpoint.
#[derive(Debug, Clone)]
pub struct HealthResponse {
    pub status: String,
}

impl HealthResponse {
    /// The healthy response.
    pub fn healthy() -> (r: Self)
        ensures
            r.status@ == "healthy"@,
    {
        HealthResponse { status: "healthy".to_owned() }
    }
}

} // verus!
