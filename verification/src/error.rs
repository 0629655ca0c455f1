//! The ways in which a run can fail.

use vstd::prelude::*;

verus! {

/// Failure of the exchange with a news provider.
#[derive(Debug)]
pub enum FetchError {
    /// The provider could not be reached or its answer could not be read.
    /// Holds the description of the cause.
    Transport(String),
    /// The provider answered, but the body is not a JSON document.
    Parse(serde_json::Error),
}

/// Any failure that ends a run.
#[derive(Debug)]
pub enum AppError {
    /// The query could not be read. Holds the description of the cause.
    Io(String),
    /// A provider could not be asked.
    Fetch(FetchError),
    /// Any other anomaly that a provider reports, as a message.
    ApiError(String),
}

impl From<FetchError> for AppError {
    fn from(error: FetchError) -> (wrapped: AppError) {
        AppError::Fetch(error)
    }
}

impl vstd::std_specs::convert::FromSpecImpl<FetchError> for AppError {
    open spec fn obeys_from_spec() -> bool {
        true
    }

    open spec fn from_spec(error: FetchError) -> AppError {
        AppError::Fetch(error)
    }
}

} // verus!
