//! Error taxonomy of the pipeline and its mappings.
//!
//! Each client component reports the most specific failure kind it can
//! determine; the orchestrator wraps those kinds into the application-level
//! taxonomy without reinterpreting them, and the HTTP boundary maps the
//! application kinds to status codes.

use vstd::prelude::*;

verus! {

/// Failure of the embedding client when asked for vectors.
#[derive(Clone, Copy, Debug, PartialEq, Eq, Structural)]
pub enum EmbedError {
    /// The provider could not be reached at all.
    RemoteUnavailable,
    /// The provider answered with a non-success HTTP status.
    RemoteRejected(u16),
    /// The provider answered, but the body was neither a vector array nor a
    /// provider-level error payload.
    RemoteInvalidResponse,
}

/// Failure of the vector-store client.
#[derive(Clone, Copy, Debug, PartialEq, Eq, Structural)]
pub enum StoreError {
    /// The store could not be reached at all.
    StoreUnavailable,
    /// The named collection does not exist.
    NotFound,
    /// A collection of that name already exists.
    AlreadyExists,
    /// The query vector's length differs from the collection's vector size.
    DimensionMismatch,
}

/// Application-level failure kinds, as the HTTP boundary sees them.
#[derive(Clone, Copy, Debug, PartialEq, Eq, Structural)]
pub enum AppError {
    /// The caller's input was invalid (empty query text).
    BadRequest,
    /// A dependency (embedding provider or vector store) was unreachable.
    DependencyUnavailable,
    /// A dependency returned a structured error (rejection, not-found,
    /// conflict, bad dimension).
    DependencyRejected,
    /// An unexpected failure that fits none of the kinds above, such as a
    /// response body that could not be interpreted.
    InternalUnclassified,
}

/// How an embedding-client failure surfaces at the application level.
pub open spec fn spec_map_embed_error(e: EmbedError) -> AppError {
    match e {
        EmbedError::RemoteUnavailable => AppError::DependencyUnavailable,
        EmbedError::RemoteRejected(_) => AppError::DependencyRejected,
        EmbedError::RemoteInvalidResponse => AppError::InternalUnclassified,
    }
}

/// How a store-client failure surfaces at the application level.
/// A dimension mismatch is a fault of the request the orchestrator built,
/// reported by the dependency: it surfaces as a rejected dependency call,
/// never as a caller-side bad request.
pub open spec fn spec_map_store_error(e: StoreError) -> AppError {
    match e {
        StoreError::StoreUnavailable => AppError::DependencyUnavailable,
        StoreError::NotFound => AppError::DependencyRejected,
        StoreError::AlreadyExists => AppError::DependencyRejected,
        StoreError::DimensionMismatch => AppError::DependencyRejected,
    }
}

/// Wrap an embedding-client failure into the application taxonomy.
pub fn map_embed_error(e: &EmbedError) -> (r: AppError)
    ensures
        r == spec_map_embed_error(*e),
{
    match *e {
        EmbedError::RemoteUnavailable => AppError::DependencyUnavailable,
        EmbedError::RemoteRejected(_) => AppError::DependencyRejected,
        EmbedError::RemoteInvalidResponse => AppError::InternalUnclassified,
    }
}

/// Wrap a store-client failure into the application taxonomy.
pub fn map_store_error(e: &StoreError) -> (r: AppError)
    ensures
        r == spec_map_store_error(*e),
{
    match *e {
        StoreError::StoreUnavailable => AppError::DependencyUnavailable,
        StoreError::NotFound => AppError::DependencyRejected,
        StoreError::AlreadyExists => AppError::DependencyRejected,
        StoreError::DimensionMismatch => AppError::DependencyRejected,
    }
}

/// The HTTP status code for each application-level failure kind: 400 for a
/// caller error, 424 (failed dependency) for a dependency failure, 500 for an
/// unclassified internal failure.
pub fn http_status(e: &AppError) -> (code: u16)
    ensures
        code == match *e {
            AppError::BadRequest => 400u16,
            AppError::DependencyUnavailable => 424u16,
            AppError::DependencyRejected => 424u16,
            AppError::InternalUnclassified => 500u16,
        },
{
    match *e {
        AppError::BadRequest => 400,
        AppError::DependencyUnavailable => 424,
        AppError::DependencyRejected => 424,
        AppError::InternalUnclassified => 500,
    }
}

} // verus!
