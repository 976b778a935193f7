//! The per-request state machine of the query pipeline.
//!
//! A request starts with a tenant identifier and query text, is validated,
//! has its text embedded by the remote provider, has the embedding searched
//! in the vector store, and ends in one of three terminal states: completed,
//! failed on the caller's input, or failed on a dependency. The remote calls
//! themselves happen at the network edge: each transition function returns
//! the next state together with the one action the edge must perform, so
//! that what the pipeline decides — and when no call may be made — is
//! verified here, whatever the edge's clients do. There are no retries and
//! no fallbacks: a failed dependency call fails the request.

use vstd::prelude::*;

use crate::errors::{
    map_embed_error, map_store_error, spec_map_embed_error, spec_map_store_error, AppError,
    EmbedError, StoreError,
};
use crate::model::{result_views, EmbeddingVector, QueryRequest, SearchConfig, SearchResult};
use crate::store::{
    collection_named, collection_results, ranked_prefix, search_error, sorted_desc, MemoryStore,
};

verus! {

/// Where a request stands. `Completed`, `FailedBadRequest` and
/// `FailedDependency` are terminal; the others await a client outcome.
#[derive(Debug)]
pub enum QueryState {
    /// Waiting for the embedding provider's answer for the query text.
    Embedding { query_text: String },
    /// Waiting for the vector store's answer.
    Searching,
    /// The ranked results are ready for the caller.
    Completed { results: Vec<SearchResult> },
    /// The caller's input was invalid; no client was or will be invoked.
    FailedBadRequest,
    /// A client call failed; the wrapped kind says how.
    FailedDependency { error: AppError },
}

/// What the network edge must do next. `Respond` means the state is
/// terminal: no further remote call may be made for this request.
#[derive(Debug)]
pub enum QueryAction {
    /// Call the embedding provider with this batch of documents.
    RequestEmbedding { documents: Vec<String> },
    /// Call the vector store's search with this vector.
    RequestSearch { collection_name: String, vector: EmbeddingVector, top_k: usize },
    /// Answer the caller from the state; make no remote call.
    Respond,
}

/// Receive a request. Empty query text is rejected here, before any remote
/// call: the returned action asks for no client invocation at all. Non-empty
/// text moves to `Embedding`, asking the edge to embed the single-document
/// batch holding exactly the query text.
pub fn start(request: QueryRequest) -> (r: (QueryState, QueryAction))
    ensures
        request.query_text@.len() == 0 ==> r.0 is FailedBadRequest && r.1 is Respond,
        request.query_text@.len() > 0 ==> {
            &&& r.0 matches QueryState::Embedding { query_text }
                && query_text@ == request.query_text@
            &&& r.1 matches QueryAction::RequestEmbedding { documents } && documents@.len() == 1
                && documents@[0]@ == request.query_text@
        },
{
    if request.query_text.as_str().is_empty() {
        (QueryState::FailedBadRequest, QueryAction::Respond)
    } else {
        let mut documents: Vec<String> = Vec::new();
        documents.push(request.query_text.clone());
        (
            QueryState::Embedding { query_text: request.query_text },
            QueryAction::RequestEmbedding { documents },
        )
    }
}

/// Take the embedding provider's outcome. Any failure of the provider moves
/// to `FailedDependency` with a `Respond` action — the vector store is never
/// invoked, and no zero vector or cached embedding stands in. A batch that
/// does not hold exactly one vector for the one document breaks the
/// provider's contract and fails as unclassified. Otherwise the pipeline
/// moves to `Searching`, asking the edge to search the configured collection
/// with the returned vector and the configured result count.
pub fn on_embed_outcome(
    state: QueryState,
    outcome: Result<Vec<EmbeddingVector>, EmbedError>,
    config: &SearchConfig,
) -> (r: (QueryState, QueryAction))
    requires
        state is Embedding,
    ensures
        outcome matches Err(e) ==> r.0 == (QueryState::FailedDependency {
            error: spec_map_embed_error(e),
        }) && r.1 is Respond,
        outcome matches Ok(vs) ==> vs@.len() != 1 ==> r.0 == (QueryState::FailedDependency {
            error: AppError::InternalUnclassified,
        }) && r.1 is Respond,
        outcome matches Ok(vs) ==> vs@.len() == 1 ==> r.0 is Searching && (r.1
            matches QueryAction::RequestSearch { collection_name, vector, top_k }
            && collection_name@ == config.collection_name@
            && vector.components@ == vs@[0].components@ && top_k == config.top_k),
{
    match outcome {
        Result::Err(e) => (
            QueryState::FailedDependency { error: map_embed_error(&e) },
            QueryAction::Respond,
        ),
        Result::Ok(mut vs) => {
            if vs.len() == 1 {
                let vector = vs.remove(0);
                (
                    QueryState::Searching,
                    QueryAction::RequestSearch {
                        collection_name: config.collection_name.clone(),
                        vector,
                        top_k: config.top_k,
                    },
                )
            } else {
                (
                    QueryState::FailedDependency { error: AppError::InternalUnclassified },
                    QueryAction::Respond,
                )
            }
        },
    }
}

/// Take the vector store's outcome. A store failure moves to
/// `FailedDependency` with the store's kind wrapped — a dimension mismatch,
/// like every store-reported rejection, surfaces as a rejected dependency
/// call, not as the caller's bad request. Success completes the request with
/// the store's ranked results, unchanged.
pub fn on_search_outcome(state: QueryState, outcome: Result<Vec<SearchResult>, StoreError>) -> (r:
    (QueryState, QueryAction))
    requires
        state is Searching,
    ensures
        outcome matches Err(e) ==> r.0 == (QueryState::FailedDependency {
            error: spec_map_store_error(e),
        }) && r.1 is Respond,
        outcome matches Ok(results) ==> (r.0 matches QueryState::Completed { results: rs } && rs
            == results) && r.1 is Respond,
{
    match outcome {
        Result::Err(e) => (
            QueryState::FailedDependency { error: map_store_error(&e) },
            QueryAction::Respond,
        ),
        Result::Ok(results) => (QueryState::Completed { results }, QueryAction::Respond),
    }
}

/// Drive one request end to end against the in-memory store: validate the
/// request, hand over the outcome the embedding provider produced for its
/// text, search, and reach a terminal state.
pub fn run_query(
    store: &MemoryStore,
    config: &SearchConfig,
    request: QueryRequest,
    embed_outcome: Result<Vec<EmbeddingVector>, EmbedError>,
) -> (state: QueryState)
    requires
        store.wf(),
    ensures
        request.query_text@.len() == 0 ==> state is FailedBadRequest,
        request.query_text@.len() > 0 ==> match embed_outcome {
            Result::Err(e) => state == (QueryState::FailedDependency {
                error: spec_map_embed_error(e),
            }),
            Result::Ok(vs) => if vs@.len() != 1 {
                state == (QueryState::FailedDependency { error: AppError::InternalUnclassified })
            } else {
                match search_error(store@, config.collection_name@, vs@[0].dim() as int) {
                    Option::Some(se) => state == (QueryState::FailedDependency {
                        error: spec_map_store_error(se),
                    }),
                    Option::None => state matches QueryState::Completed { results } && {
                        let all = collection_results(
                            collection_named(store@, config.collection_name@),
                        );
                        &&& result_views(results@).len() == vstd::math::min(
                            config.top_k as int,
                            all.len() as int,
                        )
                        &&& sorted_desc(result_views(results@))
                        &&& ranked_prefix(all, result_views(results@), config.top_k as int)
                    },
                }
            },
        },
{
    let (state, action) = start(request);
    match action {
        QueryAction::Respond => state,
        QueryAction::RequestEmbedding { documents: _ } => {
            let (state, action) = on_embed_outcome(state, embed_outcome, config);
            match action {
                QueryAction::Respond => state,
                QueryAction::RequestSearch { collection_name, vector, top_k } => {
                    // No filter unless one is explicitly supplied; this
                    // pipeline supplies none.
                    let outcome = store.search(&collection_name, &vector, top_k, Option::None);
                    let (state, _action) = on_search_outcome(state, outcome);
                    state
                },
                QueryAction::RequestEmbedding { documents: _ } => {
                    proof {
                        assert(false);
                    }
                    QueryState::FailedBadRequest
                },
            }
        },
        QueryAction::RequestSearch { collection_name: _, vector: _, top_k: _ } => {
            proof {
                assert(false);
            }
            QueryState::FailedBadRequest
        },
    }
}

/// A dimension mismatch reported by the vector store surfaces as a rejected
/// dependency call, never as the caller's bad request.
pub proof fn lemma_dimension_mismatch_is_dependency_rejected()
    ensures
        spec_map_store_error(StoreError::DimensionMismatch) == AppError::DependencyRejected,
        spec_map_store_error(StoreError::DimensionMismatch) != AppError::BadRequest,
{
}

} // verus!
