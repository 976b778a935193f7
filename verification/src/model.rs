//! Data model of the pipeline: queries, embeddings, search results, and the
//! configuration of the search step.
//!
//! Embedding components and similarity scores are floating-point numbers at
//! the network edge. The core never computes on them — it only counts
//! components and orders results — so the library carries each one as a
//! fixed-point `i64` chosen by the boundary (the edge scales a component or a
//! score to millionths before handing it in). Ordering fixed-point scores
//! orders the original scores.

use vstd::prelude::*;

verus! {

/// How many results a search returns at most when the caller does not say.
pub const DEFAULT_TOP_K: usize = 10;

/// The vector size the admin boundary fixes for every collection it creates.
pub const DEFAULT_VECTOR_SIZE: usize = 10;

/// The distance metric under which a collection ranks its vectors.
#[derive(Clone, Copy, Debug, PartialEq, Eq, Structural)]
pub enum DistanceMetric {
    Cosine,
    Euclidean,
    Dot,
}

/// One embedding: an ordered, fixed-length sequence of components in the
/// boundary's fixed-point encoding.
#[derive(Debug, PartialEq, Eq)]
pub struct EmbeddingVector {
    pub components: Vec<i64>,
}

impl EmbeddingVector {
    /// The number of components, as a mathematical value.
    pub open spec fn dim(self) -> nat {
        self.components@.len()
    }

    pub fn new(components: Vec<i64>) -> (v: EmbeddingVector)
        ensures
            v.components@ == components@,
    {
        EmbeddingVector { components }
    }

    /// The number of components.
    pub fn dimension(&self) -> (n: usize)
        ensures
            n == self.dim(),
    {
        self.components.len()
    }
}

/// One field of a point's payload: a named value. A payload is a sequence
/// of such entries; an empty sequence is a point without payload.
#[derive(Debug, PartialEq, Eq)]
pub struct PayloadEntry {
    pub field: String,
    pub value: String,
}

impl View for PayloadEntry {
    type V = (Seq<char>, Seq<char>);

    open spec fn view(&self) -> (Seq<char>, Seq<char>) {
        (self.field@, self.value@)
    }
}

/// The mathematical values of a payload's entries.
pub open spec fn payload_views(s: Seq<PayloadEntry>) -> Seq<(Seq<char>, Seq<char>)> {
    s.map_values(|e: PayloadEntry| e@)
}

/// A structured predicate over payload fields: a point qualifies when its
/// payload holds `field` with `value`.
#[derive(Debug)]
pub struct PayloadFilter {
    pub field: String,
    pub value: String,
}

/// One ranked hit of a similarity search: the stored point's identifier, its
/// similarity score in the boundary's fixed-point encoding, and its payload.
#[derive(Debug, PartialEq, Eq)]
pub struct SearchResult {
    pub point_id: String,
    pub score: i64,
    pub payload: Vec<PayloadEntry>,
}

/// The mathematical value of one search result.
#[verifier::ext_equal]
pub struct ResultView {
    pub point_id: Seq<char>,
    pub score: int,
    pub payload: Seq<(Seq<char>, Seq<char>)>,
}

impl View for SearchResult {
    type V = ResultView;

    open spec fn view(&self) -> ResultView {
        ResultView {
            point_id: self.point_id@,
            score: self.score as int,
            payload: payload_views(self.payload@),
        }
    }
}

/// The mathematical values of a sequence of search results.
pub open spec fn result_views(s: Seq<SearchResult>) -> Seq<ResultView> {
    s.map_values(|r: SearchResult| r@)
}

/// A tenant-scoped text query. The tenant identifier scopes nothing yet: the
/// collection searched comes from configuration, not from the tenant.
#[derive(Debug)]
pub struct QueryRequest {
    pub tenant_id: String,
    pub query_text: String,
}

impl QueryRequest {
    pub fn new(tenant_id: String, query_text: String) -> (q: QueryRequest)
        ensures
            q.tenant_id@ == tenant_id@,
            q.query_text@ == query_text@,
    {
        QueryRequest { tenant_id, query_text }
    }
}

/// What the search step needs to know: which collection to search and how
/// many results to ask for.
#[derive(Debug)]
pub struct SearchConfig {
    pub collection_name: String,
    pub top_k: usize,
}

impl SearchConfig {
    /// A configuration with the default result count.
    pub fn new(collection_name: String) -> (c: SearchConfig)
        ensures
            c.collection_name@ == collection_name@,
            c.top_k == DEFAULT_TOP_K,
    {
        SearchConfig { collection_name, top_k: DEFAULT_TOP_K }
    }

    pub fn with_top_k(collection_name: String, top_k: usize) -> (c: SearchConfig)
        ensures
            c.collection_name@ == collection_name@,
            c.top_k == top_k,
    {
        SearchConfig { collection_name, top_k }
    }
}

} // verus!
