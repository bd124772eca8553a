//! Plain data types exchanged with the remote service.
//!
//! Floating-point vector components are held as their IEEE 754 single
//! precision bit patterns (`u32`): the library's contracts speak of the bit
//! patterns, and the surrounding application converts to and from `f32` at
//! the boundary. A metadata or filter payload is held as raw JSON text and
//! carried through opaquely.

use vstd::prelude::*;
use vstd::string::StringExecFns;

verus! {

/// The credentials of a session: the API key attached to every outgoing
/// request, and the environment string that selects the regional endpoint.
#[derive(Debug, Clone, PartialEq)]
pub struct Credentials {
    pub api_key: String,
    pub environment: String,
}

/// Caller-identifying metadata needed to build an index's data-plane URL.
#[derive(Debug, Clone, PartialEq)]
pub struct ClientInfo {
    pub project_name: String,
}

/// The distance metric of an index.
#[derive(Debug, Clone, Copy, PartialEq, Eq, Structural)]
pub enum Metric {
    Cosine,
    Euclidean,
    DotProduct,
}

impl Metric {
    /// The wire name of the metric, as the remote service spells it.
    pub fn as_text(&self) -> (r: String)
        ensures
            r@ == (match *self {
                Metric::Cosine => "cosine"@,
                Metric::Euclidean => "euclidean"@,
                Metric::DotProduct => "dotproduct"@,
            }),
    {
        match self {
            Metric::Cosine => String::from_str("cosine"),
            Metric::Euclidean => String::from_str("euclidean"),
            Metric::DotProduct => String::from_str("dotproduct"),
        }
    }
}

/// The sparse component of a vector: parallel lists of indices and of the
/// bit patterns of the corresponding values.
#[derive(Debug, Clone, PartialEq)]
pub struct SparseValues {
    pub indices: Vec<u32>,
    pub values: Vec<u32>,
}

/// A single embedding entry: an id, the bit patterns of its dense values,
/// and optional sparse values and metadata.
#[derive(Debug, Clone, PartialEq)]
pub struct Vector {
    pub id: String,
    pub values: Vec<u32>,
    pub sparse_values: Option<SparseValues>,
    pub metadata: Option<String>,
}

/// The body of an upsert request: a namespace and the vectors to write.
#[derive(Debug, Clone, PartialEq)]
pub struct VectorRequest {
    pub namespace: String,
    pub vectors: Vec<Vector>,
}

/// The body of a configure request: the desired replica count and pod type.
#[derive(Debug, Clone, PartialEq)]
pub struct ConfigureIndexRequest {
    pub replicas: usize,
    pub pod_type: String,
}

/// The body of an update request for a single vector.
#[derive(Debug, Clone, PartialEq)]
pub struct UpdateRequest {
    pub id: String,
    pub values: Option<Vec<u32>>,
    pub sparse_values: Option<SparseValues>,
    pub set_metadata: Option<String>,
    pub namespace: Option<String>,
}

impl Default for UpdateRequest {
    /// An update of nothing: an empty id and no optional field set.
    fn default() -> (r: Self)
        ensures
            r.id@ == Seq::<char>::empty(),
            r.values is None,
            r.sparse_values is None,
            r.set_metadata is None,
            r.namespace is None,
    {
        UpdateRequest {
            id: String::new(),
            values: None,
            sparse_values: None,
            set_metadata: None,
            namespace: None,
        }
    }
}

/// The body of a query request: exactly one of `id`, `vector` or
/// `sparse_vector` names the probe; `top_k` bounds the number of matches.
#[derive(Debug, Clone, PartialEq)]
pub struct QueryRequest {
    pub namespace: Option<String>,
    pub top_k: usize,
    pub filter: Option<String>,
    pub include_values: bool,
    pub include_metadata: bool,
    pub vector: Option<Vec<u32>>,
    pub sparse_vector: Option<SparseValues>,
    pub id: Option<String>,
}

impl Default for QueryRequest {
    /// A query with no probe, no namespace, no filter and `top_k` zero.
    fn default() -> (r: Self)
        ensures
            r.namespace is None,
            r.top_k == 0,
            r.filter is None,
            !r.include_values,
            !r.include_metadata,
            r.vector is None,
            r.sparse_vector is None,
            r.id is None,
    {
        QueryRequest {
            namespace: None,
            top_k: 0,
            filter: None,
            include_values: false,
            include_metadata: false,
            vector: None,
            sparse_vector: None,
            id: None,
        }
    }
}

/// The ids to look up in a fetch, and the namespace to look in.
#[derive(Debug, Clone, PartialEq)]
pub struct FetchRequest {
    pub ids: Vec<String>,
    pub namespace: Option<String>,
}

/// The service-side description of an index's database settings.
#[derive(Debug, Clone, PartialEq)]
pub struct DatabaseDescription {
    pub name: String,
    pub dimension: usize,
    pub metric: String,
    pub replicas: usize,
    pub pod_type: String,
}

/// The service-side readiness of an index.
#[derive(Debug, Clone, PartialEq)]
pub struct IndexStatus {
    pub ready: bool,
    pub state: String,
}

/// What `describe` returns: the database settings and the index status.
#[derive(Debug, Clone, PartialEq)]
pub struct IndexDescription {
    pub database: DatabaseDescription,
    pub status: IndexStatus,
}

/// Per-namespace statistics within an index.
#[derive(Debug, Clone, PartialEq)]
pub struct NamespaceStats {
    pub name: String,
    pub vector_count: usize,
}

/// What `describe_stats` returns. `index_fullness_bits` holds the bit
/// pattern of the fullness fraction reported by the service.
#[derive(Debug, Clone, PartialEq)]
pub struct IndexStats {
    pub namespaces: Vec<NamespaceStats>,
    pub dimension: usize,
    pub index_fullness_bits: u32,
    pub total_vector_count: usize,
}

/// What `upsert` returns: how many vectors the service wrote.
#[derive(Debug, Clone, PartialEq)]
pub struct UpsertResponse {
    pub upserted_count: usize,
}

/// One scored match of a query.
#[derive(Debug, Clone, PartialEq)]
pub struct QueryMatch {
    pub id: String,
    pub score_bits: u32,
    pub values: Option<Vec<u32>>,
    pub sparse_values: Option<SparseValues>,
    pub metadata: Option<String>,
}

/// What `query` returns: the most similar entries of one namespace.
#[derive(Debug, Clone, PartialEq)]
pub struct QueryResponse {
    pub matches: Vec<QueryMatch>,
    pub namespace: String,
}

} // verus!
