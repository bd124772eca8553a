//! The handle to one named remote index, and the request each of its
//! operations makes.
//!
//! An [`Index`] holds the index name, the session credentials and the
//! caller's client info; all three are immutable after construction. Each
//! operation returns the [`RequestPlan`] it is defined by: one fixed verb,
//! one expected status code, one URL and at most one typed body. Sending
//! the plan and feeding the outcome back through [`crate::transport`] is
//! the surrounding application's part.

use vstd::prelude::*;
use vstd::string::StringExecFns;
use crate::models::{ClientInfo, Credentials, FetchRequest, QueryRequest, UpdateRequest, Vector, VectorRequest, ConfigureIndexRequest};
use crate::plan::{HttpMethod, RequestBody, RequestPlan};

verus! {

/// The data-plane URL of an index:
/// `https://{name}-{project}.svc.{environment}.pinecone.io`.
pub open spec fn spec_index_url(
    name: Seq<char>,
    project: Seq<char>,
    environment: Seq<char>,
) -> Seq<char> {
    "https://"@ + name + "-"@ + project + ".svc."@ + environment + ".pinecone.io"@
}

/// The control-plane path that names an index: `/databases/{name}`.
pub open spec fn spec_database_path(name: Seq<char>) -> Seq<char> {
    "/databases/"@ + name
}

/// A handle to one named remote index. All index-specific operations are
/// on this type. The handle is stateless: every call builds its request
/// anew from the three immutable fields.
#[derive(Debug, Clone, PartialEq)]
pub struct Index {
    pub name: String,
    pub creds: Credentials,
    pub client_info: ClientInfo,
}

impl Index {
    /// Builds a handle from the session's credentials and client info and
    /// the index's name.
    pub fn new(name: String, creds: &Credentials, client_info: &ClientInfo) -> (r: Index)
        ensures
            r.name == name,
            r.creds == *creds,
            r.client_info == *client_info,
    {
        Index {
            name,
            creds: Credentials {
                api_key: creds.api_key.clone(),
                environment: creds.environment.clone(),
            },
            client_info: ClientInfo { project_name: client_info.project_name.clone() },
        }
    }

    /// The session credentials the handle was built with.
    pub fn credentials(&self) -> (r: &Credentials)
        ensures
            r == self.creds,
    {
        &self.creds
    }

    /// The data-plane URL of the index, recomputed from the current field
    /// values on every call and never cached:
    /// `https://{name}-{project}.svc.{environment}.pinecone.io`,
    /// with no trailing slash (see [`lemma_index_url_no_trailing_slash`]).
    pub fn url(&self) -> (r: String)
        ensures
            r@ == spec_index_url(self.name@, self.client_info.project_name@, self.creds.environment@),
    {
        let mut s = String::from_str("https://");
        s.append(self.name.as_str());
        s.append("-");
        s.append(self.client_info.project_name.as_str());
        s.append(".svc.");
        s.append(self.creds.environment.as_str());
        s.append(".pinecone.io");
        proof {
            assert(s@ =~= spec_index_url(self.name@, self.client_info.project_name@, self.creds.environment@));
        }
        s
    }

    /// The control-plane path that names this index.
    fn database_path(&self) -> (r: String)
        ensures
            r@ == spec_database_path(self.name@),
    {
        let mut s = String::from_str("/databases/");
        s.append(self.name.as_str());
        s
    }

    /// The URL, as a `String`, for data-plane requests.
    fn data_plane_base(&self) -> (r: Option<String>)
        ensures
            r matches Some(b) && b@ == spec_index_url(
                self.name@,
                self.client_info.project_name@,
                self.creds.environment@,
            ),
    {
        Some(self.url())
    }

    /// The request that describes the index: a control-plane GET of
    /// `/databases/{name}`, expecting status 200, with no body. The decoded
    /// answer is an [`crate::models::IndexDescription`].
    ///
    /// A successful answer also validates the credentials and the index
    /// name: if the index does not exist, the outcome carries a status
    /// other than 200 and is classified as a response error.
    pub fn describe(&self) -> (r: RequestPlan)
        ensures
            r.method == HttpMethod::Get,
            r.expected_status == 200,
            r.base is None,
            r.path@ == spec_database_path(self.name@),
            r.body is None,
    {
        RequestPlan {
            method: HttpMethod::Get,
            expected_status: 200,
            base: None,
            path: self.database_path(),
            body: None,
        }
    }

    /// The request for the index's statistics: a GET of
    /// `/describe_index_stats` on the index's data-plane URL, expecting
    /// status 200, with no body. The decoded answer is an
    /// [`crate::models::IndexStats`].
    pub fn describe_stats(&self) -> (r: RequestPlan)
        ensures
            r.method == HttpMethod::Get,
            r.expected_status == 200,
            r.base matches Some(b) && b@ == spec_index_url(
                self.name@,
                self.client_info.project_name@,
                self.creds.environment@,
            ),
            r.path@ == "/describe_index_stats"@,
            r.body is None,
    {
        RequestPlan {
            method: HttpMethod::Get,
            expected_status: 200,
            base: self.data_plane_base(),
            path: String::from_str("/describe_index_stats"),
            body: None,
        }
    }

    /// The request that writes `vectors` into `namespace`: a POST of
    /// `/vectors/upsert` on the index's data-plane URL, expecting status
    /// 200, whose body is exactly the given namespace and vectors. The
    /// decoded answer is an [`crate::models::UpsertResponse`]. An empty
    /// vector list is allowed and sent as such.
    pub fn upsert(&self, namespace: String, vectors: Vec<Vector>) -> (r: RequestPlan)
        ensures
            r.method == HttpMethod::Post,
            r.expected_status == 200,
            r.base matches Some(b) && b@ == spec_index_url(
                self.name@,
                self.client_info.project_name@,
                self.creds.environment@,
            ),
            r.path@ == "/vectors/upsert"@,
            r.body matches Some(RequestBody::Upsert(u))
                && u.namespace == namespace && u.vectors == vectors,
    {
        let upsert = VectorRequest { namespace, vectors };
        RequestPlan {
            method: HttpMethod::Post,
            expected_status: 200,
            base: self.data_plane_base(),
            path: String::from_str("/vectors/upsert"),
            body: Some(RequestBody::Upsert(upsert)),
        }
    }

    /// The request that deletes the index: a control-plane DELETE of
    /// `/databases/{name}`, expecting status 202, with no body. The answer
    /// is the service's plain-text message.
    ///
    /// Deleting consumes the handle: once the plan is built the remote
    /// index is meant to go away, so further use of the handle is ruled
    /// out at compile time.
    pub fn delete(self) -> (r: RequestPlan)
        ensures
            r.method == HttpMethod::Delete,
            r.expected_status == 202,
            r.base is None,
            r.path@ == spec_database_path(self.name@),
            r.body is None,
    {
        RequestPlan {
            method: HttpMethod::Delete,
            expected_status: 202,
            base: None,
            path: self.database_path(),
            body: None,
        }
    }

    /// The request that reconfigures the index's replica count and pod
    /// type: a control-plane PATCH of `/databases/{name}`, expecting
    /// status 202, whose body carries exactly the two settings. The answer
    /// is the service's plain-text message; an incompatible index type is
    /// reported by the service as a response error with status 400.
    pub fn configure(&self, replicas: usize, pod_type: String) -> (r: RequestPlan)
        ensures
            r.method == HttpMethod::Patch,
            r.expected_status == 202,
            r.base is None,
            r.path@ == spec_database_path(self.name@),
            r.body matches Some(RequestBody::Configure(c))
                && c.replicas == replicas && c.pod_type == pod_type,
    {
        let p = ConfigureIndexRequest { replicas, pod_type };
        RequestPlan {
            method: HttpMethod::Patch,
            expected_status: 202,
            base: None,
            path: self.database_path(),
            body: Some(RequestBody::Configure(p)),
        }
    }

    /// The request that updates one vector: a POST of `/vectors/update` on
    /// the index's data-plane URL, expecting status 200, whose body is
    /// exactly the given update. The service answers with a JSON value
    /// that callers must ignore; see
    /// [`crate::transport::interpret_update`].
    pub fn update(&self, request: UpdateRequest) -> (r: RequestPlan)
        ensures
            r.method == HttpMethod::Post,
            r.expected_status == 200,
            r.base matches Some(b) && b@ == spec_index_url(
                self.name@,
                self.client_info.project_name@,
                self.creds.environment@,
            ),
            r.path@ == "/vectors/update"@,
            r.body matches Some(RequestBody::Update(u)) && u == request,
    {
        RequestPlan {
            method: HttpMethod::Post,
            expected_status: 200,
            base: self.data_plane_base(),
            path: String::from_str("/vectors/update"),
            body: Some(RequestBody::Update(request)),
        }
    }

    /// The request that fetches vectors by id: a GET, expecting status
    /// 200, with no body, whose whole URL — ids and namespace encoded as
    /// query parameters on the index's data-plane URL — is built by
    /// [`FetchRequest::url`]. The decoded answer is a
    /// [`crate::fetch::FetchResponse`].
    pub fn fetch(&self, request: FetchRequest) -> (r: RequestPlan)
        ensures
            r.method == HttpMethod::Get,
            r.expected_status == 200,
            r.base matches Some(b) && b@ == crate::fetch::spec_fetch_url(
                spec_index_url(self.name@, self.client_info.project_name@, self.creds.environment@),
                request.ids.deep_view(),
                (match request.namespace {
                    Some(n) => Some(n@),
                    None => None,
                }),
            ),
            r.path@ == Seq::<char>::empty(),
            r.body is None,
    {
        let url = request.url(self.url());
        RequestPlan {
            method: HttpMethod::Get,
            expected_status: 200,
            base: Some(url),
            path: String::new(),
            body: None,
        }
    }

    /// The request that queries the index with one probe: a POST of
    /// `/query` on the index's data-plane URL, expecting status 200, whose
    /// body is exactly the given query. The decoded answer is a
    /// [`crate::models::QueryResponse`].
    pub fn query(&self, request: QueryRequest) -> (r: RequestPlan)
        ensures
            r.method == HttpMethod::Post,
            r.expected_status == 200,
            r.base matches Some(b) && b@ == spec_index_url(
                self.name@,
                self.client_info.project_name@,
                self.creds.environment@,
            ),
            r.path@ == "/query"@,
            r.body matches Some(RequestBody::Query(q)) && q == request,
    {
        RequestPlan {
            method: HttpMethod::Post,
            expected_status: 200,
            base: self.data_plane_base(),
            path: String::from_str("/query"),
            body: Some(RequestBody::Query(request)),
        }
    }
}

/// The data-plane URL never ends in a slash: its last character is the
/// final `o` of the fixed `.pinecone.io` suffix, whatever the name, the
/// project and the environment are.
pub proof fn lemma_index_url_no_trailing_slash(
    name: Seq<char>,
    project: Seq<char>,
    environment: Seq<char>,
)
    ensures
        spec_index_url(name, project, environment).len() > 0,
        spec_index_url(name, project, environment).last() == 'o',
        spec_index_url(name, project, environment).last() != '/',
{
    reveal_strlit(".pinecone.io");
    let suffix = ".pinecone.io"@;
    assert(suffix.len() == 12);
    assert(suffix.last() == 'o');
    let u = spec_index_url(name, project, environment);
    assert(u.last() == suffix.last());
}

} // verus!
