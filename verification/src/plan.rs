//! Request plans: the exact HTTP request an operation makes.
//!
//! Every index operation is a direct mapping to a single request with a
//! fixed verb, expected status code, URL and typed body. A [`RequestPlan`]
//! records that mapping as a value; the surrounding application performs
//! the network call it describes and hands the outcome back to the library.

use vstd::prelude::*;
use vstd::string::StringExecFns;
use crate::models::{ConfigureIndexRequest, QueryRequest, UpdateRequest, VectorRequest};

verus! {

/// The HTTP verb of a request.
#[derive(Debug, Clone, Copy, PartialEq, Eq, Structural)]
pub enum HttpMethod {
    Get,
    Post,
    Patch,
    Delete,
}

/// The typed body of a request, where the operation has one.
#[derive(Debug, Clone, PartialEq)]
pub enum RequestBody {
    Upsert(VectorRequest),
    Configure(ConfigureIndexRequest),
    Update(UpdateRequest),
    Query(QueryRequest),
}

/// One HTTP request, fully determined: the verb, the status code that
/// counts as success, an optional data-plane base URL (`None` means the
/// control plane of the session's environment), the path appended to that
/// base, and the body, if any. The body is sent as the JSON encoding of
/// the typed value.
#[derive(Debug, Clone, PartialEq)]
pub struct RequestPlan {
    pub method: HttpMethod,
    pub expected_status: u16,
    pub base: Option<String>,
    pub path: String,
    pub body: Option<RequestBody>,
}

/// The control-plane URL of an environment.
pub open spec fn spec_control_plane_url(environment: Seq<char>) -> Seq<char> {
    "https://controller."@ + environment + ".pinecone.io"@
}

/// Builds the control-plane URL for an environment:
/// `https://controller.{environment}.pinecone.io`.
pub fn control_plane_url(environment: &str) -> (r: String)
    ensures
        r@ == spec_control_plane_url(environment@),
{
    let mut s = String::from_str("https://controller.");
    s.append(environment);
    s.append(".pinecone.io");
    proof {
        assert(s@ =~= spec_control_plane_url(environment@));
    }
    s
}

/// The full URL a plan is sent to, given the session's environment: the
/// plan's own base where it carries one, the environment's control plane
/// otherwise, with the plan's path appended.
pub open spec fn spec_resolved_url(
    base: Option<String>,
    path: Seq<char>,
    environment: Seq<char>,
) -> Seq<char> {
    match base {
        Some(b) => b@ + path,
        None => spec_control_plane_url(environment) + path,
    }
}

impl RequestPlan {
    /// Resolves the plan against an environment into the single URL the
    /// request is sent to.
    pub fn resolved_url(&self, environment: &str) -> (r: String)
        ensures
            r@ == spec_resolved_url(self.base, self.path@, environment@),
    {
        let mut s: String = match &self.base {
            Some(b) => b.clone(),
            None => control_plane_url(environment),
        };
        s.append(self.path.as_str());
        s
    }
}

} // verus!
