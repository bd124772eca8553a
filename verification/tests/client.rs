use pinecone_rest::error::PineconeError;
use pinecone_rest::fetch::FetchResponse;
use pinecone_rest::index::Index;
use pinecone_rest::models::{
    ClientInfo, Credentials, FetchRequest, Metric, QueryRequest, UpdateRequest, UpsertResponse,
    Vector,
};
use pinecone_rest::plan::{HttpMethod, RequestBody};
use pinecone_rest::transport::{interpret, interpret_update, TransportOutcome};

fn test_index() -> Index {
    Index::new(
        String::from("test"),
        &Credentials {
            api_key: String::from("test-api-key"),
            environment: String::from("us-west1-gcp"),
        },
        &ClientInfo {
            project_name: String::from("proj"),
        },
    )
}

fn vector(id: &str, values: Vec<f32>) -> Vector {
    Vector {
        id: String::from(id),
        values: values.into_iter().map(f32::to_bits).collect(),
        sparse_values: None,
        metadata: None,
    }
}

fn responded(status: u16, body: &str) -> TransportOutcome {
    TransportOutcome::Responded {
        status,
        type_tag: String::from("application/json"),
        body: String::from(body),
    }
}

#[test]
fn url_is_the_exact_template() {
    let index = test_index();
    assert_eq!(index.url(), "https://test-proj.svc.us-west1-gcp.pinecone.io");
}

#[test]
fn url_has_no_trailing_slash() {
    let index = test_index();
    assert!(!index.url().ends_with('/'));
    let other = Index::new(
        String::from("n"),
        &Credentials {
            api_key: String::from("test-api-key"),
            environment: String::from("e"),
        },
        &ClientInfo {
            project_name: String::from("p"),
        },
    );
    assert_eq!(other.url(), "https://n-p.svc.e.pinecone.io");
    assert!(!other.url().ends_with('/'));
}

#[test]
fn describe_plan_is_a_control_plane_get() {
    let index = test_index();
    let plan = index.describe();
    assert_eq!(plan.method, HttpMethod::Get);
    assert_eq!(plan.expected_status, 200);
    assert_eq!(plan.base, None);
    assert_eq!(plan.path, "/databases/test");
    assert_eq!(plan.body, None);
}

#[test]
fn describe_missing_index_is_a_response_error() {
    // the service answers 404 for a nonexistent index: a response error,
    // never a transport error and never a panic
    let r = interpret(200, responded(404, "index test not found"));
    match r {
        Err(PineconeError::Response(status, tag, message)) => {
            assert_eq!(status, 404);
            assert_eq!(tag, "application/json");
            assert_eq!(message, "index test not found");
        }
        other => panic!("expected a response error, got {:?}", other),
    }
}

#[test]
fn failed_call_is_a_transport_error() {
    let r = interpret(200, TransportOutcome::Failed(String::from("connection refused")));
    assert_eq!(
        r,
        Err(PineconeError::Transport(String::from("connection refused")))
    );
}

#[test]
fn matching_status_passes_the_body_through() {
    let r = interpret(200, responded(200, "{\"upsertedCount\":3}"));
    assert_eq!(r, Ok(String::from("{\"upsertedCount\":3}")));
}

#[test]
fn upsert_plan_carries_namespace_and_vectors() {
    let index = test_index();
    let v = vector("A", vec![0.5, 0.25]);
    let plan = index.upsert(String::from("halfbaked"), vec![v.clone()]);
    assert_eq!(plan.method, HttpMethod::Post);
    assert_eq!(plan.expected_status, 200);
    assert_eq!(
        plan.base.as_deref(),
        Some("https://test-proj.svc.us-west1-gcp.pinecone.io")
    );
    assert_eq!(plan.path, "/vectors/upsert");
    match plan.body {
        Some(RequestBody::Upsert(u)) => {
            assert_eq!(u.namespace, "halfbaked");
            assert_eq!(u.vectors, vec![v]);
        }
        other => panic!("expected an upsert body, got {:?}", other),
    }
}

#[test]
fn upsert_of_nothing_is_allowed() {
    // an empty vector list is sent as such and a 200 with a zero count is
    // a success, not an error
    let index = test_index();
    let plan = index.upsert(String::from("ns"), Vec::new());
    match plan.body {
        Some(RequestBody::Upsert(u)) => assert!(u.vectors.is_empty()),
        other => panic!("expected an upsert body, got {:?}", other),
    }
    let r = interpret(plan.expected_status, responded(200, "{\"upsertedCount\":0}"));
    assert!(r.is_ok());
    let decoded = UpsertResponse { upserted_count: 0 };
    assert_eq!(decoded.upserted_count, 0);
}

#[test]
fn delete_plan_consumes_the_handle() {
    let index = test_index();
    let plan = index.delete();
    // `index` is moved: further calls on it no longer compile
    assert_eq!(plan.method, HttpMethod::Delete);
    assert_eq!(plan.expected_status, 202);
    assert_eq!(plan.base, None);
    assert_eq!(plan.path, "/databases/test");
    assert_eq!(plan.body, None);
}

#[test]
fn delete_of_a_missing_index_is_a_4xx_response_error() {
    let index = test_index();
    let plan = index.delete();
    let r = interpret(plan.expected_status, responded(404, "index not found"));
    match r {
        Err(e @ PineconeError::Response(..)) => {
            let status = e.status().expect("a response error carries a status");
            assert!((400u16..500).contains(&status));
        }
        other => panic!("expected a response error, got {:?}", other),
    }
}

#[test]
fn configure_plan_is_a_control_plane_patch() {
    let index = test_index();
    let plan = index.configure(1, String::from("s1.x1"));
    assert_eq!(plan.method, HttpMethod::Patch);
    assert_eq!(plan.expected_status, 202);
    assert_eq!(plan.base, None);
    assert_eq!(plan.path, "/databases/test");
    match plan.body {
        Some(RequestBody::Configure(c)) => {
            assert_eq!(c.replicas, 1);
            assert_eq!(c.pod_type, "s1.x1");
        }
        other => panic!("expected a configure body, got {:?}", other),
    }
}

#[test]
fn configure_accepts_202_and_surfaces_400() {
    // both terminal states of a configure: a 202 succeeds, an
    // incompatible index type comes back as a response error with 400
    let accepted = interpret(202, responded(202, "accepted"));
    assert_eq!(accepted, Ok(String::from("accepted")));
    let rejected = interpret(202, responded(400, "cannot scale a serverless index"));
    match rejected {
        Err(e @ PineconeError::Response(..)) => assert_eq!(e.status(), Some(400)),
        other => panic!("expected a response error, got {:?}", other),
    }
}

#[test]
fn update_plan_posts_the_request() {
    let index = test_index();
    let mut request = UpdateRequest::default();
    request.id = String::from("A");
    let plan = index.update(request.clone());
    assert_eq!(plan.method, HttpMethod::Post);
    assert_eq!(plan.expected_status, 200);
    assert_eq!(
        plan.base.as_deref(),
        Some("https://test-proj.svc.us-west1-gcp.pinecone.io")
    );
    assert_eq!(plan.path, "/vectors/update");
    assert_eq!(plan.body, Some(RequestBody::Update(request)));
}

#[test]
fn update_default_is_empty() {
    let request = UpdateRequest::default();
    assert_eq!(request.id, "");
    assert_eq!(request.values, None);
    assert_eq!(request.sparse_values, None);
    assert_eq!(request.set_metadata, None);
    assert_eq!(request.namespace, None);
}

#[test]
fn update_outcome_is_an_opaque_json_value() {
    let ok = interpret_update(responded(200, "{}"));
    assert!(ok.is_ok());
    let not_json = interpret_update(responded(200, "no json here"));
    match not_json {
        Err(PineconeError::Decode(m)) => assert_eq!(m, "update response was not valid JSON"),
        other => panic!("expected a decode error, got {:?}", other),
    }
    let bad_request = interpret_update(responded(400, "bad id"));
    match bad_request {
        Err(e @ PineconeError::Response(..)) => assert_eq!(e.status(), Some(400)),
        other => panic!("expected a response error, got {:?}", other),
    }
    let failed = interpret_update(TransportOutcome::Failed(String::from("dns failure")));
    match failed {
        Err(PineconeError::Transport(m)) => assert_eq!(m, "dns failure"),
        other => panic!("expected a transport error, got {:?}", other),
    }
}

#[test]
fn fetch_url_encodes_ids_and_namespace() {
    let request = FetchRequest {
        ids: vec![String::from("A"), String::from("B")],
        namespace: Some(String::from("halfbaked")),
    };
    let url = request.url(String::from("https://x.pinecone.io"));
    assert_eq!(
        url,
        "https://x.pinecone.io/vectors/fetch?ids=A&ids=B&namespace=halfbaked"
    );
}

#[test]
fn fetch_url_without_ids_or_namespace() {
    let bare = FetchRequest { ids: Vec::new(), namespace: None };
    assert_eq!(
        bare.url(String::from("https://x.pinecone.io")),
        "https://x.pinecone.io/vectors/fetch"
    );
    let ns_only = FetchRequest {
        ids: Vec::new(),
        namespace: Some(String::from("ns")),
    };
    assert_eq!(
        ns_only.url(String::from("https://x.pinecone.io")),
        "https://x.pinecone.io/vectors/fetch?namespace=ns"
    );
    let ids_only = FetchRequest {
        ids: vec![String::from("A")],
        namespace: None,
    };
    assert_eq!(
        ids_only.url(String::from("https://x.pinecone.io")),
        "https://x.pinecone.io/vectors/fetch?ids=A"
    );
}

#[test]
fn fetch_plan_puts_the_whole_url_in_the_base() {
    let index = test_index();
    let request = FetchRequest {
        ids: vec![String::from("A")],
        namespace: Some(String::from("halfbaked")),
    };
    let plan = index.fetch(request);
    assert_eq!(plan.method, HttpMethod::Get);
    assert_eq!(plan.expected_status, 200);
    assert_eq!(
        plan.base.as_deref(),
        Some("https://test-proj.svc.us-west1-gcp.pinecone.io/vectors/fetch?ids=A&namespace=halfbaked")
    );
    assert_eq!(plan.path, "");
    assert_eq!(plan.body, None);
}

#[test]
fn fetch_response_is_keyed_by_unique_ids() {
    // asking for an id twice never makes a second entry: the response
    // stays keyed by unique ids, the last vector stored under an id wins
    let mut response = FetchResponse::new(String::from("ns"));
    let first = vector("A", vec![1.0]);
    let second = vector("B", vec![2.0]);
    let replacement = vector("A", vec![3.0]);
    response.insert(String::from("A"), first);
    response.insert(String::from("B"), second.clone());
    response.insert(String::from("A"), replacement.clone());
    assert_eq!(response.len(), 2);
    assert_eq!(response.get(&String::from("A")), Some(&replacement));
    assert_eq!(response.get(&String::from("B")), Some(&second));
    assert_eq!(response.get(&String::from("C")), None);
}

#[test]
fn query_plan_posts_the_request() {
    let index = test_index();
    let mut request = QueryRequest::default();
    request.id = Some(String::from("A"));
    request.top_k = 1;
    let plan = index.query(request.clone());
    assert_eq!(plan.method, HttpMethod::Post);
    assert_eq!(plan.expected_status, 200);
    assert_eq!(
        plan.base.as_deref(),
        Some("https://test-proj.svc.us-west1-gcp.pinecone.io")
    );
    assert_eq!(plan.path, "/query");
    assert_eq!(plan.body, Some(RequestBody::Query(request)));
}

#[test]
fn query_default_has_no_probe() {
    let request = QueryRequest::default();
    assert_eq!(request.id, None);
    assert_eq!(request.vector, None);
    assert_eq!(request.sparse_vector, None);
    assert_eq!(request.namespace, None);
    assert_eq!(request.filter, None);
    assert_eq!(request.top_k, 0);
    assert!(!request.include_values);
    assert!(!request.include_metadata);
}

#[test]
fn describe_stats_plan_is_a_data_plane_get() {
    let index = test_index();
    let plan = index.describe_stats();
    assert_eq!(plan.method, HttpMethod::Get);
    assert_eq!(plan.expected_status, 200);
    assert_eq!(
        plan.base.as_deref(),
        Some("https://test-proj.svc.us-west1-gcp.pinecone.io")
    );
    assert_eq!(plan.path, "/describe_index_stats");
    assert_eq!(plan.body, None);
}

#[test]
fn resolved_url_uses_the_control_plane_when_no_base_is_set() {
    let index = test_index();
    let plan = index.describe();
    assert_eq!(
        plan.resolved_url("us-west1-gcp"),
        "https://controller.us-west1-gcp.pinecone.io/databases/test"
    );
    let data_plane = index.describe_stats();
    assert_eq!(
        data_plane.resolved_url("us-west1-gcp"),
        "https://test-proj.svc.us-west1-gcp.pinecone.io/describe_index_stats"
    );
}

#[test]
fn metric_wire_names() {
    assert_eq!(Metric::Cosine.as_text(), "cosine");
    assert_eq!(Metric::Euclidean.as_text(), "euclidean");
    assert_eq!(Metric::DotProduct.as_text(), "dotproduct");
}

#[test]
fn error_status_is_only_on_response_errors() {
    assert_eq!(
        PineconeError::Response(400, String::from("t"), String::from("m")).status(),
        Some(400)
    );
    assert_eq!(PineconeError::Transport(String::from("m")).status(), None);
    assert_eq!(PineconeError::Decode(String::from("m")).status(), None);
}

#[test]
fn credentials_are_kept_as_given() {
    let index = test_index();
    assert_eq!(index.credentials().api_key, "test-api-key");
    assert_eq!(index.credentials().environment, "us-west1-gcp");
}

#[test]
fn vector_values_round_trip_through_a_json_echo() {
    // encode a vector's values as the JSON numbers the wire carries,
    // decode the echoed document, and land on the same values
    let original = vec![0.25f32, -1.5, 3.75, 0.1];
    let v = vector("A", original.clone());
    let numbers: Vec<serde_json::Value> = v
        .values
        .iter()
        .map(|bits| {
            serde_json::Value::from(f64::from(f32::from_bits(*bits)))
        })
        .collect();
    let document = serde_json::Value::Array(numbers);
    let text = serde_json::to_string(&document).expect("encoding plain numbers succeeds");
    let echoed: serde_json::Value = serde_json::from_str(&text).expect("the echo is valid JSON");
    let decoded: Vec<f32> = echoed
        .as_array()
        .expect("an array comes back")
        .iter()
        .map(|n| n.as_f64().expect("a number comes back") as f32)
        .collect();
    assert_eq!(decoded.len(), original.len());
    for (a, b) in decoded.iter().zip(original.iter()) {
        assert!((a - b).abs() <= 1e-6);
    }
}
