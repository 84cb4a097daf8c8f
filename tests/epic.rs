use gamedig::epic::{get_client_oauth_token, get_server_info, Request, SessionFilter};

#[test]
fn session_filter_fields() {
    let f = SessionFilter::new("k", "eq", "v");
    assert_eq!(f.key, "k");
    assert_eq!(f.op, "eq");
    assert_eq!(f.value, "v");
}

#[test]
fn request_keeps_filter_order() {
    let r = Request::new()
        .add_filter(SessionFilter::new("a", "eq", "1"))
        .add_filter(SessionFilter::new("b", "ne", "2"));
    assert_eq!(r.criteria.len(), 2);
    assert_eq!(r.criteria[0].key, "a");
    assert_eq!(r.criteria[1].op, "ne");
    assert!(Request::new().criteria.is_empty());
}

#[test]
fn token_request() {
    let post = get_client_oauth_token("dep");
    assert_eq!(post.path, "/auth/v1/oauth/token");
    assert_eq!(
        post.fields,
        vec![
            ("grant_type".to_string(), "client_credentials".to_string()),
            ("deployment_id".to_string(), "dep".to_string()),
        ]
    );
}

#[test]
fn session_search_request() {
    let post = get_server_info("abc123");
    assert_eq!(post.path, "/matchmaking/v1/abc123/filter");
    assert_eq!(post.body.criteria, vec![SessionFilter::new("deployment_id", "eq", "abc123")]);
}
