use tracerbench_serve::request_parts::{RequestPart, RequestParts};

#[test]
fn test_path_and_query() {
    let parts = RequestParts::new("POST", "www.blah.com", "/path/to/something?query=params");

    assert_eq!(parts.get_part(RequestPart::Method), Some("POST"));
    assert_eq!(parts.get_part(RequestPart::Authority), Some("www.blah.com"));
    assert_eq!(
        parts.get_part(RequestPart::PathAndQuery),
        Some("/path/to/something?query=params")
    );
    assert_eq!(parts.get_part(RequestPart::Path), Some("/path/to/something"));
    assert_eq!(parts.get_part(RequestPart::Query), Some("query=params"));

    assert_eq!(parts.key(), "POST www.blah.com /path/to/something?query=params");
}

#[test]
fn test_path_and_query_replace_path_and_query_with_none() {
    let mut parts = RequestParts::new("GET", "www.example.com", "/path/to/something?query=params");

    parts.set_part(RequestPart::PathAndQuery, None);

    assert_eq!(parts.get_part(RequestPart::PathAndQuery), Some("/"));
    assert_eq!(parts.get_part(RequestPart::Path), Some("/"));
    assert_eq!(parts.get_part(RequestPart::Query), None);

    assert_eq!(parts.key(), "GET www.example.com /");
}

#[test]
fn test_path_and_query_replace_path_and_query_with_path_only() {
    let mut parts = RequestParts::new("GET", "www.example.com", "/path/to/something?query=params");

    parts.set_part(RequestPart::PathAndQuery, Some("/something/else"));

    assert_eq!(parts.get_part(RequestPart::PathAndQuery), Some("/something/else"));
    assert_eq!(parts.get_part(RequestPart::Path), Some("/something/else"));
    assert_eq!(parts.get_part(RequestPart::Query), None);

    assert_eq!(parts.key(), "GET www.example.com /something/else");
}

#[test]
fn test_path_and_query_replace_path_and_query_with_path_and_query() {
    let mut parts = RequestParts::new("GET", "www.example.com", "/path/to/something?query=params");

    parts.set_part(RequestPart::PathAndQuery, Some("/something/else?another=query"));

    assert_eq!(
        parts.get_part(RequestPart::PathAndQuery),
        Some("/something/else?another=query")
    );
    assert_eq!(parts.get_part(RequestPart::Path), Some("/something/else"));
    assert_eq!(parts.get_part(RequestPart::Query), Some("another=query"));

    assert_eq!(parts.key(), "GET www.example.com /something/else?another=query");
}

#[test]
fn test_path_and_query_replace_path_with_none() {
    let mut parts = RequestParts::new("GET", "www.example.com", "/path/to/something?query=params");

    parts.set_part(RequestPart::Path, None);

    assert_eq!(parts.get_part(RequestPart::PathAndQuery), Some("/?query=params"));
    assert_eq!(parts.get_part(RequestPart::Path), Some("/"));
    assert_eq!(parts.get_part(RequestPart::Query), Some("query=params"));

    assert_eq!(parts.key(), "GET www.example.com /?query=params");
}

#[test]
fn test_path_and_query_replace_path_with_path() {
    let mut parts = RequestParts::new("GET", "www.example.com", "/path/to/something?query=params");

    parts.set_part(RequestPart::Path, Some("/something/else"));

    assert_eq!(
        parts.get_part(RequestPart::PathAndQuery),
        Some("/something/else?query=params")
    );
    assert_eq!(parts.get_part(RequestPart::Path), Some("/something/else"));
    assert_eq!(parts.get_part(RequestPart::Query), Some("query=params"));

    assert_eq!(parts.key(), "GET www.example.com /something/else?query=params");
}

#[test]
fn test_path_and_query_replace_query_with_none() {
    let mut parts = RequestParts::new("GET", "www.example.com", "/path/to/something?query=params");

    parts.set_part(RequestPart::Query, None);

    assert_eq!(parts.get_part(RequestPart::PathAndQuery), Some("/path/to/something"));
    assert_eq!(parts.get_part(RequestPart::Path), Some("/path/to/something"));
    assert_eq!(parts.get_part(RequestPart::Query), None);
    assert_eq!(parts.key(), "GET www.example.com /path/to/something");
}

#[test]
fn test_path_and_query_replace_query_with_query() {
    let mut parts = RequestParts::new("GET", "www.example.com", "/path/to/something?query=params");

    parts.set_part(RequestPart::Query, Some("another=query"));

    assert_eq!(
        parts.get_part(RequestPart::PathAndQuery),
        Some("/path/to/something?another=query")
    );
    assert_eq!(parts.get_part(RequestPart::Path), Some("/path/to/something"));
    assert_eq!(parts.get_part(RequestPart::Query), Some("another=query"));

    assert_eq!(parts.key(), "GET www.example.com /path/to/something?another=query");
}

#[test]
fn test_path_only() {
    let parts = RequestParts::new("GET", "www.example.com", "/path/to/something");

    assert_eq!(parts.get_part(RequestPart::Method), Some("GET"));
    assert_eq!(parts.get_part(RequestPart::Authority), Some("www.example.com"));
    assert_eq!(parts.get_part(RequestPart::PathAndQuery), Some("/path/to/something"));
    assert_eq!(parts.get_part(RequestPart::Path), Some("/path/to/something"));
    assert_eq!(parts.get_part(RequestPart::Query), None);

    assert_eq!(parts.key(), "GET www.example.com /path/to/something");
}

#[test]
fn test_path_only_replace_path_and_query_with_none() {
    let mut parts = RequestParts::new("GET", "www.example.com", "/path/to/something");

    parts.set_part(RequestPart::PathAndQuery, None);

    assert_eq!(parts.get_part(RequestPart::PathAndQuery), Some("/"));
    assert_eq!(parts.get_part(RequestPart::Path), Some("/"));
    assert_eq!(parts.get_part(RequestPart::Query), None);
}

#[test]
fn test_path_only_replace_path_and_query_with_path_only() {
    let mut parts = RequestParts::new("GET", "www.example.com", "/path/to/something");

    parts.set_part(RequestPart::PathAndQuery, Some("/something/else"));

    assert_eq!(parts.get_part(RequestPart::PathAndQuery), Some("/something/else"));
    assert_eq!(parts.get_part(RequestPart::Path), Some("/something/else"));
    assert_eq!(parts.get_part(RequestPart::Query), None);

    assert_eq!(parts.key(), "GET www.example.com /something/else");
}

#[test]
fn test_path_only_replace_path_and_query_with_path_and_query() {
    let mut parts = RequestParts::new("GET", "www.example.com", "/path/to/something");

    parts.set_part(RequestPart::PathAndQuery, Some("/something/else?another=query"));

    assert_eq!(
        parts.get_part(RequestPart::PathAndQuery),
        Some("/something/else?another=query")
    );
    assert_eq!(parts.get_part(RequestPart::Path), Some("/something/else"));
    assert_eq!(parts.get_part(RequestPart::Query), Some("another=query"));

    assert_eq!(parts.key(), "GET www.example.com /something/else?another=query");
}

#[test]
fn test_path_only_replace_path_with_none() {
    let mut parts = RequestParts::new("GET", "www.example.com", "/path/to/something");

    parts.set_part(RequestPart::Path, None);

    assert_eq!(parts.get_part(RequestPart::PathAndQuery), Some("/"));
    assert_eq!(parts.get_part(RequestPart::Path), Some("/"));
    assert_eq!(parts.get_part(RequestPart::Query), None);

    assert_eq!(parts.key(), "GET www.example.com /");
}

#[test]
fn test_path_only_replace_path_with_path() {
    let mut parts = RequestParts::new("GET", "www.example.com", "/path/to/something");

    parts.set_part(RequestPart::Path, Some("/something/else"));

    assert_eq!(parts.get_part(RequestPart::PathAndQuery), Some("/something/else"));
    assert_eq!(parts.get_part(RequestPart::Path), Some("/something/else"));
    assert_eq!(parts.get_part(RequestPart::Query), None);

    assert_eq!(parts.key(), "GET www.example.com /something/else");
}

#[test]
fn test_path_only_replace_query_with_none() {
    let mut parts = RequestParts::new("GET", "www.example.com", "/path/to/something");

    parts.set_part(RequestPart::Query, None);

    assert_eq!(parts.get_part(RequestPart::PathAndQuery), Some("/path/to/something"));
    assert_eq!(parts.get_part(RequestPart::Path), Some("/path/to/something"));
    assert_eq!(parts.get_part(RequestPart::Query), None);

    assert_eq!(parts.key(), "GET www.example.com /path/to/something");
}

#[test]
fn test_path_only_replace_query_with_query() {
    let mut parts = RequestParts::new("GET", "www.example.com", "/path/to/something");

    parts.set_part(RequestPart::Query, Some("another=query"));

    assert_eq!(
        parts.get_part(RequestPart::PathAndQuery),
        Some("/path/to/something?another=query")
    );
    assert_eq!(parts.get_part(RequestPart::Path), Some("/path/to/something"));
    assert_eq!(parts.get_part(RequestPart::Query), Some("another=query"));

    assert_eq!(parts.key(), "GET www.example.com /path/to/something?another=query");
}
