use ydb::connection_pool::{connect_lazy, normalize_uri_scheme, ConnectionPool, EndpointUri};
use ydb::YdbError;

fn with_runtime<T>(f: impl FnOnce() -> T) -> T {
    // Building a transport channel registers with the async runtime's
    // reactor even though no connection is made yet.
    let rt = tokio::runtime::Builder::new_current_thread().enable_all().build().unwrap();
    let guard = rt.enter();
    let out = f();
    drop(guard);
    out
}

fn uri(scheme: &str, host: Option<&str>, port: Option<u16>, path: &str) -> EndpointUri {
    EndpointUri {
        scheme: scheme.to_string(),
        host: host.map(|h| h.to_string()),
        port,
        path: path.to_string(),
    }
}

#[test]
fn test_normalize_uri_scheme_grpc_to_http() {
    let u = uri("grpc", Some("localhost"), Some(7135), "/path");
    let normalized = normalize_uri_scheme(u).unwrap();

    assert_eq!(normalized.scheme, "http");
    assert_eq!(normalized.host.as_deref(), Some("localhost"));
    assert_eq!(normalized.port.map(|p| p.to_string()), Some("7135".to_string()));
    assert_eq!(normalized.path, "/path");
}

#[test]
fn test_normalize_uri_scheme_grpcs_to_https() {
    let u = uri("grpcs", Some("ydb.serverless.yandexcloud.net"), Some(2135), "/local");
    let normalized = normalize_uri_scheme(u).unwrap();

    assert_eq!(normalized.scheme, "https");
    assert_eq!(normalized.host.as_deref(), Some("ydb.serverless.yandexcloud.net"));
    assert_eq!(normalized.port.map(|p| p.to_string()), Some("2135".to_string()));
    assert_eq!(normalized.path, "/local");
}

#[test]
fn test_normalize_uri_scheme_unknown_passes_through() {
    let u = uri("ftp", Some("example.com"), Some(21), "/x");
    let normalized = normalize_uri_scheme(u).unwrap();

    assert_eq!(normalized.scheme, "ftp");
    assert_eq!(normalized.host.as_deref(), Some("example.com"));
    assert_eq!(normalized.port, Some(21));
    assert_eq!(normalized.path, "/x");
}

#[test]
fn test_connection_creates_new_connection() {
    with_runtime(|| {
        let mut pool = ConnectionPool::new();
        let u = uri("grpc", Some("localhost"), Some(7135), "/path");

        let channel = pool.connection(&u, 1).unwrap();
        let _ = channel;
        assert_eq!(pool.connection_count(), 1);
})
}

#[test]
fn test_connection_connection_reuse() {
    with_runtime(|| {
        let mut pool = ConnectionPool::new();
        let u = uri("grpcs", Some("localhost"), Some(2135), "/local");

        let first_channel = pool.connection(&u, 1).unwrap();
        let second_channel = pool.connection(&u, 2).unwrap();

        let _ = first_channel;
        let _ = second_channel;
        // The second call was a cache hit: still exactly one connection.
        assert_eq!(pool.connection_count(), 1);
})
}

#[test]
fn test_connection_without_host_fails() {
    with_runtime(|| {
        let mut pool = ConnectionPool::new();
        let u = uri("grpcs", None, None, "/path");

        let result = pool.connection(&u, 1);
        assert!(result.is_err());
        match result {
            Err(YdbError::Custom(m)) => {
                assert_eq!(m, "URI must have a host for TLS connections");
            }
            other => panic!("expected a configuration error, got {:?}", other),
        }
        // The failure happened before anything was cached.
        assert_eq!(pool.connection_count(), 0);
})
}

#[test]
fn test_connection_distinct_addresses_get_distinct_entries() {
    with_runtime(|| {
        let mut pool = ConnectionPool::new();
        let a = uri("grpc", Some("localhost"), Some(7135), "/path");
        let b = uri("grpc", Some("localhost"), Some(7136), "/path");

        pool.connection(&a, 1).unwrap();
        pool.connection(&b, 2).unwrap();
        assert_eq!(pool.connection_count(), 2);
})
}

#[test]
fn test_connect_lazy_without_host_fails_with_config_error() {
    with_runtime(|| {
        let r = connect_lazy(uri("grpcs", None, None, "/db"), &None);
        match r {
            Err(YdbError::Custom(m)) => assert_eq!(m, "URI must have a host for TLS connections"),
            other => panic!("expected a configuration error, got {:?}", other),
        }
})
}

#[test]
fn test_connect_lazy_plaintext_succeeds_without_network() {
    with_runtime(|| {
        // The channel is lazy: building it never touches the network.
        let r = connect_lazy(uri("grpc", Some("localhost"), Some(2136), "/db"), &None);
        assert!(r.is_ok());
})
}
