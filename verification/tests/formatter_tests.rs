use registry_resolver::error::RegistryError;
use registry_resolver::formatter::{SimpleGrpcFormatter, SimpleWebSocketFormatter};

fn s(text: &str) -> String {
    text.to_string()
}

#[test]
fn websocket_from_plain_rpc_address() {
    assert_eq!(
        SimpleWebSocketFormatter::parse_or_build_address("http://localhost:26657"),
        Ok(s("ws://localhost:26657/websocket"))
    );
}

#[test]
fn websocket_from_secure_rpc_address() {
    assert_eq!(
        SimpleWebSocketFormatter::parse_or_build_address("https://rpc.cosmos.network:443"),
        Ok(s("wss://rpc.cosmos.network/websocket"))
    );
}

#[test]
fn websocket_drops_path_of_rpc_address() {
    assert_eq!(
        SimpleWebSocketFormatter::parse_or_build_address("https://rpc.example.com:8443/some/path?x=1"),
        Ok(s("wss://rpc.example.com:8443/websocket"))
    );
}

#[test]
fn websocket_without_scheme_is_insecure() {
    assert_eq!(
        SimpleWebSocketFormatter::parse_or_build_address("localhost:26657"),
        Ok(s("ws://localhost:26657/websocket"))
    );
}

#[test]
fn websocket_address_is_kept() {
    assert_eq!(
        SimpleWebSocketFormatter::parse_or_build_address("ws://localhost:26657/websocket"),
        Ok(s("ws://localhost:26657/websocket"))
    );
    assert_eq!(
        SimpleWebSocketFormatter::parse_or_build_address("wss://rpc.example.com/websocket"),
        Ok(s("wss://rpc.example.com/websocket"))
    );
}

#[test]
fn websocket_formatting_is_idempotent() {
    for raw in ["http://localhost:26657", "https://rpc.cosmos.network:443", "node.example.org:1234"] {
        let once = SimpleWebSocketFormatter::parse_or_build_address(raw).unwrap();
        let twice = SimpleWebSocketFormatter::parse_or_build_address(&once).unwrap();
        assert_eq!(once, twice);
    }
}

#[test]
fn websocket_rejects_text_that_is_no_uri() {
    assert_eq!(
        SimpleWebSocketFormatter::parse_or_build_address("not a uri"),
        Err(RegistryError::UriParse { address: s("not a uri") })
    );
    assert_eq!(
        SimpleWebSocketFormatter::parse_or_build_address(""),
        Err(RegistryError::UriParse { address: s("") })
    );
}

#[test]
fn websocket_rejects_address_without_host() {
    assert_eq!(
        SimpleWebSocketFormatter::parse_or_build_address("/just/a/path"),
        Err(RegistryError::RpcUrlWithoutAuthority { address: s("/just/a/path") })
    );
}

#[test]
fn grpc_without_scheme_becomes_https() {
    assert_eq!(
        SimpleGrpcFormatter::parse_or_build_address("grpc.example.com:9090"),
        Ok(s("https://grpc.example.com:9090/"))
    );
}

#[test]
fn grpc_trailing_slashes_are_dropped() {
    assert_eq!(
        SimpleGrpcFormatter::parse_or_build_address("grpc.example.com:9090///"),
        Ok(s("https://grpc.example.com:9090/"))
    );
}

#[test]
fn grpc_with_scheme_is_kept() {
    assert_eq!(
        SimpleGrpcFormatter::parse_or_build_address("http://grpc.example.com:9090/"),
        Ok(s("http://grpc.example.com:9090/"))
    );
    assert_eq!(
        SimpleGrpcFormatter::parse_or_build_address("https://grpc.example.com/v1"),
        Ok(s("https://grpc.example.com/v1"))
    );
}

#[test]
fn grpc_rejects_text_that_is_no_uri() {
    assert_eq!(
        SimpleGrpcFormatter::parse_or_build_address("bad uri/"),
        Err(RegistryError::UriParse { address: s("bad uri") })
    );
}

#[test]
fn grpc_rejects_path_as_authority() {
    assert_eq!(
        SimpleGrpcFormatter::parse_or_build_address("/relative/path"),
        Err(RegistryError::GrpcEndpointParse { address: s("/relative/path") })
    );
}
