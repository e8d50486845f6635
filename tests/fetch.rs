use item_fetch::{finish_fetch, Exchange, FetchConfig, FetchError, ItemDetail};

#[test]
fn transport_failure_is_request_error() {
    assert_eq!(finish_fetch(&Exchange::TransportFailed), Err(FetchError::RequestError));
}

#[test]
fn received_body_is_decoded() {
    let body = br#"{"data_field":"x","correct_field_name":"y","extra":123}"#.to_vec();
    let expected = ItemDetail { data_field: "x".to_string(), correct_field_name: "y".to_string() };
    assert_eq!(finish_fetch(&Exchange::Body(body)), Ok(expected));
}

#[test]
fn received_bad_body_is_decode_error() {
    assert_eq!(finish_fetch(&Exchange::Body(Vec::new())), Err(FetchError::DecodeError));
    assert_eq!(finish_fetch(&Exchange::Body(br#"{"data_field":"x"}"#.to_vec())), Err(FetchError::DecodeError));
}

#[test]
fn no_server_listening_is_request_error() {
    let config = FetchConfig::new("127.0.0.1".to_string(), 1, "/items/1".to_string());
    let exchange = match reqwest::blocking::get(config.url()) {
        Ok(response) => match response.bytes() {
            Ok(bytes) => Exchange::Body(bytes.to_vec()),
            Err(_) => Exchange::TransportFailed,
        },
        Err(_) => Exchange::TransportFailed,
    };
    assert_eq!(finish_fetch(&exchange), Err(FetchError::RequestError));
}

#[test]
fn default_url_is_the_local_item() {
    assert_eq!(FetchConfig::default().url(), "http://localhost:3000/items/1");
}

#[test]
fn url_writes_every_port_in_decimal() {
    let at = |port: u16| FetchConfig::new("h".to_string(), port, "/p".to_string()).url();
    assert_eq!(at(0), "http://h:0/p");
    assert_eq!(at(9), "http://h:9/p");
    assert_eq!(at(10), "http://h:10/p");
    assert_eq!(at(8080), "http://h:8080/p");
    assert_eq!(at(65535), "http://h:65535/p");
}

#[test]
fn url_keeps_host_and_path() {
    let config = FetchConfig::new("example.org".to_string(), 443, "/items/42?x=1".to_string());
    assert_eq!(config.url(), "http://example.org:443/items/42?x=1");
}
