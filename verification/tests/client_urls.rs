use eloquentlog::client::{lrange_path, Client, Method};
use eloquentlog::config::{Config, Credential, Server};
use reqwest::header::AUTHORIZATION;

fn client(url: &str, api_key: &str, secret: &str) -> Client {
    Client::new(Config {
        credential: Credential {
            api_key: api_key.to_string(),
            secret: secret.to_string(),
        },
        server: Server {
            url: url.to_string(),
        },
        ..Default::default()
    })
}

#[test]
fn test_build_params_with_config_contains_empty_credential() {
    let config = Config {
        ..Default::default()
    };
    let client = Client::new(config);
    let result = client.build_params();

    assert_eq!(result, "");
}

#[test]
fn build_params_with_api_key() {
    let result = client("https://x.test", "k-1", "").build_params();
    assert_eq!(result, "api_key=k-1");
}

#[test]
fn build_params_does_not_escape_the_key() {
    let result = client("https://x.test", "a b&c=d/é", "").build_params();
    assert_eq!(result, "api_key=a b&c=d/é");
}

#[test]
fn build_url_with_resource_only() {
    let url = client("https://x.test", "", "").build_url("message", "");
    assert_eq!(url, "https://x.test/_api/message");
}

#[test]
fn build_url_with_path_suffix() {
    let url = client("https://x.test", "", "").build_url("message", "lrange/a/0/9");
    assert_eq!(url, "https://x.test/_api/message/lrange/a/0/9");
}

#[test]
fn build_url_with_query() {
    let url = client("https://x.test", "key", "").build_url("message", "");
    assert_eq!(url, "https://x.test/_api/message?api_key=key");
}

#[test]
fn build_url_with_path_suffix_and_query() {
    let url = client("http://127.0.0.1:1234", "key", "").build_url("message", "lrange/a/0/9");
    assert_eq!(
        url,
        "http://127.0.0.1:1234/_api/message/lrange/a/0/9?api_key=key"
    );
}

#[test]
fn build_url_takes_the_base_as_configured() {
    let url = client("https://eloquentlog.com/", "", "").build_url("message", "");
    assert_eq!(url, "https://eloquentlog.com//_api/message");
}

#[test]
fn lrange_path_of_numbers() {
    assert_eq!(lrange_path("test", 0, 9), "lrange/test/0/9");
    assert_eq!(lrange_path("dummy", 10, 120), "lrange/dummy/10/120");
    assert_eq!(
        lrange_path("", 18446744073709551615, 1000),
        "lrange//18446744073709551615/1000"
    );
}

#[test]
fn lrange_request_is_a_get_with_headers() {
    let request = client("http://127.0.0.1:1234", "", "secret").lrange_request(
        "test".to_string(),
        0,
        9,
    );
    assert_eq!(request.method, Method::Get);
    assert_eq!(request.url, "http://127.0.0.1:1234/_api/message/lrange/test/0/9");
    assert_eq!(request.headers.len(), 4);
    assert_eq!(
        request.headers.get(AUTHORIZATION).unwrap().as_bytes(),
        b"Token secret"
    );
}

#[test]
fn lrange_request_without_credential() {
    let request = client("https://x.test", "", "").lrange_request("dummy".to_string(), 0, 9);
    assert_eq!(request.url, "https://x.test/_api/message/lrange/dummy/0/9");
    assert_eq!(request.headers.len(), 3);
    assert!(!request.headers.contains_key(AUTHORIZATION));
}
