//! Configuration resolution precedence and the client facade's lazy,
//! cached resource-API construction.

use grafana_lib::client::Client;
use grafana_lib::common::api::Api;
use grafana_lib::common::config::Config;
use grafana_lib::common::error::GrafanaError;

fn env(pairs: &[(&str, &str)]) -> Vec<(String, String)> {
    pairs.iter().map(|(k, v)| (k.to_string(), v.to_string())).collect()
}

#[test]
fn config_explicit_beats_environment() {
    let config = Config::new("explicit-host".to_string())
        .with_token("explicit-token".to_string())
        .with_env(env(&[("GRAFANA_HOST", "env-host"), ("GRAFANA_TOKEN", "env-token")]));
    assert_eq!(config.get("GRAFANA_HOST"), Some(String::from("explicit-host")));
    assert_eq!(config.get("GRAFANA_TOKEN"), Some(String::from("explicit-token")));
}

#[test]
fn config_environment_when_no_explicit_value() {
    let config = Config::new("host".to_string()).with_env(env(&[
        ("GRAFANA_TOKEN", "env-token"),
        ("OTHER", "other-value"),
    ]));
    assert_eq!(config.get("GRAFANA_TOKEN"), Some(String::from("env-token")));
    assert_eq!(config.get("OTHER"), Some(String::from("other-value")));
    assert_eq!(config.get_env("OTHER"), Some(String::from("other-value")));
    assert_eq!(config.get_env("GRAFANA_HOST"), None);
}

#[test]
fn config_default_when_nothing_set() {
    let config = Config::new("host".to_string());
    assert_eq!(config.get("VERSION"), Some(String::from("grafana_lib/0.1.0")));
    assert_eq!(config.get("NO_SUCH_ITEM"), None);
}

#[test]
fn config_url_has_scheme() {
    let config = Config::new("play.grafana.com".to_string());
    assert_eq!(config.url(), String::from("https://play.grafana.com"));
}

#[test]
fn client_resolves_token_from_environment() {
    let client = Client::new(
        "http://localhost:3000".to_string(),
        env(&[("GRAFANA_TOKEN", "tok-123")]),
    );
    assert_eq!(client.api.token(), &String::from("tok-123"));
    assert_eq!(client.api.host, String::from("http://localhost:3000/api"));
    assert_eq!(client.config.get("GRAFANA_TOKEN"), Some(String::from("tok-123")));
}

#[test]
fn client_token_placeholder_without_environment() {
    let client = Client::new("http://localhost:3000".to_string(), Vec::new());
    assert_eq!(client.api.token(), &String::from("DUMMYTOKEN"));
}

#[test]
fn client_accessors_cache_their_instance() {
    let mut client = Client::new("http://localhost:3000".to_string(), Vec::new());
    let d1 = client.dashboard();
    let d2 = client.dashboard();
    assert_eq!(d1, d2);

    let a1 = client.annotations();
    let a2 = client.annotations();
    assert_eq!(a1, a2);

    let s1 = client.search();
    let s2 = client.search();
    assert_eq!(s1, s2);

    let ds1 = client.data_source();
    let ds2 = client.data_source();
    assert_eq!(ds1, ds2);

    let o1 = client.organization();
    let o2 = client.organization();
    assert_eq!(o1, o2);

    let f1 = client.folder();
    let f2 = client.folder();
    assert_eq!(f1, f2);
}

#[test]
fn client_connect_is_ok() {
    assert!(Client::connect().is_ok());
}

#[test]
fn api_url_composition() {
    let api = Api::new("http://localhost:3000".to_string(), "TOKEN".to_string());
    assert_eq!(api.host, String::from("http://localhost:3000/api"));
    assert_eq!(api.url_for("search?type=dash-db"), String::from("http://localhost:3000/api/search?type=dash-db"));
}

#[test]
fn grafana_error_text() {
    let err = GrafanaError::new(String::from("A Message"), String::from("A Status"));
    assert_eq!(err.message(), &String::from("A Message"));
    assert_eq!(err.status(), &String::from("A Status"));
    assert_eq!(err.text(), String::from("A Status : A Message"));
}
