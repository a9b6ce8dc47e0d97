use tofuya::base::address::ParsedUrl;
use tofuya::base::config::{Config, StateHost, StateHostType};

fn host(name: &str, username: Option<&str>, token: Option<&str>) -> StateHost {
    StateHost {
        _type: StateHostType::Gitlab,
        host: name.to_string(),
        gitlab_username: username.map(|s| s.to_string()),
        gitlab_access_token: token.map(|s| s.to_string()),
    }
}

/// A user configuration with one GitLab host and its credentials.
fn sample_config() -> Config {
    Config { hosts: vec![host("gitlab.home.arpa", Some("foo"), Some("bar"))] }
}

#[test]
fn test_get_state_host() {
    let config = sample_config();
    let host = config.get_state_host(&ParsedUrl::parse("https://gitlab.home.arpa").unwrap());
    assert_eq!(true, host.is_some());
}

#[test]
fn test_get_state_host_missing() {
    let config = sample_config();
    let host = config.get_state_host(&ParsedUrl::parse("https://gitlab-404.home.arpa").unwrap());
    assert_eq!(true, host.is_none());
}

#[test]
fn get_state_host_returns_the_first_match() {
    let config = Config {
        hosts: vec![
            host("other.example", None, Some("x")),
            host("gitlab.home.arpa", Some("first"), None),
            host("gitlab.home.arpa", Some("second"), None),
        ],
    };
    let url = ParsedUrl::parse("https://gitlab.home.arpa/api/v4/projects/42").unwrap();
    let found = config.get_state_host(&url).unwrap();
    assert_eq!(found.gitlab_username, Some("first".to_string()));
    assert_eq!(found._type, StateHostType::Gitlab);
}

#[test]
fn get_state_host_ignores_ip_hosts_and_case() {
    let config = Config { hosts: vec![host("127.0.0.1", None, None), host("gitlab.home.arpa", None, None)] };
    assert!(config.get_state_host(&ParsedUrl::parse("http://127.0.0.1:8080/").unwrap()).is_none());
    // the parsed domain is lower-cased, so an upper-case URL still matches
    assert!(config.get_state_host(&ParsedUrl::parse("https://GITLAB.home.arpa/").unwrap()).is_some());
}

#[test]
fn default_config_has_no_hosts() {
    let config = Config::default();
    assert_eq!(config.hosts.len(), 0);
    assert!(config.get_state_host(&ParsedUrl::parse("https://gitlab.home.arpa").unwrap()).is_none());
}

#[test]
fn config_file_path_prefers_explicit_path() {
    assert_eq!(
        Config::config_file_path(Some("/home/u/.config".to_string()), Some("/etc/t.toml".to_string())),
        "/etc/t.toml"
    );
    assert_eq!(
        Config::config_file_path(Some("/home/u/.config".to_string()), None),
        "/home/u/.config/tofuya/config.toml"
    );
    assert_eq!(
        Config::config_file_path(Some("/home/u/.config/".to_string()), None),
        "/home/u/.config/tofuya/config.toml"
    );
    assert_eq!(Config::config_file_path(None, None), "");
}

#[test]
fn parsed_url_parts() {
    let url = ParsedUrl::parse("https://gitlab.home.arpa").unwrap();
    assert_eq!(url.as_str(), "https://gitlab.home.arpa/");
    assert_eq!(url.domain(), Some("gitlab.home.arpa".to_string()));
    let ip = ParsedUrl::parse("http://10.0.0.1/x").unwrap();
    assert_eq!(ip.domain(), None);
    assert!(ParsedUrl::parse("not a url").is_err());
    let bare = ParsedUrl::parse_without_path("https://gitlab.home.arpa/api/v4/projects/42").unwrap();
    assert_eq!(bare.as_str(), "https://gitlab.home.arpa/");
    let joined = ParsedUrl::parse_join("https://h.example/a/b/", "c").unwrap();
    assert_eq!(joined.as_str(), "https://h.example/a/b/c");
}
