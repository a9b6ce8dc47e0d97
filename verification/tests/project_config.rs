use tofuya::domain::tofu::ports::{PluginGetStatesError, ProjectConfigError};
use tofuya::outbound::project_config::{ListAction, ListEvent};
use tofuya::base::config::{Config as BaseConfig, StateHost, StateHostType};
use tofuya::domain::tofu::models::{StateTarget, StateType};
use tofuya::domain::tofu::ports::ProjectGetTargetError;
use tofuya::outbound::project_config::{Config, Lookup, PluginRequest, ProjectConfig, StateGroup, StatesSource};

const PLUGIN: &str = "ghcr.io/tmuntaner/tofuya/plugin-gitlab-states:0.1.0";

fn host(name: &str, username: &str, token: &str) -> StateHost {
    StateHost {
        _type: StateHostType::Gitlab,
        host: name.to_string(),
        gitlab_username: Some(username.to_string()),
        gitlab_access_token: Some(token.to_string()),
    }
}

fn base_config() -> BaseConfig {
    BaseConfig {
        hosts: vec![
            host("gitlab.home.arpa", "foo", "bar"),
            host("gitlab-foo.home.arpa", "foo", "bar"),
            host("gitlab-bar.home.arpa", "foo", "foobar"),
        ],
    }
}

fn group(name: &str, base: &str, states: Option<Vec<&str>>, plugin: Option<&str>, plugin_config: Option<&str>) -> StateGroup {
    StateGroup {
        name: name.to_string(),
        base_address: base.to_string(),
        states: states.map(|v| v.into_iter().map(|s| s.to_string()).collect()),
        ext_wasm_file: plugin.map(|s| s.to_string()),
        wasm_config: plugin_config.map(|s| s.to_string()),
        state_type: StateType::OpenTofu,
        dir: Some("./infra".to_string()),
    }
}

/// A project configuration of three groups: one that lists its states and
/// two whose states come from a plugin.
fn project_config(base: BaseConfig) -> ProjectConfig {
    ProjectConfig {
        config: Config {
            state_groups: vec![
                group(
                    "tofuya-main",
                    "https://gitlab.home.arpa/api/v4/projects/42/terraform/state/",
                    Some(vec!["foo", "bar", "https://"]),
                    None,
                    None,
                ),
                group(
                    "tofuya-foo",
                    "https://gitlab-foo.home.arpa/api/v4/projects/42/terraform/state/",
                    None,
                    Some(PLUGIN),
                    Some(r#"{"gitlab_project":"foo/bar","regex_selector":"test.*-foo"}"#),
                ),
                group(
                    "tofuya-bar",
                    "https://gitlab-bar.home.arpa/api/v4/projects/42/terraform/state/",
                    None,
                    Some(PLUGIN),
                    None,
                ),
            ],
        },
        base_config: base,
    }
}

fn answered<T, E>(lookup: Lookup<T, E>) -> Result<T, E> {
    match lookup {
        Lookup::Answered(r) => r,
        Lookup::NeedsPlugin(req) => panic!("unexpected plugin call {:?}", req.wasm_path),
    }
}

fn plugin_call<T, E>(lookup: Lookup<T, E>) -> PluginRequest {
    match lookup {
        Lookup::NeedsPlugin(req) => req,
        Lookup::Answered(_) => panic!("expected a plugin call"),
    }
}

fn config_value<'a>(req: &'a PluginRequest, key: &str) -> Option<&'a str> {
    req.config.iter().find(|(k, _)| k == key).map(|(_, v)| v.as_str())
}

fn target_of(r: Result<Option<StateTarget>, ProjectGetTargetError>) -> StateTarget {
    r.unwrap().unwrap()
}

#[test]
fn test_config_get_target_plugin() {
    let config = project_config(base_config());
    let req = plugin_call(config.get_target(&"tofuya-foo".to_string(), &"bar".to_string()));
    assert_eq!(req.wasm_path, PLUGIN);
    assert_eq!(config_value(&req, "STATE_HOST"), Some("https://gitlab-foo.home.arpa/"));
    assert_eq!(config_value(&req, "GITLAB_ACCESS_TOKEN"), Some("bar"));
    let actual: serde_json::Value =
        serde_json::from_str(config_value(&req, "TOFUYA_PLUGIN_CONFIG").unwrap()).unwrap();
    let expected: serde_json::Value =
        serde_json::from_str(r#"{"gitlab_project": "foo/bar", "regex_selector": "test.*-foo"}"#).unwrap();
    assert_eq!(actual, expected);

    // the plugin lists the states ["bar"]
    let states = vec!["bar".to_string()];
    let target = target_of(config.get_target_with_states(&"tofuya-foo".to_string(), &"bar".to_string(), &states));
    assert_eq!(target.url.as_str(), "https://gitlab-foo.home.arpa/api/v4/projects/42/terraform/state/bar");
    assert_eq!(StateType::OpenTofu, target.state_type);
}

#[test]
fn test_config_get_target_plugin_no_config() {
    let config = project_config(base_config());
    let req = plugin_call(config.get_target(&"tofuya-bar".to_string(), &"foobar".to_string()));
    assert_eq!(req.wasm_path, PLUGIN);
    assert_eq!(config_value(&req, "STATE_HOST"), Some("https://gitlab-bar.home.arpa/"));
    assert_eq!(config_value(&req, "GITLAB_ACCESS_TOKEN"), Some("foobar"));
    assert_eq!(config_value(&req, "TOFUYA_PLUGIN_CONFIG"), None);

    let states = vec!["foobar".to_string()];
    let target =
        target_of(config.get_target_with_states(&"tofuya-bar".to_string(), &"foobar".to_string(), &states));
    assert_eq!(target.url.as_str(), "https://gitlab-bar.home.arpa/api/v4/projects/42/terraform/state/foobar");
    assert_eq!(StateType::OpenTofu, target.state_type);
}

#[test]
fn test_config_get_target() {
    let config = project_config(BaseConfig::default());
    let target = target_of(answered(config.get_target(&"tofuya-main".to_string(), &"bar".to_string())));
    assert_eq!(target.url.as_str(), "https://gitlab.home.arpa/api/v4/projects/42/terraform/state/bar");
    assert_eq!(StateType::OpenTofu, target.state_type);
    assert_eq!(target.dir, "./infra");
}

#[test]
fn test_config_get_target_malformed_state_name() {
    let config = project_config(BaseConfig::default());
    let target = answered(config.get_target(&"tofuya-main".to_string(), &"https://".to_string()));
    assert_eq!(true, target.is_err());
    assert!(matches!(target, Err(ProjectGetTargetError::ParseError(_))));
}

#[test]
fn test_config_get_target_malformed_host() {
    let config = ProjectConfig {
        config: Config {
            state_groups: vec![StateGroup {
                name: "tofuya-main".to_string(),
                base_address: "https://".to_string(),
                states: Some(vec!["foo".to_string()]),
                ext_wasm_file: None,
                wasm_config: None,
                state_type: StateType::OpenTofu,
                dir: None,
            }],
        },
        base_config: BaseConfig::default(),
    };
    let target = answered(config.get_target(&"tofuya-main".to_string(), &"foo".to_string()));
    assert_eq!(true, target.is_err());
}

#[test]
fn test_config_get_target_not_found() {
    let config = ProjectConfig { config: Config { state_groups: vec![] }, base_config: BaseConfig::default() };
    assert_eq!(0, config.config.state_groups.len());
    let target = answered(config.get_target(&"tofuya-main".to_string(), &"foo".to_string())).unwrap();
    assert_eq!(true, target.is_none());
}

#[test]
fn test_config_get_target_no_state() {
    let config = project_config(BaseConfig::default());
    assert_eq!(3, config.config.state_groups.len());
    let target = answered(config.get_target(&"tofuya-main".to_string(), &"foobar".to_string())).unwrap();
    assert_eq!(true, target.is_none());
}

#[test]
fn get_target_without_directory_is_refused() {
    let mut config = project_config(BaseConfig::default());
    config.config.state_groups[0].dir = None;
    let target = answered(config.get_target(&"tofuya-main".to_string(), &"bar".to_string()));
    assert!(matches!(target, Err(ProjectGetTargetError::InvalidDirectory)));
}

#[test]
fn plugin_group_on_unknown_host_is_refused() {
    let config = project_config(BaseConfig::default());
    let target = answered(config.get_target(&"tofuya-foo".to_string(), &"bar".to_string()));
    assert!(matches!(
        target,
        Err(ProjectGetTargetError::ProjectErrorError(tofuya::domain::tofu::ports::ProjectConfigError::HostNotFound))
    ));
}

#[test]
fn states_source_lists_or_calls_plugin() {
    let config = project_config(base_config());
    match config.states_source(&config.config.state_groups[0]).unwrap() {
        StatesSource::Listed(v) => assert_eq!(v, vec!["foo", "bar", "https://"]),
        StatesSource::Plugin(_) => panic!("expected listed states"),
    }
    match config.states_source(&config.config.state_groups[2]).unwrap() {
        StatesSource::Plugin(req) => {
            assert_eq!(req.config.len(), 2);
            assert_eq!(req.config[0].0, "STATE_HOST");
        }
        StatesSource::Listed(_) => panic!("expected a plugin call"),
    }
}

#[test]
fn target_address_leads_back_to_state() {
    let config = project_config(BaseConfig::default());
    let target = target_of(answered(config.get_target(&"tofuya-main".to_string(), &"bar".to_string())));
    let state = answered(config.state_from_address(&"tofuya-main".to_string(), &target.url.as_str().to_string()));
    assert_eq!(state.unwrap(), Some("bar".to_string()));
}

#[test]
fn state_from_unknown_address_is_none() {
    let config = project_config(BaseConfig::default());
    let state = answered(config.state_from_address(&"tofuya-main".to_string(), &"https://elsewhere/".to_string()));
    assert_eq!(state.unwrap(), None);
    let states = vec!["x".to_string(), "y".to_string()];
    let found = config.state_from_address_with_states(
        &"tofuya-bar".to_string(),
        &"https://gitlab-bar.home.arpa/api/v4/projects/42/terraform/state/y".to_string(),
        &states,
    );
    assert_eq!(found, Some("y".to_string()));
    let unknown = config.state_from_address_with_states(&"nope".to_string(), &"https://x/".to_string(), &states);
    assert_eq!(unknown, None);
}

#[test]
fn group_listing_uses_directory_or_cwd() {
    let mut config = project_config(BaseConfig::default());
    let states = vec!["a".to_string(), "b".to_string()];
    let listed = config.config.state_groups[0].listing(&"/cwd".to_string(), &states);
    assert_eq!(listed.name, "tofuya-main");
    assert_eq!(listed.dir, "./infra");
    assert_eq!(listed.states.iter().map(|s| s.name.clone()).collect::<Vec<_>>(), vec!["a", "b"]);
    config.config.state_groups[0].dir = None;
    let listed = config.config.state_groups[0].listing(&"/cwd".to_string(), &states);
    assert_eq!(listed.dir, "/cwd");
}

#[test]
fn find_group_takes_the_first() {
    let mut config = project_config(BaseConfig::default());
    config.config.state_groups[2].name = "tofuya-main".to_string();
    assert_eq!(config.find_group(&"tofuya-main".to_string()), Some(0));
    assert_eq!(config.find_group(&"tofuya-foo".to_string()), Some(1));
    assert_eq!(config.find_group(&"nope".to_string()), None);
}

#[test]
fn plugin_group_with_malformed_base_address_is_refused() {
    let mut config = project_config(base_config());
    config.config.state_groups[1].base_address = "not a url".to_string();
    let target = answered(config.get_target(&"tofuya-foo".to_string(), &"bar".to_string()));
    assert!(matches!(
        target,
        Err(ProjectGetTargetError::ProjectErrorError(tofuya::domain::tofu::ports::ProjectConfigError::ParseError(_)))
    ));
    let state = answered(config.state_from_address(&"tofuya-foo".to_string(), &"https://x/".to_string()));
    assert!(matches!(
        state,
        Err(tofuya::domain::tofu::ports::ProjectGetStateFromAddressError::ProjectErrorError(
            tofuya::domain::tofu::ports::ProjectConfigError::ParseError(_)
        ))
    ));
}

#[test]
fn address_errors_carry_the_url_error() {
    let config = project_config(BaseConfig::default());
    let base = "https://gitlab.home.arpa/api/v4/projects/42/terraform/state/";
    let expected = url::Url::parse(base).unwrap().join("https://").unwrap_err();
    let target = answered(config.get_target(&"tofuya-main".to_string(), &"https://".to_string()));
    match target {
        Err(ProjectGetTargetError::ParseError(tofuya::domain::tofu::ports::StateAddressError::ParseError(e))) => {
            assert_eq!(e, expected);
            assert_eq!(e, url::ParseError::EmptyHost);
        }
        other => panic!("unexpected {:?}", other),
    }

    let mut config = project_config(base_config());
    config.config.state_groups[1].base_address = "not a url".to_string();
    let expected = url::Url::parse("not a url").unwrap_err();
    let target = answered(config.get_target(&"tofuya-foo".to_string(), &"bar".to_string()));
    match target {
        Err(ProjectGetTargetError::ProjectErrorError(tofuya::domain::tofu::ports::ProjectConfigError::ParseError(e))) => {
            assert_eq!(e, expected);
            assert_eq!(e, url::ParseError::RelativeUrlWithoutBase);
        }
        other => panic!("unexpected {:?}", other),
    }
}

#[test]
fn listing_asks_plugins_in_order_and_stops_at_a_failure() {
    let config = project_config(base_config());
    let cwd = "/cwd".to_string();

    let progress = match config.list_step(&cwd, ListEvent::Begin) {
        ListAction::AskPlugin(progress, request) => {
            assert_eq!(request.wasm_path, PLUGIN);
            assert_eq!(progress.next, 1);
            assert_eq!(progress.groups.len(), 1);
            assert_eq!(progress.groups[0].name, "tofuya-main");
            assert_eq!(progress.groups[0].dir, "./infra");
            let names: Vec<&str> = progress.groups[0].states.iter().map(|s| s.name.as_str()).collect();
            assert_eq!(names, vec!["foo", "bar", "https://"]);
            progress
        }
        other => panic!("unexpected {:?}", other),
    };
    let progress = match config.list_step(&cwd, ListEvent::Answered(progress, Ok(vec!["a".to_string()]))) {
        ListAction::AskPlugin(progress, request) => {
            assert_eq!(progress.next, 2);
            assert_eq!(progress.groups.len(), 2);
            assert_eq!(progress.groups[1].name, "tofuya-foo");
            assert_eq!(progress.groups[1].states.len(), 1);
            assert_eq!(request.config[0].1, "https://gitlab-bar.home.arpa/");
            progress
        }
        other => panic!("unexpected {:?}", other),
    };
    match config.list_step(&cwd, ListEvent::Answered(progress, Ok(vec!["b".to_string(), "c".to_string()]))) {
        ListAction::Finished(Ok(groups)) => {
            assert_eq!(groups.len(), 3);
            assert_eq!(groups[2].name, "tofuya-bar");
            assert_eq!(groups[2].states[1].name, "c");
        }
        other => panic!("unexpected {:?}", other),
    }

    let progress = match config.list_step(&cwd, ListEvent::Begin) {
        ListAction::AskPlugin(progress, _) => progress,
        other => panic!("unexpected {:?}", other),
    };
    match config.list_step(&cwd, ListEvent::Answered(progress, Err(PluginGetStatesError::PluginProxyError))) {
        ListAction::Finished(Err(ProjectConfigError::PluginError(PluginGetStatesError::PluginProxyError))) => {}
        other => panic!("unexpected {:?}", other),
    }

    let no_hosts = project_config(BaseConfig::default());
    match no_hosts.list_step(&cwd, ListEvent::Begin) {
        ListAction::Finished(Err(ProjectConfigError::HostNotFound)) => {}
        other => panic!("unexpected {:?}", other),
    }
}
