use tofuya::domain::tofu::models::{Group, GroupState, GroupStatus, StateType};
use tofuya::inbound::cli::{embed_component, list_rows, status_rows, CliError};
use tofuya::outbound::cli::CLI;
use tofuya::outbound::tofu_cli::{CleanParams, TofuCli};

#[test]
fn binary_names() {
    assert_eq!(StateType::OpenTofu.binary_name(), "tofu");
    assert_eq!(StateType::Terraform.binary_name(), "terraform");
    assert_eq!(StateType::default(), StateType::OpenTofu);
}

#[test]
fn list_rows_flatten_groups() {
    let groups = vec![
        Group {
            name: "a".into(),
            states: vec![GroupState { name: "x".into() }, GroupState { name: "y".into() }],
            dir: "/a".into(),
        },
        Group { name: "b".into(), states: vec![], dir: "/b".into() },
        Group { name: "c".into(), states: vec![GroupState { name: "z".into() }], dir: "/c".into() },
    ];
    let rows = list_rows(&groups);
    assert_eq!(rows, vec![vec!["a", "x"], vec!["a", "y"], vec!["c", "z"]]);
}

#[test]
fn status_rows_mark_unknowns() {
    let statuses = vec![
        GroupStatus { name: "a".into(), state: None, address: None },
        GroupStatus { name: "b".into(), state: None, address: Some("https://h/s".into()) },
        GroupStatus { name: "c".into(), state: Some("dev".into()), address: Some("https://h/dev".into()) },
    ];
    let rows = status_rows(&statuses);
    let view: Vec<Vec<(String, bool)>> =
        rows.iter().map(|r| r.iter().map(|c| (c.text.clone(), c.highlighted)).collect()).collect();
    assert_eq!(
        view,
        vec![
            vec![("a".into(), false), ("Uninitialized".into(), true), ("Uninitialized".into(), true)],
            vec![("b".into(), false), ("Unknown".into(), true), ("https://h/s".into(), false)],
            vec![("c".into(), false), ("dev".into(), false), ("https://h/dev".into(), false)],
        ]
    );
}

#[test]
fn clean_commands_of_both_runners() {
    let c = TofuCli::new().clean(CleanParams { tf_root: "/w".into() });
    assert_eq!((c.program.as_str(), c.dir.as_str()), ("rm", "/w"));
    assert_eq!(c.args, vec!["-rf", ".terraform"]);
    let c = CLI::new().clean(CleanParams { tf_root: "/v".into() });
    assert_eq!(c.dir, "/v");
    assert_eq!(c.args, vec!["-rf", ".terraform"]);
}

#[test]
fn embed_refuses_bad_interface() {
    let r = embed_component(b"not wasm".to_vec(), b"not wit either", b"");
    assert!(matches!(r, Err(CliError::AnyhowError(_))));
}
