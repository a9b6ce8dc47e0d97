use std::collections::HashMap;
use tofuya::outbound::downloader::{
    ArtifactSource, DockerCredential, Downloader, OciReference, PullAction, PullEvent, PullState,
    RegistryAuth,
};

#[test]
fn test_artifact_source_local() {
    let result = ArtifactSource::parse("/home/user/artifact".to_string()).unwrap();
    assert_eq!(result, ArtifactSource::Local("/home/user/artifact".to_string()));

    let result = ArtifactSource::parse("./artifact".to_string()).unwrap();
    assert_eq!(result, ArtifactSource::Local("./artifact".to_string()));

    let result = ArtifactSource::parse("file:///tmp/artifact".to_string()).unwrap();
    assert_eq!(result, ArtifactSource::Local("/tmp/artifact".to_string()));

    let result = ArtifactSource::parse("../artifact".to_string()).unwrap();
    assert_eq!(result, ArtifactSource::Local("../artifact".to_string()));
}

#[test]
fn test_artifact_source_oci() {
    let result = ArtifactSource::parse("foo:latest".to_string()).unwrap();
    let reference = OciReference::parse("foo:latest").unwrap();
    assert_eq!(result, ArtifactSource::OCI(reference));

    let result =
        ArtifactSource::parse("ghcr.io/tmuntaner/tofuya/plugin-gitlab-states:0.1.0".to_string()).unwrap();
    let reference = OciReference::parse("ghcr.io/tmuntaner/tofuya/plugin-gitlab-states:0.1.0").unwrap();
    assert_eq!(result, ArtifactSource::OCI(reference));
}

#[test]
fn oci_reference_parts() {
    let r = OciReference::parse("ghcr.io/tmuntaner/tofuya/plugin-gitlab-states:0.1.0").unwrap();
    assert_eq!(r.registry, "ghcr.io");
    assert_eq!(r.repository, "tmuntaner/tofuya/plugin-gitlab-states");
    assert_eq!(r.tag, Some("0.1.0".to_string()));
    assert_eq!(r.resolve_registry(), "ghcr.io");
    let hub = OciReference::parse("foo:latest").unwrap();
    assert_eq!(hub.registry, "docker.io");
    assert_eq!(hub.resolve_registry(), "index.docker.io");
    assert!(OciReference::parse("").is_none());
}

#[test]
fn registry_server_and_auth() {
    let d = Downloader::new("/store".to_string());
    let r = OciReference::parse("ghcr.io/tmuntaner/tofuya/plugin-gitlab-states:0.1.0").unwrap();
    assert_eq!(d.registry_server(&r), "ghcr.io");
    let hub = OciReference::parse("foo:latest").unwrap();
    assert_eq!(d.registry_server(&hub), "index.docker.io");

    let basic = d.build_auth(Some(DockerCredential::UsernamePassword("u".into(), "p".into())));
    assert_eq!(basic, RegistryAuth::Basic("u".into(), "p".into()));
    assert_eq!(d.build_auth(Some(DockerCredential::IdentityToken("t".into()))), RegistryAuth::Anonymous);
    assert_eq!(d.build_auth(None), RegistryAuth::Anonymous);
}

#[test]
fn hash_to_path_appends_wasm() {
    let d = Downloader::new("/store".to_string());
    assert_eq!(d.hash_to_path(&"abc".to_string()), "/store/abc.wasm");
    let d = Downloader::new("/store/".to_string());
    assert_eq!(d.hash_to_path(&"abc".to_string()), "/store/abc.wasm");
}

#[test]
fn pull_of_local_path_returns_it() {
    let d = Downloader::new("/store".to_string());
    let (state, action) = d.pull_step(PullState::Start, PullEvent::Requested("file:///tmp/p.wasm".into()));
    assert!(matches!(state, PullState::Finished));
    match action {
        PullAction::Return(p) => assert_eq!(p, "/tmp/p.wasm"),
        other => panic!("unexpected action {:?}", other),
    }
}

#[test]
fn pull_reuses_cached_artifact() {
    let d = Downloader::new("/store".to_string());
    let path = "ghcr.io/tmuntaner/tofuya/plugin-gitlab-states:0.1.0".to_string();
    let (state, action) = d.pull_step(PullState::Start, PullEvent::Requested(path.clone()));
    match action {
        PullAction::RetrieveHash(k) => assert_eq!(k, path),
        other => panic!("unexpected action {:?}", other),
    }
    let (state, action) = d.pull_step(state, PullEvent::HashRetrieved(Some("beef".into())));
    match action {
        PullAction::ProbeFile(p) => assert_eq!(p, "/store/beef.wasm"),
        other => panic!("unexpected action {:?}", other),
    }
    let (state, action) = d.pull_step(state, PullEvent::Probed(true));
    assert!(matches!(state, PullState::Finished));
    match action {
        PullAction::Return(p) => assert_eq!(p, "/store/beef.wasm"),
        other => panic!("unexpected action {:?}", other),
    }
}

#[test]
fn pull_downloads_and_stores_by_content_hash() {
    let d = Downloader::new("/store".to_string());
    let path = "ghcr.io/tmuntaner/tofuya/plugin-gitlab-states:0.1.0".to_string();
    let (state, _) = d.pull_step(PullState::Start, PullEvent::Requested(path.clone()));
    let (state, action) = d.pull_step(state, PullEvent::HashRetrieved(Some("beef".into())));
    assert!(matches!(action, PullAction::ProbeFile(_)));
    let (state, action) = d.pull_step(state, PullEvent::Probed(false));
    assert!(matches!(action, PullAction::Download(_)));
    let (state, action) = d.pull_step(state, PullEvent::Downloaded(b"abc".to_vec()));
    // SHA-256 of "abc"
    let hash = "ba7816bf8f01cfea414140de5dae2223b00361a396177a9cb410ff61f20015ad";
    let expected = format!("/store/{}.wasm", hash);
    match action {
        PullAction::Store { key, file_path, content, hash: h } => {
            assert_eq!(key, path);
            assert_eq!(file_path, expected);
            assert_eq!(content, b"abc".to_vec());
            assert_eq!(h, hash);
        }
        other => panic!("unexpected action {:?}", other),
    }
    let (state, action) = d.pull_step(state, PullEvent::Stored);
    assert!(matches!(state, PullState::Finished));
    match action {
        PullAction::Return(p) => assert_eq!(p, expected),
        other => panic!("unexpected action {:?}", other),
    }
}

#[test]
fn pull_without_recorded_hash_downloads() {
    let d = Downloader::new("/store".to_string());
    let (state, _) = d.pull_step(PullState::Start, PullEvent::Requested("foo:latest".into()));
    let (_, action) = d.pull_step(state, PullEvent::HashRetrieved(None));
    match action {
        PullAction::Download(r) => assert_eq!(r, OciReference::parse("foo:latest").unwrap()),
        other => panic!("unexpected action {:?}", other),
    }
}

#[test]
fn pull_rejects_events_out_of_order() {
    let d = Downloader::new("/store".to_string());
    let (state, action) = d.pull_step(PullState::Start, PullEvent::Stored);
    assert!(matches!(state, PullState::Finished));
    assert!(matches!(action, PullAction::Unexpected));
}

#[test]
fn second_pull_reuses_first() {
    let d = Downloader::new("/store".to_string());
    let path = "ghcr.io/tmuntaner/tofuya/plugin-gitlab-states:0.1.0".to_string();
    let mut records: HashMap<String, String> = HashMap::new();

    let run = |records: &mut HashMap<String, String>, present: bool| -> (String, usize) {
        let mut downloads = 0;
        let (mut state, mut action) = d.pull_step(PullState::Start, PullEvent::Requested(path.clone()));
        loop {
            let event = match action {
                PullAction::RetrieveHash(key) => PullEvent::HashRetrieved(records.get(&key).cloned()),
                PullAction::ProbeFile(_) => PullEvent::Probed(present),
                PullAction::Download(_) => {
                    downloads += 1;
                    PullEvent::Downloaded(b"plugin bytes".to_vec())
                }
                PullAction::Store { key, hash, .. } => {
                    records.insert(key, hash);
                    PullEvent::Stored
                }
                PullAction::Return(p) => return (p, downloads),
                PullAction::Unexpected => panic!("unexpected step"),
            };
            let (next, act) = d.pull_step(state, event);
            state = next;
            action = act;
        }
    };

    let (first, first_downloads) = run(&mut records, true);
    assert_eq!(first_downloads, 1);
    assert_eq!(records.get(&path).map(|h| format!("/store/{}.wasm", h)), Some(first.clone()));
    let (second, second_downloads) = run(&mut records, true);
    assert_eq!(second_downloads, 0);
    assert_eq!(first, second);
}
