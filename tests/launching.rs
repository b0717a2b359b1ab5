use layerpull::image::parse_image_ref;
use layerpull::launch::{Action, Event, Launch, Stage};
use layerpull::registry::LaunchError;
use std::io::Write;

fn gzip(data: &[u8]) -> Vec<u8> {
    let mut enc = flate2::write::GzEncoder::new(Vec::new(), flate2::Compression::default());
    enc.write_all(data).unwrap();
    enc.finish().unwrap()
}

fn launch() -> Launch {
    Launch::new(
        parse_image_ref("busybox:1.36"),
        "/bin/echo".to_string(),
        vec!["hi".to_string(), "there".to_string()],
    )
}

fn authenticated(l: &mut Launch) {
    match l.first_action() {
        Action::FetchToken { url } => assert!(url.ends_with("library/busybox:pull")),
        other => panic!("unexpected {:?}", other),
    }
    match l.step(Event::TokenAnswer { body: Some(r#"{"token":"tk"}"#.to_string()) }) {
        Action::FetchManifest { url, token } => {
            assert_eq!(url, "https://registry.hub.docker.com/v2/library/busybox/manifests/1.36");
            assert_eq!(token, "tk");
        }
        other => panic!("unexpected {:?}", other),
    }
}

fn through_root(l: &mut Launch) {
    assert!(matches!(l.step(Event::RootPrepared { ok: true }), Action::Confine));
    assert!(matches!(l.step(Event::Confined { ok: true }), Action::IsolatePids));
}

#[test]
fn layers_fetched_and_unpacked_in_manifest_order() {
    let mut l = launch();
    authenticated(&mut l);
    let manifest = r#"{"layers":[{"digest":"L1"},{"digest":"L2"},{"digest":"L3"}]}"#;
    let mut a = l.step(Event::ManifestAnswer { body: Some(manifest.to_string()) });
    for (i, d) in ["L1", "L2", "L3"].iter().enumerate() {
        match a {
            Action::FetchBlob { url, token } => {
                assert_eq!(url, format!("https://registry.hub.docker.com/v2/library/busybox/blobs/{}", d));
                assert_eq!(token, "tk");
            }
            other => panic!("unexpected {:?}", other),
        }
        assert_eq!(l.stage, Stage::Fetching { index: i });
        let content = format!("archive of {}", d).into_bytes();
        match l.step(Event::BlobAnswer { blob: Some(gzip(&content)) }) {
            Action::Unpack { archive } => assert_eq!(archive, content),
            other => panic!("unexpected {:?}", other),
        }
        a = l.step(Event::Unpacked { ok: true });
    }
    match a {
        Action::PrepareRoot { source, target } => {
            assert_eq!(source, "/bin/echo");
            assert_eq!(target, "bin/echo");
        }
        other => panic!("unexpected {:?}", other),
    }
}

#[test]
fn empty_manifest_still_runs() {
    let mut l = launch();
    authenticated(&mut l);
    let a = l.step(Event::ManifestAnswer { body: Some(r#"{"layers":[]}"#.to_string()) });
    assert!(matches!(a, Action::PrepareRoot { .. }));
    through_root(&mut l);
    match l.step(Event::PidsIsolated { ok: true }) {
        Action::Spawn { command, args } => {
            assert_eq!(command, "/bin/echo");
            assert_eq!(args, vec!["hi".to_string(), "there".to_string()]);
        }
        other => panic!("unexpected {:?}", other),
    }
    assert_eq!(l.stage, Stage::Running);
}

#[test]
fn pid_isolation_failure_is_tolerated() {
    let mut l = launch();
    authenticated(&mut l);
    l.step(Event::ManifestAnswer { body: Some(r#"{"layers":[]}"#.to_string()) });
    through_root(&mut l);
    assert!(matches!(l.step(Event::PidsIsolated { ok: false }), Action::Spawn { .. }));
}

#[test]
fn exit_status_seven_is_relayed() {
    let mut l = launch();
    authenticated(&mut l);
    l.step(Event::ManifestAnswer { body: Some(r#"{"layers":[]}"#.to_string()) });
    through_root(&mut l);
    l.step(Event::PidsIsolated { ok: true });
    match l.step(Event::CommandExited { code: Some(7) }) {
        Action::Exit { status } => assert_eq!(status, 7),
        other => panic!("unexpected {:?}", other),
    }
    assert_eq!(l.stage, Stage::Exited);
    assert!(matches!(l.step(Event::SpawnFailed), Action::Finished));
}

#[test]
fn signal_exit_reports_zero() {
    let mut l = launch();
    authenticated(&mut l);
    l.step(Event::ManifestAnswer { body: Some(r#"{"layers":[]}"#.to_string()) });
    through_root(&mut l);
    l.step(Event::PidsIsolated { ok: true });
    assert!(matches!(l.step(Event::CommandExited { code: None }), Action::Exit { status: 0 }));
}

#[test]
fn token_without_field_aborts_with_auth_error() {
    let mut l = launch();
    let a = l.step(Event::TokenAnswer { body: Some(r#"{"nope":"x"}"#.to_string()) });
    match a {
        Action::Abort { error } => assert_eq!(error, LaunchError::Auth),
        other => panic!("unexpected {:?}", other),
    }
    assert_eq!(l.stage, Stage::Failed);
    assert_eq!(l.token, "");
    assert!(l.layers.is_empty());
    assert!(matches!(l.step(Event::Unpacked { ok: true }), Action::Finished));
}

#[test]
fn failed_token_request_aborts() {
    let mut l = launch();
    assert!(matches!(l.step(Event::TokenAnswer { body: None }), Action::Abort { error: LaunchError::Auth }));
}

#[test]
fn manifest_without_layers_aborts_with_manifest_error() {
    let mut l = launch();
    authenticated(&mut l);
    match l.step(Event::ManifestAnswer { body: Some(r#"{"mediaType":"x"}"#.to_string()) }) {
        Action::Abort { error } => assert_eq!(error, LaunchError::Manifest),
        other => panic!("unexpected {:?}", other),
    }
    assert!(l.layers.is_empty());
    assert_eq!(l.token, "tk");
}

#[test]
fn bad_blob_aborts_with_its_digest() {
    let mut l = launch();
    authenticated(&mut l);
    let manifest = r#"{"layers":[{"digest":"L1"},{"digest":"L2"}]}"#;
    l.step(Event::ManifestAnswer { body: Some(manifest.to_string()) });
    l.step(Event::BlobAnswer { blob: Some(gzip(b"one")) });
    l.step(Event::Unpacked { ok: true });
    match l.step(Event::BlobAnswer { blob: Some(b"garbage".to_vec()) }) {
        Action::Abort { error } => assert_eq!(error, LaunchError::LayerFetch { digest: "L2".to_string() }),
        other => panic!("unexpected {:?}", other),
    }
}

#[test]
fn unpack_failure_aborts_with_its_digest() {
    let mut l = launch();
    authenticated(&mut l);
    l.step(Event::ManifestAnswer { body: Some(r#"{"layers":[{"digest":"L1"}]}"#.to_string()) });
    l.step(Event::BlobAnswer { blob: Some(gzip(b"one")) });
    match l.step(Event::Unpacked { ok: false }) {
        Action::Abort { error } => assert_eq!(error, LaunchError::LayerFetch { digest: "L1".to_string() }),
        other => panic!("unexpected {:?}", other),
    }
}

#[test]
fn missing_command_fails_at_assembly() {
    let mut l = launch();
    authenticated(&mut l);
    l.step(Event::ManifestAnswer { body: Some(r#"{"layers":[]}"#.to_string()) });
    match l.step(Event::RootPrepared { ok: false }) {
        Action::Abort { error } => assert_eq!(error, LaunchError::RootAssembly),
        other => panic!("unexpected {:?}", other),
    }
}

#[test]
fn unstartable_command_fails_with_exec_error() {
    let mut l = launch();
    authenticated(&mut l);
    l.step(Event::ManifestAnswer { body: Some(r#"{"layers":[]}"#.to_string()) });
    through_root(&mut l);
    l.step(Event::PidsIsolated { ok: true });
    match l.step(Event::SpawnFailed) {
        Action::Abort { error } => assert_eq!(error, LaunchError::Exec),
        other => panic!("unexpected {:?}", other),
    }
}

#[test]
fn confinement_failure_is_exec_error() {
    let mut l = launch();
    authenticated(&mut l);
    l.step(Event::ManifestAnswer { body: Some(r#"{"layers":[]}"#.to_string()) });
    l.step(Event::RootPrepared { ok: true });
    assert!(matches!(l.step(Event::Confined { ok: false }), Action::Abort { error: LaunchError::Exec }));
}

#[test]
fn unexpected_event_fails_the_stage() {
    let mut l = launch();
    authenticated(&mut l);
    assert!(matches!(l.step(Event::Unpacked { ok: true }), Action::Abort { error: LaunchError::Manifest }));
}
