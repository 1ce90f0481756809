use driven::digest::blake3_hex_of_str;
use driven::strategy::artifacts::{
    components, contained_state_dir, ensure_artifact_path_in_state, handoff_path, join_path,
    parent_of_absolute, paths_equal, receipt_path, safe_artifact_component, starts_with_path,
};
use driven::strategy::session::{session_path, LanePassSessionManifest};
use driven::strategy::{LanePassConfig, LanePassStore, StateSessionId, WorkerId};

#[test]
fn artifact_paths_live_under_the_state_directory() {
    let path = receipt_path("/tmp/state", " abc-1.2_x ").unwrap();
    assert_eq!(path, "/tmp/state/receipts/abc-1.2_x.json");
    assert!(ensure_artifact_path_in_state("/tmp/state", &path, "receipt").is_ok());
    assert_eq!(
        handoff_path("/tmp/state/", "abc").unwrap(),
        "/tmp/state/handoffs/abc.json"
    );
    assert_eq!(handoff_path("", "abc").unwrap(), "handoffs/abc.json");
}

#[test]
fn unsafe_artifact_ids_and_state_directories_are_refused() {
    assert_eq!(
        safe_artifact_component("..").unwrap_err().message(),
        "artifact id cannot be empty or relative"
    );
    assert_eq!(
        safe_artifact_component("a/b").unwrap_err().message(),
        "artifact id contains an unsafe path character"
    );
    assert_eq!(
        receipt_path("/tmp/../state", "abc").unwrap_err().message(),
        "state dir cannot contain parent traversal"
    );
    assert!(contained_state_dir("/tmp/..state/x..").is_ok());
    assert_eq!(
        ensure_artifact_path_in_state("/tmp/state", "/tmp/state/../x.json", "handoff")
            .unwrap_err()
            .message(),
        "handoff path cannot contain parent traversal"
    );
    assert_eq!(
        ensure_artifact_path_in_state("/tmp/state", "/tmp/stateful/x.json", "receipt")
            .unwrap_err()
            .message(),
        "receipt path must stay inside the lane state directory"
    );
}

#[test]
fn paths_compare_component_by_component() {
    assert_eq!(components("/a//b/./c/"), vec!["/", "a", "b", "c"]);
    assert_eq!(components("./a"), vec![".", "a"]);
    assert_eq!(components("a/../b"), vec!["a", "..", "b"]);
    assert!(paths_equal("/a/b/", "/a//b"));
    assert!(!paths_equal("/a/b", "a/b"));
    assert!(starts_with_path("/a/b/c", "/a/b"));
    assert!(!starts_with_path("/a/bc", "/a/b"));
    assert_eq!(join_path("/a", "/b"), "/b");
    assert_eq!(join_path("a/", "b"), "a/b");
}

#[test]
fn parent_of_an_absolute_path() {
    assert_eq!(parent_of_absolute("/a/b/"), Some("/a".to_string()));
    assert_eq!(parent_of_absolute("/a/./b"), Some("/a".to_string()));
    assert_eq!(parent_of_absolute("/a"), Some("/".to_string()));
    assert_eq!(parent_of_absolute("/"), None);
}

#[test]
fn store_runs_beside_an_absolute_state_directory() {
    let store = LanePassStore::new(LanePassConfig::new("/work/project/.dx/state", "scope")).unwrap();
    assert_eq!(store.execution_root(), "/work/project/.dx");
    let store = LanePassStore::new(LanePassConfig::new("state", "scope")).unwrap();
    assert_eq!(store.execution_root(), ".");
    let store =
        LanePassStore::new(LanePassConfig::new("state", "scope").with_project_root("/work/p")).unwrap();
    assert_eq!(store.execution_root(), "/work/p");
}

#[test]
fn store_configuration_is_checked() {
    assert_eq!(
        LanePassStore::new(LanePassConfig::new("/s", " ")).err().unwrap().message(),
        "lane/pass scope cannot be empty"
    );
    assert_eq!(
        LanePassStore::new(LanePassConfig::new("/s", "x").with_max_lanes(31))
            .err()
            .unwrap()
            .message(),
        "max lanes must be between 1 and 30"
    );
    assert_eq!(
        LanePassStore::new(LanePassConfig::new("/s", "x").with_max_passes(0))
            .err()
            .unwrap()
            .message(),
        "max passes must be at least 1"
    );
}

#[test]
fn worker_paths_use_the_normalized_worker_id() {
    let store = LanePassStore::new(LanePassConfig::new("/s", "x")).unwrap();
    let paths = store.paths_for_worker(" Worker.One ").unwrap();
    assert_eq!(paths.worker_path, "/s/workers/worker-worker.one.json");
    assert_eq!(paths.counter_path, "/s/lane-counter.json");
    assert_eq!(paths.claims_path, "/s/lane-claims.json");
    assert!(store.paths_for_worker("bad worker").is_err());
}

#[test]
fn fresh_session_manifest_validates_for_its_scope() {
    let manifest = LanePassSessionManifest::new(
        "  strategy engine ",
        &uuid::Uuid::new_v4().simple().to_string(),
    );
    assert_eq!(manifest.scope, "strategy engine");
    assert!(manifest.state_session_id.as_str().starts_with("state-"));
    assert_eq!(manifest.state_session_id.as_str().len(), 38);
    manifest.validate("strategy engine").unwrap();
    assert_eq!(
        manifest.validate("other").unwrap_err().message(),
        "state session scope does not match store scope"
    );
    assert_eq!(session_path("/s").unwrap(), "/s/state-session.json");
}

#[test]
fn generated_session_ids_differ() {
    let a = StateSessionId::generate(&uuid::Uuid::new_v4().simple().to_string());
    let b = StateSessionId::generate(&uuid::Uuid::new_v4().simple().to_string());
    assert_ne!(a.as_str(), b.as_str());
    assert!(StateSessionId::new(a.as_str()).is_ok());
    assert_eq!(
        StateSessionId::generate("0123456789abcdef0123456789abcdef").as_str(),
        "state-0123456789abcdef0123456789abcdef"
    );
}

#[test]
fn blake3_digest_is_the_reference_hash() {
    assert_eq!(
        blake3_hex_of_str("abc"),
        "6437b3ac38465133ffb63b75273a8db548c558465d79db03fd359c6cd5bd9d85"
    );
    assert_ne!(blake3_hex_of_str("abc"), blake3_hex_of_str("abd"));
}

#[test]
fn normalizing_a_worker_id_twice_changes_nothing() {
    let once = WorkerId::new("  Agent.Seven_1 ").unwrap();
    let twice = WorkerId::new(once.as_str()).unwrap();
    assert_eq!(once, twice);
}
