use mclauncher::auth::AuthMethod;
use mclauncher::config::{build_config, ClientConfig, ExtraArgs};
use mclauncher::error::PipelineError;
use mclauncher::session::{create_session, launch, LaunchParameters, Prerequisites, SpawnOutcome};
use mclauncher::store::VersionStore;
use mclauncher::version::{resolve_version, VersionInfo, VersionMetadata};

fn texts(items: &[&str]) -> Vec<String> {
    items.iter().map(|item| item.to_string()).collect()
}

fn store() -> VersionStore {
    let mut store = VersionStore::new();
    store.insert(
        "./versions".to_string(),
        "1.19.4".to_string(),
        Some(VersionMetadata {
            dependencies: texts(&["libraries/lwjgl.jar", "libraries/gson.jar", "1.19.4.jar"]),
            launch_arguments: texts(&["--version", "1.19.4", "--assetIndex", "3"]),
            asset_index: "3".to_string(),
        }),
    );
    store
}

fn steve() -> AuthMethod {
    AuthMethod::offline("Steve".to_string())
}

fn loaded() -> VersionInfo {
    resolve_version(&store(), "./versions", "1.19.4").unwrap()
}

fn extras() -> ExtraArgs {
    ExtraArgs {
        version_type: "release".to_string(),
        runtime: texts(&["-XX:+UseG1GC", "-Dfile.encoding=UTF-8"]),
        client: texts(&["--fullscreen"]),
    }
}

fn config(java_path: &str) -> ClientConfig {
    build_config(steve(), loaded(), java_path.to_string(), 4096, extras()).unwrap()
}

#[test]
fn offline_launch_of_an_installed_version_succeeds() {
    let info = resolve_version(&store(), "./versions", "1.19.4").unwrap();
    assert!(info.is_loaded());
    let config =
        build_config(steve(), info, "java".to_string(), 4096, ExtraArgs::default()).unwrap();
    let session = create_session(config, Prerequisites::Satisfied).unwrap();
    let handle = launch(session, SpawnOutcome::Started).unwrap();
    assert_eq!(handle.parameters().program, "java");
    assert_eq!(handle.parameters().max_mem_mb, 4096);
}

#[test]
fn missing_version_fails_resolution() {
    assert_eq!(
        resolve_version(&store(), "./versions", "missing-version"),
        Err(PipelineError::VersionResolution)
    );
}

#[test]
fn zero_memory_is_refused_for_a_valid_version() {
    assert_eq!(
        build_config(steve(), loaded(), "java".to_string(), 0, ExtraArgs::default()),
        Err(PipelineError::InvalidConfig)
    );
}

#[test]
fn nonexistent_runtime_fails_at_launch_after_the_session_is_created() {
    let config = config("/nonexistent/bin/java");
    let session = create_session(config, Prerequisites::Satisfied).unwrap();
    assert_eq!(launch(session, SpawnOutcome::Failed), Err(PipelineError::Launch));
}

#[test]
fn build_config_keeps_its_arguments() {
    let config = config("java");
    assert_eq!(config.auth(), &steve());
    assert_eq!(config.auth().player_name(), "Steve");
    assert_eq!(config.version_info(), &loaded());
    assert_eq!(config.metadata(), loaded().metadata().unwrap());
    assert_eq!(config.java_path(), "java");
    assert_eq!(config.max_mem_mb(), 4096);
    assert_eq!(config.version_type(), "release");
    assert_eq!(config.runtime_args(), &texts(&["-XX:+UseG1GC", "-Dfile.encoding=UTF-8"]));
    assert_eq!(config.client_args(), &texts(&["--fullscreen"]));
}

#[test]
fn build_config_refuses_every_unloaded_version() {
    for info in [
        VersionInfo::default(),
        VersionInfo::new("./versions".to_string(), "1.19.4".to_string()),
        VersionInfo::new("./versions".to_string(), "missing-version".to_string()),
    ] {
        assert_eq!(
            build_config(steve(), info, "java".to_string(), 4096, extras()),
            Err(PipelineError::InvalidConfig)
        );
    }
}

#[test]
fn build_config_refuses_every_memory_limit_that_is_not_positive() {
    for max_mem_mb in [0, -1, -4096, i32::MIN] {
        assert_eq!(
            build_config(steve(), loaded(), "java".to_string(), max_mem_mb, extras()),
            Err(PipelineError::InvalidConfig)
        );
    }
}

#[test]
fn build_config_accepts_every_positive_memory_limit() {
    for (max_mem_mb, kept) in [(1, 1), (512, 512), (4096, 4096), (i32::MAX, 2147483647)] {
        let config =
            build_config(steve(), loaded(), "java".to_string(), max_mem_mb, extras()).unwrap();
        assert_eq!(config.max_mem_mb(), kept);
    }
}

#[test]
fn build_config_does_not_look_at_the_runtime_path() {
    let config = build_config(steve(), loaded(), String::new(), 1, ExtraArgs::default()).unwrap();
    assert_eq!(config.java_path(), "");
}

#[test]
fn default_extra_args_are_empty() {
    let extra = ExtraArgs::default();
    assert_eq!(extra.version_type, "");
    assert!(extra.runtime.is_empty());
    assert!(extra.client.is_empty());
}

#[test]
fn offline_auth_has_a_name_and_no_unique_id() {
    assert_eq!(
        steve(),
        AuthMethod::Offline { player_name: "Steve".to_string(), uuid: None }
    );
    assert_eq!(steve().player_name(), "Steve");
}

#[test]
fn cloned_auth_equals_the_original() {
    let with_id = AuthMethod::Offline {
        player_name: "Alex".to_string(),
        uuid: Some("00000000-0000-0000-0000-000000000001".to_string()),
    };
    assert_eq!(with_id.clone(), with_id);
    assert_eq!(steve().clone(), steve());
    assert_ne!(with_id.clone(), steve());
}

#[test]
fn session_parameters_are_derived_from_the_configuration() {
    let session = create_session(config("/usr/bin/java"), Prerequisites::Satisfied).unwrap();
    let expected = LaunchParameters {
        program: "/usr/bin/java".to_string(),
        working_dir: "./versions".to_string(),
        classpath: texts(&["libraries/lwjgl.jar", "libraries/gson.jar", "1.19.4.jar"]),
        max_mem_mb: 4096,
        runtime_arguments: texts(&["-XX:+UseG1GC", "-Dfile.encoding=UTF-8"]),
        client_arguments: texts(&["--version", "1.19.4", "--assetIndex", "3", "--fullscreen"]),
    };
    assert_eq!(session.parameters(), &expected);
    assert_eq!(session.config(), &config("/usr/bin/java"));
}

#[test]
fn session_parameters_without_extra_arguments() {
    let config =
        build_config(steve(), loaded(), "java".to_string(), 1024, ExtraArgs::default()).unwrap();
    let session = create_session(config, Prerequisites::Satisfied).unwrap();
    assert_eq!(session.parameters().runtime_arguments, Vec::<String>::new());
    assert_eq!(
        session.parameters().client_arguments,
        texts(&["--version", "1.19.4", "--assetIndex", "3"])
    );
    assert_eq!(session.parameters().max_mem_mb, 1024);
}

#[test]
fn session_needs_a_runtime() {
    assert_eq!(
        create_session(config(""), Prerequisites::Satisfied),
        Err(PipelineError::SessionCreation)
    );
    assert_eq!(
        create_session(config(""), Prerequisites::Missing),
        Err(PipelineError::SessionCreation)
    );
}

#[test]
fn session_needs_its_prerequisites() {
    assert_eq!(
        create_session(config("java"), Prerequisites::Missing),
        Err(PipelineError::SessionCreation)
    );
}

#[test]
fn launch_hands_over_the_parameters_of_the_session() {
    let session = create_session(config("java"), Prerequisites::Satisfied).unwrap();
    let expected = session.parameters().clone();
    let handle = launch(session, SpawnOutcome::Started).unwrap();
    assert_eq!(handle.parameters(), &expected);
    assert_eq!(handle.parameters().working_dir, "./versions");
    assert_eq!(
        handle.parameters().client_arguments,
        texts(&["--version", "1.19.4", "--assetIndex", "3", "--fullscreen"])
    );
}

#[test]
fn launch_fails_when_the_process_is_not_started() {
    let session = create_session(config("java"), Prerequisites::Satisfied).unwrap();
    assert_eq!(launch(session, SpawnOutcome::Failed), Err(PipelineError::Launch));
}

#[test]
fn equal_configurations_launch_with_equal_parameters() {
    let first = launch(
        create_session(config("java"), Prerequisites::Satisfied).unwrap(),
        SpawnOutcome::Started,
    )
    .unwrap();
    let second = launch(
        create_session(config("java"), Prerequisites::Satisfied).unwrap(),
        SpawnOutcome::Started,
    )
    .unwrap();
    assert_eq!(first.parameters(), second.parameters());
    assert_eq!(first, second);
}

#[test]
fn different_configurations_launch_with_different_parameters() {
    let first = create_session(config("java"), Prerequisites::Satisfied).unwrap();
    let second = create_session(config("/opt/jdk/bin/java"), Prerequisites::Satisfied).unwrap();
    assert_ne!(first.parameters(), second.parameters());
}

#[test]
fn cloned_parameters_equal_the_original() {
    let session = create_session(config("java"), Prerequisites::Satisfied).unwrap();
    let copy = session.parameters().clone();
    assert_eq!(&copy, session.parameters());
    assert_eq!(copy.classpath.len(), 3);
}
