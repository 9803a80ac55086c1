use impalab::command::CommandArgs;
use impalab::config::parse_task_map;
use impalab::config::resolve_algorithms;
use impalab::config::resolve_generator;
use impalab::config::Algorithms;
use impalab::config::ResolveWarning;
use impalab::config::RunArgs;
use impalab::config::generator_warnings;
use impalab::manifest::BuildManifest;
use impalab::maps::pairs_get;

fn mock_run_args() -> RunArgs {
    RunArgs {
        algorithms: "{}".to_string(),
        seed: None,
        generator: "default-gen".to_string(),
        generator_override_path: None,
        algorithm_override_paths: None,
        manifest_path: "impa_paths.json".to_string(),
        generator_args: vec![],
    }
}

fn mock_manifest() -> BuildManifest {
    let generators = vec![(
        "default-gen".to_string(),
        CommandArgs {
            command: "/bin/manifest-gen".to_string(),
            args: vec!["--from-manifest".to_string()],
        },
    )];
    let algorithm_executables = vec![
        ("cpp".to_string(), CommandArgs { command: "/bin/manifest-cpp".to_string(), args: vec![] }),
        (
            "rust".to_string(),
            CommandArgs { command: "/bin/manifest-rust".to_string(), args: vec![] },
        ),
    ];
    BuildManifest { generators, algorithm_executables }
}

#[test]
fn test_gen_priority_1_override_path() {
    let mut args = mock_run_args();
    args.generator_override_path = Some("/bin/override-gen".to_string());

    let manifest = Some(mock_manifest());

    let cmd = resolve_generator(&args, &manifest).unwrap().unwrap();

    // Should use the override path
    assert_eq!(cmd.command, "/bin/override-gen".to_string());
    // Should NOT have args from manifest
    assert!(!cmd.args.contains(&"--from-manifest".to_string()));
    // Should contain the seed
    assert!(cmd.args.iter().any(|s| s.starts_with("--seed=")));
}

#[test]
fn test_gen_priority_2_manifest() {
    let args = mock_run_args(); // No override
    let manifest = Some(mock_manifest());

    let cmd = resolve_generator(&args, &manifest).unwrap().unwrap();

    // Should use the manifest path
    assert_eq!(cmd.command, "/bin/manifest-gen".to_string());
    // Should have args from manifest
    assert!(cmd.args.contains(&"--from-manifest".to_string()));
    // Should contain the seed
    assert!(cmd.args.iter().any(|s| s.starts_with("--seed=")));
}

#[test]
fn test_gen_priority_3_fail_not_found() {
    let mut args = mock_run_args();
    args.generator = "missing-gen".to_string(); // Not in manifest
    let manifest = Some(mock_manifest());

    let err = resolve_generator(&args, &manifest).unwrap_err();

    // Should fail with a helpful error
    assert!(err.message().contains("Generator 'missing-gen' not found in manifest"));
}

#[test]
fn test_gen_none() {
    let mut args = mock_run_args();
    args.generator = "none".to_string();
    args.generator_override_path = Some("/bin/override-gen".to_string()); // Will be ignored
    args.seed = Some(12345); // Will be ignored

    let manifest = Some(mock_manifest());

    // Should return Ok(None)
    let cmd = resolve_generator(&args, &manifest).unwrap();
    assert!(cmd.is_none());
}

#[test]
fn test_gen_none_warnings() {
    let mut args = mock_run_args();
    args.generator = "none".to_string();
    args.generator_override_path = Some("/bin/override-gen".to_string());
    args.seed = Some(12345);

    let warnings = generator_warnings(&args);
    assert_eq!(
        warnings,
        vec![ResolveWarning::IgnoredOverridePath, ResolveWarning::IgnoredSeed]
    );
    assert!(ResolveWarning::IgnoredSeed
        .message()
        .contains("--generator=none is set, so --seed will be ignored."));

    // With a generator resolved, nothing is ignored.
    let args = mock_run_args();
    assert!(generator_warnings(&args).is_empty());
}

#[test]
fn test_algo_priority_1_override_path() {
    let mut args = mock_run_args();
    // Override "cpp", but not "rust"
    args.algorithm_override_paths = Some(r#"{"cpp": "/bin/override-cpp"}"#.to_string());

    let tasks: Algorithms = parse_task_map(r#"{"cpp": ["func1"], "rust": ["func2"]}"#).unwrap();
    let manifest = Some(mock_manifest());

    let map = resolve_algorithms(&args, &tasks, &manifest).unwrap();

    // "cpp" should come from the override
    assert_eq!(pairs_get(&map, "cpp").unwrap().command, "/bin/override-cpp".to_string());
    // "rust" should fall back to the manifest
    assert_eq!(pairs_get(&map, "rust").unwrap().command, "/bin/manifest-rust".to_string());
}

#[test]
fn test_algo_priority_2_manifest() {
    let args = mock_run_args(); // No overrides
    let tasks: Algorithms = parse_task_map(r#"{"cpp": ["func1"]}"#).unwrap();
    let manifest = Some(mock_manifest());

    let map = resolve_algorithms(&args, &tasks, &manifest).unwrap();

    // "cpp" should come from the manifest
    assert_eq!(pairs_get(&map, "cpp").unwrap().command, "/bin/manifest-cpp".to_string());
}

#[test]
fn test_algo_priority_3_fail_not_found() {
    let args = mock_run_args(); // No overrides
    // Request "python", which is not in the manifest
    let tasks: Algorithms = parse_task_map(r#"{"python": ["func1"]}"#).unwrap();
    let manifest = Some(mock_manifest());

    let err = resolve_algorithms(&args, &tasks, &manifest).unwrap_err();

    // Should fail with a helpful error
    assert!(err.message().contains("No executable path found for language 'python'"));
}
