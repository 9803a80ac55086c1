use impalab::benchmark::algorithm_invocation;
use impalab::benchmark::parse_native_line;
use impalab::config::Config;
use impalab::config::RunArgs;
use impalab::error::ConfigError;
use impalab::maps::pairs_get;

fn run_args_for(algorithms: &str) -> RunArgs {
    RunArgs {
        algorithms: algorithms.to_string(),
        seed: None,
        generator: "none".to_string(),
        generator_override_path: None,
        algorithm_override_paths: None,
        manifest_path: "impa_paths.json".to_string(),
        generator_args: vec![],
    }
}

const MANIFEST_TEXT: &str = r#"{
    "generators": {"py-gen": {"command": "python3", "args": ["./gen.py"]}},
    "algorithm_executables": {"python": {"command": "/bin/sorter-py"}}
}"#;

#[test]
fn test_resolve_end_to_end_seed_42() {
    // The resolver fixes one seed for the whole run; the parser and the
    // emitter then turn an echoed line into the stable JSON record.
    let mut args = run_args_for(r#"{"python": ["funcA"]}"#);
    args.generator = "py-gen".to_string();
    args.seed = Some(42);

    let cfg = Config::resolve(&args, Some(MANIFEST_TEXT)).unwrap();

    let gen = cfg.generator_command.as_ref().unwrap();
    assert_eq!(gen.command, "python3");
    assert_eq!(gen.args, vec!["./gen.py".to_string(), "--seed=42".to_string()]);

    let algo = cfg.command_for("python").unwrap();
    let inv = algorithm_invocation(algo, &cfg.algorithms[0].1);
    assert_eq!(inv.command, "/bin/sorter-py");
    assert_eq!(inv.args, vec!["--functions=funcA".to_string()]);

    let res = parse_native_line("case1,funcA,1234", "python").unwrap();
    assert_eq!(
        res.to_json_line(),
        r#"{"id":"case1","language":"python","function_name":"funcA","duration":1234}"#
    );
}

#[test]
fn test_resolve_missing_language_aborts() {
    // A language absent from both manifest and overrides aborts the whole
    // run before anything could spawn, naming that language.
    let args = run_args_for(r#"{"lean": ["f"]}"#);
    let err = Config::resolve(&args, Some(MANIFEST_TEXT)).unwrap_err();
    match err {
        ConfigError::AlgoExecutableNotFound { ref language } => {
            assert_eq!(language, "lean");
        },
        _ => panic!("expected the unresolved-language error"),
    }
    assert!(err.message().contains("No executable path found for language 'lean'"));
}

#[test]
fn test_resolve_malformed_manifest() {
    let args = run_args_for(r#"{"python": ["f"]}"#);
    let err = Config::resolve(&args, Some("{\"generators\": nonsense")).unwrap_err();
    assert!(matches!(err, ConfigError::ParseManifest));
    assert_eq!(err.message(), "Failed to parse manifest JSON");
}

#[test]
fn test_resolve_no_manifest_with_overrides() {
    let mut args = run_args_for(r#"{"zig": ["f"]}"#);
    args.algorithm_override_paths = Some(r#"{"zig": "/bin/zig-sort"}"#.to_string());
    let cfg = Config::resolve(&args, None).unwrap();
    assert!(cfg.generator_command.is_none());
    assert_eq!(cfg.command_for("zig").unwrap().command, "/bin/zig-sort");
    assert!(cfg.command_for("cpp").is_none());
}

#[test]
fn test_resolve_generator_without_manifest_fails() {
    let mut args = run_args_for(r#"{}"#);
    args.generator = "py-gen".to_string();
    let err = Config::resolve(&args, None).unwrap_err();
    match err {
        ConfigError::GeneratorOverrideNoManifest { ref generator_name, ref manifest_path } => {
            assert_eq!(generator_name, "py-gen");
            assert_eq!(manifest_path, "impa_paths.json");
        },
        _ => panic!("expected the no-manifest error"),
    }
}

#[test]
fn test_resolve_generator_not_found_lists_names() {
    let mut args = run_args_for(r#"{}"#);
    args.generator = "missing".to_string();
    let err = Config::resolve(&args, Some(MANIFEST_TEXT)).unwrap_err();
    assert_eq!(
        err.message(),
        "Generator 'missing' not found in manifest. Available: [\"py-gen\"]. Or, provide --generator-override-path."
    );
}

#[test]
fn test_resolve_bad_task_json() {
    let args = run_args_for("{\"cpp\": [");
    let err = Config::resolve(&args, Some(MANIFEST_TEXT)).unwrap_err();
    assert!(matches!(err, ConfigError::ParseAlgorithmsJson));
}

#[test]
fn test_resolve_bad_override_json() {
    let mut args = run_args_for(r#"{"python": ["f"]}"#);
    args.algorithm_override_paths = Some("12".to_string());
    let err = Config::resolve(&args, Some(MANIFEST_TEXT)).unwrap_err();
    assert!(matches!(err, ConfigError::ParseAlgoOverrideJson));
}

#[test]
fn test_resolve_order_independent() {
    // The task maps {"cpp":...,"rust":...} and {"rust":...,"cpp":...}
    // yield identical per-language commands.
    let manifest = r#"{"generators": {}, "algorithm_executables": {
        "cpp": {"command": "/bin/cpp", "args": ["-O2"]},
        "rust": {"command": "/bin/rust"}
    }}"#;
    let a1 = run_args_for(r#"{"cpp": ["f1"], "rust": ["f2"]}"#);
    let a2 = run_args_for(r#"{"rust": ["f2"], "cpp": ["f1"]}"#);
    let c1 = Config::resolve(&a1, Some(manifest)).unwrap();
    let c2 = Config::resolve(&a2, Some(manifest)).unwrap();
    for lang in ["cpp", "rust"] {
        let x = pairs_get(&c1.algorithm_commands, lang).unwrap();
        let y = pairs_get(&c2.algorithm_commands, lang).unwrap();
        assert_eq!(x.command, y.command);
        assert_eq!(x.args, y.args);
    }
}

#[test]
fn test_resolve_seed_fixed_once_per_run() {
    // Without an explicit seed one random value is drawn and fixed; the
    // generator command carries exactly one --seed argument.
    let mut args = run_args_for(r#"{}"#);
    args.generator = "py-gen".to_string();
    let cfg = Config::resolve(&args, Some(MANIFEST_TEXT)).unwrap();
    let gen = cfg.generator_command.unwrap();
    let seeds: Vec<&String> = gen.args.iter().filter(|a| a.starts_with("--seed=")).collect();
    assert_eq!(seeds.len(), 1);
    assert!(seeds[0]["--seed=".len()..].parse::<u64>().is_ok());
}
