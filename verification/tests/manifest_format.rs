use impalab::config::parse_override_map;
use impalab::config::parse_task_map;
use impalab::manifest::parse_manifest;
use impalab::maps::pairs_get;

#[test]
fn test_manifest_parse_basic() {
    let text = r#"{
        "generators": {
            "py-gen": {"command": "python3", "args": ["./gen.py"]}
        },
        "algorithm_executables": {
            "cpp": {"command": "/bin/sorter-cpp"}
        }
    }"#;
    let m = parse_manifest(text).unwrap();
    assert_eq!(m.generators.len(), 1);
    assert_eq!(m.generators[0].0, "py-gen");
    assert_eq!(m.generators[0].1.command, "python3");
    assert_eq!(m.generators[0].1.args, vec!["./gen.py".to_string()]);
    // "args" omitted means no arguments.
    assert_eq!(m.algorithm_executables[0].1.command, "/bin/sorter-cpp");
    assert!(m.algorithm_executables[0].1.args.is_empty());
}

#[test]
fn test_manifest_key_order_swapped() {
    let text = r#"{"algorithm_executables": {}, "generators": {"g": {"command": "x"}}}"#;
    let m = parse_manifest(text).unwrap();
    assert_eq!(m.generators.len(), 1);
    assert!(m.algorithm_executables.is_empty());
}

#[test]
fn test_manifest_malformed_rejected() {
    assert!(parse_manifest("not json at all").is_none());
    assert!(parse_manifest("{\"generators\": {").is_none());
    assert!(parse_manifest("").is_none());
    assert!(parse_manifest("{}").is_none());
    // Trailing content after the object is rejected.
    assert!(
        parse_manifest(r#"{"generators": {}, "algorithm_executables": {}} extra"#).is_none()
    );
}

#[test]
fn test_manifest_command_required() {
    let text = r#"{"generators": {"g": {"args": ["x"]}}, "algorithm_executables": {}}"#;
    assert!(parse_manifest(text).is_none());
}

#[test]
fn test_manifest_unknown_member_rejected() {
    let text = r#"{"generators": {"g": {"command": "x", "env": "y"}}, "algorithm_executables": {}}"#;
    assert!(parse_manifest(text).is_none());
}

#[test]
fn test_manifest_string_escapes() {
    let text = "{\"generators\": {\"g\": {\"command\": \"\\u0041\\n\\\"\\ud83d\\ude00\"}}, \"algorithm_executables\": {}}";
    let m = parse_manifest(text).unwrap();
    assert_eq!(m.generators[0].1.command, "A\n\"\u{1F600}");
    // A lone surrogate is not a scalar value and is rejected.
    let bad = "{\"generators\": {\"g\": {\"command\": \"\\ud83d\"}}, \"algorithm_executables\": {}}";
    assert!(parse_manifest(bad).is_none());
}

#[test]
fn test_manifest_duplicate_name_last_wins() {
    let text = r#"{"generators": {}, "algorithm_executables": {
        "cpp": {"command": "/old"},
        "cpp": {"command": "/new"}
    }}"#;
    let m = parse_manifest(text).unwrap();
    assert_eq!(pairs_get(&m.algorithm_executables, "cpp").unwrap().command, "/new");
}

#[test]
fn test_task_map_parse() {
    let t = parse_task_map(r#"{"cpp": ["a", "b"], "rust": []}"#).unwrap();
    assert_eq!(t.len(), 2);
    assert_eq!(t[0].0, "cpp");
    assert_eq!(t[0].1, vec!["a".to_string(), "b".to_string()]);
    assert_eq!(t[1].0, "rust");
    assert!(t[1].1.is_empty());
    assert!(parse_task_map("{}").unwrap().is_empty());
    assert!(parse_task_map(r#"{"cpp": "not a list"}"#).is_none());
    assert!(parse_task_map(r#"{"cpp": [1]}"#).is_none());
    assert!(parse_task_map("[]").is_none());
}

#[test]
fn test_override_map_parse() {
    let o = parse_override_map(r#"{"cpp": "/bin/x"}"#).unwrap();
    assert_eq!(o, vec![("cpp".to_string(), "/bin/x".to_string())]);
    assert!(parse_override_map(r#"{"cpp": 5}"#).is_none());
    assert!(parse_override_map("").is_none());
}

#[test]
fn test_task_map_whitespace_tolerated() {
    let t = parse_task_map(" {\n  \"cpp\" :\t[ \"a\" , \"b\" ]\r\n} ").unwrap();
    assert_eq!(t, vec![("cpp".to_string(), vec!["a".to_string(), "b".to_string()])]);
}
