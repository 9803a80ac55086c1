use impalab::benchmark::algorithm_invocation;
use impalab::benchmark::any_pipeline_failed;
use impalab::benchmark::handle_output_line;
use impalab::benchmark::parse_native_line;
use impalab::benchmark::LineOutcome;
use impalab::command::CommandArgs;
use impalab::error::BenchmarkError;

#[test]
fn test_parse_line_well_formed() {
    let res = parse_native_line("case1,funcA,1234", "python").unwrap();
    assert_eq!(res.id, "case1");
    assert_eq!(res.language, "python");
    assert_eq!(res.function_name, "funcA");
    assert_eq!(res.duration, 1234);
}

#[test]
fn test_parse_line_language_is_the_pipelines() {
    // Whatever language-like content the line holds, the pipeline's
    // language wins.
    let res = parse_native_line("case1,funcA,7", "rust").unwrap();
    assert_eq!(res.language, "rust");
}

#[test]
fn test_parse_line_wrong_field_count() {
    let err = parse_native_line("one,two", "python").unwrap_err();
    match err {
        BenchmarkError::CsvParts { parts, ref line } => {
            assert_eq!(parts, 2);
            assert_eq!(line, "one,two");
        },
        _ => panic!("expected a field-count error"),
    }
    assert_eq!(err.message(), "Expected 3 CSV parts, got 2 for line: one,two");

    let err = parse_native_line("a,b,c,d", "python").unwrap_err();
    assert!(matches!(err, BenchmarkError::CsvParts { parts: 4, .. }));
}

#[test]
fn test_parse_line_bad_duration() {
    let err = parse_native_line("case1,funcA,12x4", "python").unwrap_err();
    match err {
        BenchmarkError::ParseDuration { ref duration } => {
            assert_eq!(duration, "12x4");
        },
        _ => panic!("expected a duration error"),
    }
    assert_eq!(err.message(), "Failed to parse duration '12x4'");
}

#[test]
fn test_line_local_error_recovers() {
    // A malformed line draws exactly one warning; the next line is
    // processed normally.
    let bad = handle_output_line("broken line", "python");
    assert!(matches!(bad, LineOutcome::Warn(_)));
    let good = handle_output_line("case2,funcB,55", "python");
    match good {
        LineOutcome::Emit(res) => {
            assert_eq!(res.id, "case2");
            assert_eq!(res.duration, 55);
        },
        _ => panic!("expected a result"),
    }
}

#[test]
fn test_empty_line_skipped() {
    assert!(matches!(handle_output_line("", "python"), LineOutcome::Skip));
}

#[test]
fn test_duration_bounds() {
    let res = parse_native_line("c,f,18446744073709551615", "python").unwrap();
    assert_eq!(res.duration, u64::MAX);
    // One past u64::MAX does not parse.
    let err = parse_native_line("c,f,18446744073709551616", "python").unwrap_err();
    assert!(matches!(err, BenchmarkError::ParseDuration { .. }));
    // A leading plus sign is accepted, as u64::from_str accepts it.
    let res = parse_native_line("c,f,+42", "python").unwrap();
    assert_eq!(res.duration, 42);
    // An empty or negative duration is rejected.
    assert!(parse_native_line("c,f,", "python").is_err());
    assert!(parse_native_line("c,f,-1", "python").is_err());
}

#[test]
fn test_json_line_bytes() {
    let res = parse_native_line("case1,funcA,1234", "python").unwrap();
    assert_eq!(
        res.to_json_line(),
        r#"{"id":"case1","language":"python","function_name":"funcA","duration":1234}"#
    );
}

#[test]
fn test_json_line_escapes() {
    let res = impalab::benchmark::BenchmarkResult {
        id: "a\"b\\c".to_string(),
        language: "l\n".to_string(),
        function_name: "f\t\u{1}".to_string(),
        duration: 0,
    };
    assert_eq!(
        res.to_json_line(),
        "{\"id\":\"a\\\"b\\\\c\",\"language\":\"l\\n\",\"function_name\":\"f\\t\\u0001\",\"duration\":0}"
    );
}

#[test]
fn test_algorithm_invocation_appends_functions() {
    let cmd = CommandArgs {
        command: "/bin/sorter".to_string(),
        args: vec!["--base".to_string()],
    };
    let funcs = vec!["test_func_1".to_string(), "test_func_2".to_string()];
    let inv = algorithm_invocation(&cmd, &funcs);
    assert_eq!(inv.command, "/bin/sorter");
    assert_eq!(inv.args, vec!["--base".to_string(), "--functions=test_func_1,test_func_2".to_string()]);

    // A single function has no comma; none at all gives an empty list.
    let inv = algorithm_invocation(&cmd, &vec!["only".to_string()]);
    assert_eq!(inv.args[1], "--functions=only");
    let inv = algorithm_invocation(&cmd, &vec![]);
    assert_eq!(inv.args[1], "--functions=");
}

#[test]
fn test_any_pipeline_failed() {
    assert!(!any_pipeline_failed(&vec![]));
    assert!(!any_pipeline_failed(&vec![false, false]));
    assert!(any_pipeline_failed(&vec![false, true, false]));
}

#[test]
fn test_duration_leading_zeros() {
    // u64::from_str accepts leading zeros; the value is unchanged.
    let res = parse_native_line("c,f,007", "python").unwrap();
    assert_eq!(res.duration, 7);
    let res = parse_native_line("c,f,0", "python").unwrap();
    assert_eq!(res.duration, 0);
    // Whitespace around the number is rejected, as u64::from_str rejects it.
    assert!(parse_native_line("c,f, 7", "python").is_err());
}
