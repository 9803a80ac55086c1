//! Error types for configuration resolution and for the result-line
//! protocol, with their diagnostic texts stated exactly.

use vstd::prelude::*;
use crate::text::chars_to_string;
use crate::text::push_str_chars;
use crate::text::push_u64_dec;
use crate::text::u64_dec;

verus! {

/// A fatal resolution error: the run aborts before any process spawns.
#[derive(Debug)]
pub enum ConfigError {
    /// The manifest file's text is not a well-formed manifest.
    ParseManifest,
    /// The task map argument is not a well-formed language-to-functions map.
    ParseAlgorithmsJson,
    /// The override map argument is not a well-formed language-to-path map.
    ParseAlgoOverrideJson,
    /// A manifest exists but lacks the requested generator.
    GeneratorNotFound { generator_name: String, available: Vec<String> },
    /// A generator was requested but there is neither an override path nor
    /// a manifest to resolve it from.
    GeneratorOverrideNoManifest { generator_name: String, manifest_path: String },
    /// A requested language has no executable in overrides or manifest.
    AlgoExecutableNotFound { language: String },
}

/// A result-line error: local to the line, never fatal to the stream.
#[derive(Debug)]
pub enum BenchmarkError {
    /// The line did not hold exactly three comma-separated fields.
    CsvParts { parts: usize, line: String },
    /// The third field is not an unsigned 64-bit integer.
    ParseDuration { duration: String },
}

/// The items each wrapped in double quotes, separated by comma and space.
pub open spec fn sp_quoted_list(items: Seq<Seq<char>>) -> Seq<char>
    decreases items.len(),
{
    if items.len() == 0 {
        Seq::empty()
    } else if items.len() == 1 {
        "\""@ + items[0] + "\""@
    } else {
        sp_quoted_list(items.drop_last()) + ", "@ + "\""@ + items.last() + "\""@
    }
}

/// The diagnostic text of a [`ConfigError`].
pub open spec fn sp_config_error_message(e: ConfigError) -> Seq<char> {
    match e {
        ConfigError::ParseManifest => "Failed to parse manifest JSON"@,
        ConfigError::ParseAlgorithmsJson => "Failed to parse --algorithms JSON"@,
        ConfigError::ParseAlgoOverrideJson => "Failed to parse --algorithm-override-paths JSON"@,
        ConfigError::GeneratorNotFound { generator_name, available } => "Generator '"@
            + generator_name@ + "' not found in manifest. Available: ["@ + sp_quoted_list(
            available.deep_view(),
        ) + "]. Or, provide --generator-override-path."@,
        ConfigError::GeneratorOverrideNoManifest { generator_name, manifest_path } => "Generator '"@
            + generator_name@ + "' specified via override but no build manifest was found at "@
            + manifest_path@,
        ConfigError::AlgoExecutableNotFound { language } => "No executable path found for language '"@
            + language@ + "'. Searched overrides and manifest."@,
    }
}

/// The diagnostic text of a [`BenchmarkError`].
pub open spec fn sp_benchmark_error_message(e: BenchmarkError) -> Seq<char> {
    match e {
        BenchmarkError::CsvParts { parts, line } => "Expected 3 CSV parts, got "@ + u64_dec(
            parts as u64,
        ) + " for line: "@ + line@,
        BenchmarkError::ParseDuration { duration } => "Failed to parse duration '"@ + duration@
            + "'"@,
    }
}

/// Appends the quoted, comma-separated items to `out`.
fn push_quoted_list(out: &mut Vec<char>, items: &Vec<String>)
    ensures
        final(out)@ == old(out)@ + sp_quoted_list(items.deep_view()),
{
    let mut i: usize = 0;
    while i < items.len()
        invariant
            i <= items@.len(),
            out@ == old(out)@ + sp_quoted_list(items.deep_view().take(i as int)),
        decreases items@.len() - i,
    {
        if i > 0 {
            push_str_chars(out, ", ");
        }
        push_str_chars(out, "\"");
        push_str_chars(out, items[i].as_str());
        push_str_chars(out, "\"");
        proof {
            let iv = items.deep_view();
            assert(iv.take(i as int + 1).drop_last() =~= iv.take(i as int));
            assert(iv.take(i as int + 1).last() == iv[i as int]);
            if i == 0 {
                assert(iv.take(1)[0] == iv[0]);
            }
            assert(out@ =~= old(out)@ + sp_quoted_list(iv.take(i as int + 1)));
        }
        i += 1;
    }
    proof {
        assert(items.deep_view().take(items@.len() as int) =~= items.deep_view());
    }
}

impl ConfigError {
    /// The diagnostic text of this error.
    pub fn message(&self) -> (r: String)
        ensures
            r@ == sp_config_error_message(*self),
    {
        let mut out: Vec<char> = Vec::new();
        match self {
            ConfigError::ParseManifest => {
                push_str_chars(&mut out, "Failed to parse manifest JSON");
            },
            ConfigError::ParseAlgorithmsJson => {
                push_str_chars(&mut out, "Failed to parse --algorithms JSON");
            },
            ConfigError::ParseAlgoOverrideJson => {
                push_str_chars(&mut out, "Failed to parse --algorithm-override-paths JSON");
            },
            ConfigError::GeneratorNotFound { generator_name, available } => {
                push_str_chars(&mut out, "Generator '");
                push_str_chars(&mut out, generator_name.as_str());
                push_str_chars(&mut out, "' not found in manifest. Available: [");
                push_quoted_list(&mut out, available);
                push_str_chars(&mut out, "]. Or, provide --generator-override-path.");
            },
            ConfigError::GeneratorOverrideNoManifest { generator_name, manifest_path } => {
                push_str_chars(&mut out, "Generator '");
                push_str_chars(&mut out, generator_name.as_str());
                push_str_chars(
                    &mut out,
                    "' specified via override but no build manifest was found at ",
                );
                push_str_chars(&mut out, manifest_path.as_str());
            },
            ConfigError::AlgoExecutableNotFound { language } => {
                push_str_chars(&mut out, "No executable path found for language '");
                push_str_chars(&mut out, language.as_str());
                push_str_chars(&mut out, "'. Searched overrides and manifest.");
            },
        }
        chars_to_string(&out)
    }
}

impl BenchmarkError {
    /// The diagnostic text of this error.
    pub fn message(&self) -> (r: String)
        ensures
            r@ == sp_benchmark_error_message(*self),
    {
        let mut out: Vec<char> = Vec::new();
        match self {
            BenchmarkError::CsvParts { parts, line } => {
                push_str_chars(&mut out, "Expected 3 CSV parts, got ");
                push_u64_dec(&mut out, *parts as u64);
                push_str_chars(&mut out, " for line: ");
                push_str_chars(&mut out, line.as_str());
            },
            BenchmarkError::ParseDuration { duration } => {
                push_str_chars(&mut out, "Failed to parse duration '");
                push_str_chars(&mut out, duration.as_str());
                push_str_chars(&mut out, "'");
            },
        }
        chars_to_string(&out)
    }
}

} // verus!
