//! The result-line protocol: parsing `id,functionName,duration` lines and
//! rendering the JSON-lines records the program emits for them.

use vstd::prelude::*;
use crate::command::CommandArgs;
use crate::command::CommandArgsView;
use crate::error::BenchmarkError;
use crate::text::chars_to_string;
use crate::text::join_commas;
use crate::text::parse_u64;
use crate::text::parse_u64_chars;
use crate::text::push_joined_commas;
use crate::text::push_str_chars;
use crate::text::push_u64_dec;
use crate::text::split_commas;
use crate::text::split_commas_exec;
use crate::text::str_chars;
use crate::text::u64_dec;

verus! {

/// Mathematical value of a [`BenchmarkResult`].
pub struct BenchmarkResultView {
    pub id: Seq<char>,
    pub language: Seq<char>,
    pub function_name: Seq<char>,
    pub duration: u64,
}

/// One benchmark measurement: a case id, the pipeline's language, the
/// measured function, and the duration in nanoseconds.
#[derive(Debug)]
pub struct BenchmarkResult {
    pub id: String,
    pub language: String,
    pub function_name: String,
    pub duration: u64,
}

impl View for BenchmarkResult {
    type V = BenchmarkResultView;

    open spec fn view(&self) -> BenchmarkResultView {
        BenchmarkResultView {
            id: self.id@,
            language: self.language@,
            function_name: self.function_name@,
            duration: self.duration,
        }
    }
}

/// Parses one line of the `id,functionName,duration` protocol. The
/// language is the pipeline's, whatever the line holds. A wrong field
/// count or a duration that is not an unsigned 64-bit integer is a local
/// error naming the line.
pub fn parse_native_line(line: &str, language: &str) -> (r: Result<BenchmarkResult, BenchmarkError>)
    ensures
        ({
            let fields = split_commas(line@);
            match r {
                Ok(res) => fields.len() == 3 && parse_u64(fields[2]) is Some && res@
                    == (BenchmarkResultView {
                    id: fields[0],
                    language: language@,
                    function_name: fields[1],
                    duration: parse_u64(fields[2])->Some_0,
                }),
                Err(e) => match e {
                    BenchmarkError::CsvParts { parts, line: l } => fields.len() != 3 && parts
                        == fields.len() && l@ == line@,
                    BenchmarkError::ParseDuration { duration } => fields.len() == 3 && parse_u64(
                        fields[2],
                    ) is None && duration@ == fields[2],
                },
            }
        }),
{
    let v = str_chars(line);
    let parts = split_commas_exec(&v);
    let ghost fields = split_commas(line@);
    proof {
        assert(parts.deep_view() == fields);
        assert(parts@.len() == fields.len());
    }
    if parts.len() != 3 {
        return Err(BenchmarkError::CsvParts { parts: parts.len(), line: line.to_owned() });
    }
    proof {
        assert(parts@[0]@ == fields[0]);
        assert(parts@[1]@ == fields[1]);
        assert(parts@[2]@ == fields[2]);
    }
    let duration = match parse_u64_chars(&parts[2]) {
        Some(d) => d,
        None => {
            return Err(BenchmarkError::ParseDuration { duration: chars_to_string(&parts[2]) });
        },
    };
    let id = chars_to_string(&parts[0]);
    let function_name = chars_to_string(&parts[1]);
    Ok(BenchmarkResult { id, language: language.to_owned(), function_name, duration })
}

/// What one algorithm output line produces.
pub enum LineOutcome {
    /// A well-formed line: exactly one result record is emitted.
    Emit(BenchmarkResult),
    /// A malformed line: it is dropped and exactly one warning is logged.
    Warn(BenchmarkError),
    /// An empty line: neither a result nor a warning.
    Skip,
}

/// Consumes one output line: empty lines produce nothing, well-formed
/// lines exactly one result with the pipeline's language, and malformed
/// lines exactly one warning — never an abort of the stream.
pub fn handle_output_line(line: &str, language: &str) -> (r: LineOutcome)
    ensures
        ({
            let fields = split_commas(line@);
            if line@.len() == 0 {
                r is Skip
            } else {
                match r {
                    LineOutcome::Emit(res) => fields.len() == 3 && parse_u64(fields[2]) is Some
                        && res@ == (BenchmarkResultView {
                        id: fields[0],
                        language: language@,
                        function_name: fields[1],
                        duration: parse_u64(fields[2])->Some_0,
                    }),
                    LineOutcome::Warn(e) => match e {
                        BenchmarkError::CsvParts { parts, line: l } => fields.len() != 3 && parts
                            == fields.len() && l@ == line@,
                        BenchmarkError::ParseDuration { duration } => fields.len() == 3
                            && parse_u64(fields[2]) is None && duration@ == fields[2],
                    },
                    LineOutcome::Skip => false,
                }
            }
        }),
{
    if line.unicode_len() == 0 {
        return LineOutcome::Skip;
    }
    match parse_native_line(line, language) {
        Ok(res) => LineOutcome::Emit(res),
        Err(e) => LineOutcome::Warn(e),
    }
}

/// The lowercase hexadecimal digit for `n < 16`.
pub open spec fn hex_digit_char(n: int) -> char {
    if n == 0 {
        '0'
    } else if n == 1 {
        '1'
    } else if n == 2 {
        '2'
    } else if n == 3 {
        '3'
    } else if n == 4 {
        '4'
    } else if n == 5 {
        '5'
    } else if n == 6 {
        '6'
    } else if n == 7 {
        '7'
    } else if n == 8 {
        '8'
    } else if n == 9 {
        '9'
    } else if n == 10 {
        'a'
    } else if n == 11 {
        'b'
    } else if n == 12 {
        'c'
    } else if n == 13 {
        'd'
    } else if n == 14 {
        'e'
    } else {
        'f'
    }
}

/// How one character is written inside a JSON string: quote and backslash
/// are escaped, control characters by shorthand or `\u00xx`, everything
/// else stands as itself.
pub open spec fn esc_char(c: char) -> Seq<char> {
    if c == '"' {
        seq!['\\', '"']
    } else if c == '\\' {
        seq!['\\', '\\']
    } else if c == '\u{8}' {
        seq!['\\', 'b']
    } else if c == '\t' {
        seq!['\\', 't']
    } else if c == '\n' {
        seq!['\\', 'n']
    } else if c == '\u{c}' {
        seq!['\\', 'f']
    } else if c == '\r' {
        seq!['\\', 'r']
    } else if (c as u32) < 0x20 {
        seq!['\\', 'u', '0', '0', hex_digit_char(c as u32 as int / 16), hex_digit_char(
            c as u32 as int % 16,
        )]
    } else {
        seq![c]
    }
}

/// A string's characters written for a JSON string, in order.
pub open spec fn json_escaped(s: Seq<char>) -> Seq<char>
    decreases s.len(),
{
    if s.len() == 0 {
        Seq::empty()
    } else {
        esc_char(s[0]) + json_escaped(s.drop_first())
    }
}

proof fn lemma_json_escaped_snoc(s: Seq<char>, c: char)
    ensures
        json_escaped(s.push(c)) == json_escaped(s) + esc_char(c),
    decreases s.len(),
{
    if s.len() == 0 {
        reveal_with_fuel(json_escaped, 3);
        assert(s.push(c).drop_first() =~= Seq::<char>::empty());
        assert(s.push(c)[0] == c);
        assert(json_escaped(s.push(c)) == esc_char(c) + json_escaped(Seq::<char>::empty()));
        assert(esc_char(c) + Seq::<char>::empty() =~= esc_char(c));
        assert(json_escaped(s) + esc_char(c) =~= esc_char(c));
    } else {
        assert(s.push(c).drop_first() =~= s.drop_first().push(c));
        lemma_json_escaped_snoc(s.drop_first(), c);
        assert(json_escaped(s.push(c)) =~= json_escaped(s) + esc_char(c));
    }
}

fn hex_digit_exec(n: u32) -> (c: char)
    requires
        n < 16,
    ensures
        c == hex_digit_char(n as int),
{
    match n {
        0 => '0',
        1 => '1',
        2 => '2',
        3 => '3',
        4 => '4',
        5 => '5',
        6 => '6',
        7 => '7',
        8 => '8',
        9 => '9',
        10 => 'a',
        11 => 'b',
        12 => 'c',
        13 => 'd',
        14 => 'e',
        _ => 'f',
    }
}

/// Appends `s` to `out`, escaped for the inside of a JSON string.
fn push_escaped(out: &mut Vec<char>, s: &str)
    ensures
        final(out)@ == old(out)@ + json_escaped(s@),
{
    let n = s.unicode_len();
    let mut i: usize = 0;
    proof {
        assert(s@.take(0) =~= Seq::<char>::empty());
    }
    while i < n
        invariant
            i <= n,
            n == s@.len(),
            out@ == old(out)@ + json_escaped(s@.take(i as int)),
        decreases n - i,
    {
        let c = s.get_char(i);
        if c == '"' {
            out.push('\\');
            out.push('"');
        } else if c == '\\' {
            out.push('\\');
            out.push('\\');
        } else if c == '\u{8}' {
            out.push('\\');
            out.push('b');
        } else if c == '\t' {
            out.push('\\');
            out.push('t');
        } else if c == '\n' {
            out.push('\\');
            out.push('n');
        } else if c == '\u{c}' {
            out.push('\\');
            out.push('f');
        } else if c == '\r' {
            out.push('\\');
            out.push('r');
        } else if (c as u32) < 0x20 {
            out.push('\\');
            out.push('u');
            out.push('0');
            out.push('0');
            out.push(hex_digit_exec((c as u32) / 16));
            out.push(hex_digit_exec((c as u32) % 16));
        } else {
            out.push(c);
        }
        proof {
            assert(s@.take(i as int + 1).drop_last() =~= s@.take(i as int));
            assert(s@.take(i as int) == s@.take(i as int + 1).drop_last());
            lemma_json_escaped_snoc(s@.take(i as int), c);
            assert(s@.take(i as int).push(c) =~= s@.take(i as int + 1));
            assert(out@ =~= old(out)@ + json_escaped(s@.take(i as int + 1)));
        }
        i += 1;
    }
    proof {
        assert(s@.take(n as int) =~= s@);
    }
}

/// The JSON-lines record of one result, byte for byte:
/// `{"id":...,"language":...,"function_name":...,"duration":...}`.
pub open spec fn sp_result_json_line(r: BenchmarkResultView) -> Seq<char> {
    "{\"id\":\""@ + json_escaped(r.id) + "\",\"language\":\""@ + json_escaped(r.language)
        + "\",\"function_name\":\""@ + json_escaped(r.function_name) + "\",\"duration\":"@
        + u64_dec(r.duration) + "}"@
}

impl BenchmarkResult {
    /// The JSON object line emitted for this result. This is the program's
    /// primary machine-readable output and is byte-stable.
    pub fn to_json_line(&self) -> (r: String)
        ensures
            r@ == sp_result_json_line(self@),
    {
        let mut out: Vec<char> = Vec::new();
        push_str_chars(&mut out, "{\"id\":\"");
        push_escaped(&mut out, self.id.as_str());
        push_str_chars(&mut out, "\",\"language\":\"");
        push_escaped(&mut out, self.language.as_str());
        push_str_chars(&mut out, "\",\"function_name\":\"");
        push_escaped(&mut out, self.function_name.as_str());
        push_str_chars(&mut out, "\",\"duration\":");
        push_u64_dec(&mut out, self.duration);
        push_str_chars(&mut out, "}");
        proof {
            assert(out@ =~= sp_result_json_line(self@));
        }
        chars_to_string(&out)
    }
}

/// The argument list the algorithm process is spawned with: the base
/// arguments, then `--functions=<comma-joined function names>`.
pub open spec fn sp_algorithm_invocation(
    cmd: CommandArgsView,
    functions: Seq<Seq<char>>,
) -> CommandArgsView {
    CommandArgsView {
        command: cmd.command,
        args: cmd.args.push("--functions="@ + join_commas(functions)),
    }
}

/// Builds the full invocation of an algorithm component.
pub fn algorithm_invocation(cmd: &CommandArgs, functions: &Vec<String>) -> (r: CommandArgs)
    ensures
        r@ == sp_algorithm_invocation(cmd@, functions.deep_view()),
{
    let mut out = cmd.clone();
    let mut fc: Vec<char> = Vec::new();
    push_str_chars(&mut fc, "--functions=");
    push_joined_commas(&mut fc, functions);
    let ghost prev = out@.args;
    out.args.push(chars_to_string(&fc));
    proof {
        assert(out@.args =~~= prev.push("--functions="@ + join_commas(functions.deep_view())));
    }
    out
}

/// The run's exit is non-zero exactly when some language's pipeline
/// reported a fatal error.
pub fn any_pipeline_failed(failed: &Vec<bool>) -> (r: bool)
    ensures
        r == exists|i: int| 0 <= i < failed@.len() && failed@[i],
{
    let mut i: usize = 0;
    while i < failed.len()
        invariant
            i <= failed@.len(),
            forall|j: int| 0 <= j < i ==> !failed@[j],
        decreases failed@.len() - i,
    {
        if failed[i] {
            return true;
        }
        i += 1;
    }
    false
}

} // verus!
