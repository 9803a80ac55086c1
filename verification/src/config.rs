//! Configuration resolution: the CLI's JSON arguments, the three-tier
//! generator and algorithm resolution, and the fully resolved [`Config`].

use vstd::prelude::*;
use crate::command::CommandArgs;
use crate::command::CommandArgsView;
use crate::error::ConfigError;
use crate::json::sp_string;
use crate::json::sp_str_list;
use crate::json::ws_end;
use crate::manifest::BuildManifest;
use crate::manifest::BuildManifestView;
use crate::maps::pairs_map;
use crate::maps::pairs_view;
use crate::text::str_chars;
use crate::text::u64_dec;

verus! {

/// The map of tasks to run: language name to function names, in argument
/// order.
pub type Algorithms = Vec<(String, Vec<String>)>;

/// The resolved executable commands: language name to command, in task
/// order.
pub type AlgorithmCommandMap = Vec<(String, CommandArgs)>;

/// The run arguments the resolver consumes, as plain values.
#[derive(Debug)]
pub struct RunArgs {
    /// JSON text mapping languages to lists of function names.
    pub algorithms: String,
    /// Seed for the data generator; drawn at random when absent.
    pub seed: Option<u64>,
    /// Generator name; the sentinel "none" runs no generator.
    pub generator: String,
    /// Overrides the generator executable path.
    pub generator_override_path: Option<String>,
    /// JSON text mapping languages to executable path overrides.
    pub algorithm_override_paths: Option<String>,
    /// Where the build manifest was looked for; named in diagnostics.
    pub manifest_path: String,
    /// Extra arguments passed through to the generator.
    pub generator_args: Vec<String>,
}

/// The view of a task list: each language and its function names.
pub open spec fn task_pairs_view(s: Seq<(String, Vec<String>)>) -> Seq<
    (Seq<char>, Seq<Seq<char>>),
> {
    s.map_values(|p: (String, Vec<String>)| (p.0@, p.1.deep_view()))
}

/// The members of a task map object, from the first key at `i`.
pub open spec fn sp_task_members(
    s: Seq<char>,
    i: int,
    acc: Seq<(Seq<char>, Seq<Seq<char>>)>,
) -> Option<(Seq<(Seq<char>, Seq<Seq<char>>)>, int)>
    decreases s.len() - i,
{
    match sp_string(s, i) {
        None => None,
        Some((k, j)) => {
            let j2 = ws_end(s, j);
            if j2 < s.len() && s[j2] == ':' {
                let j3 = ws_end(s, j2 + 1);
                match sp_str_list(s, j3) {
                    None => None,
                    Some((v, j4)) => {
                        let j5 = ws_end(s, j4);
                        if j5 < s.len() && s[j5] == ',' {
                            let nx = ws_end(s, j5 + 1);
                            if i < nx && nx <= s.len() {
                                sp_task_members(s, nx, acc.push((k, v)))
                            } else {
                                None
                            }
                        } else if j5 < s.len() && s[j5] == '}' {
                            Some((acc.push((k, v)), j5 + 1))
                        } else {
                            None
                        }
                    },
                }
            } else {
                None
            }
        },
    }
}

/// The task map text: a JSON object of string keys and arrays of strings,
/// and nothing but whitespace around it.
pub open spec fn sp_task_map(s: Seq<char>) -> Option<Seq<(Seq<char>, Seq<Seq<char>>)>> {
    let i = ws_end(s, 0);
    if i < s.len() && s[i] == '{' {
        let j = ws_end(s, i + 1);
        if j < s.len() && s[j] == '}' {
            if ws_end(s, j + 1) == s.len() {
                Some(Seq::empty())
            } else {
                None
            }
        } else {
            match sp_task_members(s, j, Seq::empty()) {
                None => None,
                Some((m, e)) => if ws_end(s, e) == s.len() {
                    Some(m)
                } else {
                    None
                },
            }
        }
    } else {
        None
    }
}

/// Parses the task map argument; `None` is the parse failure.
pub fn parse_task_map(text: &str) -> (r: Option<Algorithms>)
    ensures
        match r {
            Some(m) => sp_task_map(text@) == Some(task_pairs_view(m@)),
            None => sp_task_map(text@) is None,
        },
{
    let v = str_chars(text);
    let i = crate::json::skip_ws(&v, 0);
    if !(i < v.len() && v[i] == '{') {
        return None;
    }
    let mut p = crate::json::skip_ws(&v, i + 1);
    if p < v.len() && v[p] == '}' {
        let e = crate::json::skip_ws(&v, p + 1);
        if e == v.len() {
            let m: Algorithms = Vec::new();
            proof {
                assert(task_pairs_view(m@) =~~= Seq::<(Seq<char>, Seq<Seq<char>>)>::empty());
            }
            return Some(m);
        } else {
            return None;
        }
    }
    let mut acc: Algorithms = Vec::new();
    proof {
        assert(task_pairs_view(acc@) =~~= Seq::<(Seq<char>, Seq<Seq<char>>)>::empty());
    }
    loop
        invariant
            (i as int) < p && p <= v@.len(),
            i < v@.len(),
            v@ == text@,
            v@[i as int] == '{',
            ws_end(v@, 0) == i as int,
            !(ws_end(v@, i as int + 1) < v@.len() && v@[ws_end(v@, i as int + 1)] == '}'),
            sp_task_members(v@, p as int, task_pairs_view(acc@)) == sp_task_members(
                v@,
                ws_end(v@, i as int + 1),
                Seq::empty(),
            ),
        decreases v@.len() - p,
    {
        let (k, j) = match crate::json::parse_string_at(&v, p) {
            Some(q) => q,
            None => {
                return None;
            },
        };
        let j2 = crate::json::skip_ws(&v, j);
        if !(j2 < v.len() && v[j2] == ':') {
            return None;
        }
        let j3 = crate::json::skip_ws(&v, j2 + 1);
        let (val, j4) = match crate::json::parse_str_list_at(&v, j3) {
            Some(q) => q,
            None => {
                return None;
            },
        };
        let j5 = crate::json::skip_ws(&v, j4);
        let ghost prev = task_pairs_view(acc@);
        let ghost kv = k@;
        let ghost vv = val.deep_view();
        if j5 < v.len() && v[j5] == ',' {
            let nx = crate::json::skip_ws(&v, j5 + 1);
            if !(p < nx) {
                return None;
            }
            acc.push((k, val));
            proof {
                assert(task_pairs_view(acc@) =~~= prev.push((kv, vv)));
            }
            p = nx;
        } else if j5 < v.len() && v[j5] == '}' {
            let e = crate::json::skip_ws(&v, j5 + 1);
            if e != v.len() {
                return None;
            }
            acc.push((k, val));
            proof {
                assert(task_pairs_view(acc@) =~~= prev.push((kv, vv)));
            }
            return Some(acc);
        } else {
            return None;
        }
    }
}

/// The members of an override map object, from the first key at `i`.
pub open spec fn sp_override_members(
    s: Seq<char>,
    i: int,
    acc: Seq<(Seq<char>, Seq<char>)>,
) -> Option<(Seq<(Seq<char>, Seq<char>)>, int)>
    decreases s.len() - i,
{
    match sp_string(s, i) {
        None => None,
        Some((k, j)) => {
            let j2 = ws_end(s, j);
            if j2 < s.len() && s[j2] == ':' {
                let j3 = ws_end(s, j2 + 1);
                match sp_string(s, j3) {
                    None => None,
                    Some((v, j4)) => {
                        let j5 = ws_end(s, j4);
                        if j5 < s.len() && s[j5] == ',' {
                            let nx = ws_end(s, j5 + 1);
                            if i < nx && nx <= s.len() {
                                sp_override_members(s, nx, acc.push((k, v)))
                            } else {
                                None
                            }
                        } else if j5 < s.len() && s[j5] == '}' {
                            Some((acc.push((k, v)), j5 + 1))
                        } else {
                            None
                        }
                    },
                }
            } else {
                None
            }
        },
    }
}

/// The override map text: a JSON object of string keys and string values,
/// and nothing but whitespace around it.
pub open spec fn sp_override_map(s: Seq<char>) -> Option<Seq<(Seq<char>, Seq<char>)>> {
    let i = ws_end(s, 0);
    if i < s.len() && s[i] == '{' {
        let j = ws_end(s, i + 1);
        if j < s.len() && s[j] == '}' {
            if ws_end(s, j + 1) == s.len() {
                Some(Seq::empty())
            } else {
                None
            }
        } else {
            match sp_override_members(s, j, Seq::empty()) {
                None => None,
                Some((m, e)) => if ws_end(s, e) == s.len() {
                    Some(m)
                } else {
                    None
                },
            }
        }
    } else {
        None
    }
}

/// Parses the override map argument; `None` is the parse failure.
pub fn parse_override_map(text: &str) -> (r: Option<Vec<(String, String)>>)
    ensures
        match r {
            Some(m) => sp_override_map(text@) == Some(pairs_view(m@)),
            None => sp_override_map(text@) is None,
        },
{
    let v = str_chars(text);
    let i = crate::json::skip_ws(&v, 0);
    if !(i < v.len() && v[i] == '{') {
        return None;
    }
    let mut p = crate::json::skip_ws(&v, i + 1);
    if p < v.len() && v[p] == '}' {
        let e = crate::json::skip_ws(&v, p + 1);
        if e == v.len() {
            let m: Vec<(String, String)> = Vec::new();
            proof {
                assert(pairs_view(m@) =~~= Seq::<(Seq<char>, Seq<char>)>::empty());
            }
            return Some(m);
        } else {
            return None;
        }
    }
    let mut acc: Vec<(String, String)> = Vec::new();
    proof {
        assert(pairs_view(acc@) =~~= Seq::<(Seq<char>, Seq<char>)>::empty());
    }
    loop
        invariant
            (i as int) < p && p <= v@.len(),
            i < v@.len(),
            v@ == text@,
            v@[i as int] == '{',
            ws_end(v@, 0) == i as int,
            !(ws_end(v@, i as int + 1) < v@.len() && v@[ws_end(v@, i as int + 1)] == '}'),
            sp_override_members(v@, p as int, pairs_view(acc@)) == sp_override_members(
                v@,
                ws_end(v@, i as int + 1),
                Seq::empty(),
            ),
        decreases v@.len() - p,
    {
        let (k, j) = match crate::json::parse_string_at(&v, p) {
            Some(q) => q,
            None => {
                return None;
            },
        };
        let j2 = crate::json::skip_ws(&v, j);
        if !(j2 < v.len() && v[j2] == ':') {
            return None;
        }
        let j3 = crate::json::skip_ws(&v, j2 + 1);
        let (val, j4) = match crate::json::parse_string_at(&v, j3) {
            Some(q) => q,
            None => {
                return None;
            },
        };
        let j5 = crate::json::skip_ws(&v, j4);
        let ghost prev = pairs_view(acc@);
        let ghost kv = k@;
        let ghost vv = val@;
        if j5 < v.len() && v[j5] == ',' {
            let nx = crate::json::skip_ws(&v, j5 + 1);
            if !(p < nx) {
                return None;
            }
            acc.push((k, val));
            proof {
                assert(pairs_view(acc@) =~~= prev.push((kv, vv)));
            }
            p = nx;
        } else if j5 < v.len() && v[j5] == '}' {
            let e = crate::json::skip_ws(&v, j5 + 1);
            if e != v.len() {
                return None;
            }
            acc.push((k, val));
            proof {
                assert(pairs_view(acc@) =~~= prev.push((kv, vv)));
            }
            return Some(acc);
        } else {
            return None;
        }
    }
}

/// The outcome of the three-tier generator resolution, before seeding.
pub enum GenOutcome {
    /// The sentinel name "none": run no generator.
    NoGenerator,
    /// The base command an override path or the manifest supplied.
    Base(CommandArgsView),
    /// A manifest exists but lacks the requested name.
    NotFound,
    /// Neither an override path nor a manifest to resolve from.
    NoManifest,
}

/// The outcome of resolving one language's executable.
pub enum AlgoOutcome {
    /// The command an override or the manifest supplied.
    Cmd(CommandArgsView),
    /// The language is absent from overrides and manifest.
    NotFound,
}

/// The view of an optional string argument.
pub open spec fn opt_string_view(o: Option<String>) -> Option<Seq<char>> {
    match o {
        Some(s) => Some(s@),
        None => None,
    }
}

/// The view of an optionally loaded manifest.
pub open spec fn loaded_manifest_view(m: Option<BuildManifest>) -> Option<BuildManifestView> {
    match m {
        Some(x) => Some(x@),
        None => None,
    }
}

/// Three-tier generator resolution: the sentinel "none" wins over
/// everything, then an override path, then the manifest; with a manifest
/// lacking the name, or with nothing to resolve from, the run fails.
pub open spec fn sp_generator_resolution(
    generator: Seq<char>,
    override_path: Option<Seq<char>>,
    manifest: Option<BuildManifestView>,
) -> GenOutcome {
    if generator == "none"@ {
        GenOutcome::NoGenerator
    } else if override_path is Some {
        GenOutcome::Base(CommandArgsView { command: override_path->Some_0, args: Seq::empty() })
    } else if manifest is Some {
        let m = pairs_map(manifest->Some_0.generators);
        if m.dom().contains(generator) {
            GenOutcome::Base(m[generator])
        } else {
            GenOutcome::NotFound
        }
    } else {
        GenOutcome::NoManifest
    }
}

/// The generator command actually run: the base arguments, then the
/// passthrough arguments, then `--seed=<value>`.
pub open spec fn sp_seeded(base: CommandArgsView, seed: u64, extra: Seq<Seq<char>>) -> CommandArgsView {
    CommandArgsView {
        command: base.command,
        args: base.args + extra + seq!["--seed="@ + u64_dec(seed)],
    }
}

/// The keys of a pair sequence, in order.
pub open spec fn sp_pair_keys(m: Seq<(Seq<char>, CommandArgsView)>) -> Seq<Seq<char>> {
    Seq::new(m.len(), |i: int| m[i].0)
}

/// The generator names a manifest offers, in manifest order.
pub open spec fn sp_gen_names(m: BuildManifestView) -> Seq<Seq<char>> {
    sp_pair_keys(m.generators)
}

/// What `resolve_generator` returns when the seed in force is `sd`:
/// `Ok(None)` exactly for the sentinel, `Ok(Some(_))` exactly when a base
/// command resolves (then seeded), and each error exactly on its
/// tier-three case.
pub open spec fn sp_gen_result_seeded(
    args: RunArgs,
    mv: Option<BuildManifestView>,
    sd: u64,
    r: Result<Option<CommandArgs>, ConfigError>,
) -> bool {
    let out = sp_generator_resolution(
        args.generator@,
        opt_string_view(args.generator_override_path),
        mv,
    );
    match r {
        Ok(ocmd) => match ocmd {
            None => out is NoGenerator,
            Some(c) => out matches GenOutcome::Base(b) && c@ == sp_seeded(
                b,
                sd,
                args.generator_args.deep_view(),
            ),
        },
        Err(e) => match e {
            ConfigError::GeneratorNotFound { generator_name, available } => out is NotFound
                && generator_name@ == args.generator@ && (mv matches Some(m)
                && available.deep_view() == sp_gen_names(m)),
            ConfigError::GeneratorOverrideNoManifest { generator_name, manifest_path } => out
                is NoManifest && generator_name@ == args.generator@ && manifest_path@
                == args.manifest_path@,
            _ => false,
        },
    }
}

/// What `resolve_generator` returns: as `sp_gen_result_seeded`, for some
/// seed, and for the given seed when one was given.
pub open spec fn sp_gen_result(
    args: RunArgs,
    mv: Option<BuildManifestView>,
    r: Result<Option<CommandArgs>, ConfigError>,
) -> bool {
    exists|sd: u64|
        #[trigger] sp_gen_result_seeded(args, mv, sd, r) && (args.seed is Some ==> sd
            == args.seed->Some_0)
}

/// Relies on `rand::random`: a fresh 64-bit value; nothing is promised
/// of it, so callers state what holds for every seed.
#[verifier::external_body]
fn random_u64() -> u64 {
    rand::random()
}

/// The generator names of a manifest, cloned in order.
fn gen_names_exec(pairs: &Vec<(String, CommandArgs)>) -> (r: Vec<String>)
    ensures
        r.deep_view() == sp_pair_keys(pairs_view(pairs@)),
{
    let mut r: Vec<String> = Vec::new();
    let mut i: usize = 0;
    while i < pairs.len()
        invariant
            i <= pairs@.len(),
            r.deep_view() == sp_pair_keys(pairs_view(pairs@)).take(i as int),
        decreases pairs@.len() - i,
    {
        let ghost prev = r.deep_view();
        let p = &pairs[i];
        r.push(p.0.clone());
        proof {
            assert(r.deep_view() =~~= prev.push(pairs_view(pairs@)[i as int].0));
            assert(r.deep_view() =~~= sp_pair_keys(pairs_view(pairs@)).take(i as int + 1));
        }
        i += 1;
    }
    proof {
        assert(sp_pair_keys(pairs_view(pairs@)).take(pairs@.len() as int) =~= sp_pair_keys(
            pairs_view(pairs@),
        ));
    }
    r
}

/// Resolves the generator: the sentinel "none" short-circuits; otherwise an
/// override path wins over the manifest, and the seed (given, or drawn at
/// random) and the passthrough arguments are appended to the base command.
pub fn resolve_generator(args: &RunArgs, manifest: &Option<BuildManifest>) -> (r: Result<
    Option<CommandArgs>,
    ConfigError,
>)
    ensures
        sp_gen_result(*args, loaded_manifest_view(*manifest), r),
{
    if crate::text::str_eq(args.generator.as_str(), "none") {
        proof {
            let sd0: u64 = if args.seed is Some { args.seed->Some_0 } else { 0 };
            assert(sp_gen_result_seeded(*args, loaded_manifest_view(*manifest), sd0, Ok(None)));
        }
        return Ok(None);
    }
    let base: CommandArgs = match &args.generator_override_path {
        Some(path) => {
            let b = CommandArgs { command: path.clone(), args: Vec::new() };
            proof {
                assert(b@.args =~~= Seq::<Seq<char>>::empty());
            }
            b
        },
        None => match manifest {
            Some(m) => match crate::maps::pairs_get(&m.generators, args.generator.as_str()) {
                Some(cmd) => cmd.clone(),
                None => {
                    let err = ConfigError::GeneratorNotFound {
                        generator_name: args.generator.clone(),
                        available: gen_names_exec(&m.generators),
                    };
                    proof {
                        let sd0: u64 = if args.seed is Some { args.seed->Some_0 } else { 0 };
                        assert(sp_gen_result_seeded(
                            *args,
                            loaded_manifest_view(*manifest),
                            sd0,
                            Err(err),
                        ));
                    }
                    return Err(err);
                },
            },
            None => {
                let err = ConfigError::GeneratorOverrideNoManifest {
                    generator_name: args.generator.clone(),
                    manifest_path: args.manifest_path.clone(),
                };
                proof {
                    let sd0: u64 = if args.seed is Some { args.seed->Some_0 } else { 0 };
                    assert(sp_gen_result_seeded(
                        *args,
                        loaded_manifest_view(*manifest),
                        sd0,
                        Err(err),
                    ));
                }
                return Err(err);
            },
        },
    };
    let seed: u64 = match args.seed {
        Some(s) => s,
        None => random_u64(),
    };
    let ghost base_view = base@;
    let CommandArgs { command, args: mut cmd_args } = base;
    proof {
        assert(cmd_args.deep_view() =~~= base_view.args + args.generator_args.deep_view().take(0));
    }
    let mut t: usize = 0;
    while t < args.generator_args.len()
        invariant
            t <= args.generator_args@.len(),
            cmd_args.deep_view() == base_view.args + args.generator_args.deep_view().take(
                t as int,
            ),
        decreases args.generator_args@.len() - t,
    {
        let ghost prev = cmd_args.deep_view();
        cmd_args.push(args.generator_args[t].clone());
        proof {
            assert(cmd_args.deep_view() =~~= prev.push(args.generator_args.deep_view()[t as int]));
            assert(cmd_args.deep_view() =~~= base_view.args
                + args.generator_args.deep_view().take(t as int + 1));
        }
        t += 1;
    }
    let mut seed_chars: Vec<char> = Vec::new();
    crate::text::push_str_chars(&mut seed_chars, "--seed=");
    crate::text::push_u64_dec(&mut seed_chars, seed);
    let ghost prev = cmd_args.deep_view();
    let seed_string = crate::text::chars_to_string(&seed_chars);
    proof {
        assert(seed_string@ == "--seed="@ + u64_dec(seed));
    }
    cmd_args.push(seed_string);
    let out = CommandArgs { command, args: cmd_args };
    proof {
        let extra = args.generator_args.deep_view();
        assert(extra.take(extra.len() as int) =~= extra);
        assert(out@.args =~~= prev.push("--seed="@ + u64_dec(seed)));
        assert(out@.args =~~= base_view.args + extra + seq!["--seed="@ + u64_dec(seed)]);
        assert(out@ == sp_seeded(base_view, seed, extra));
        assert(sp_generator_resolution(
            args.generator@,
            opt_string_view(args.generator_override_path),
            loaded_manifest_view(*manifest),
        ) == GenOutcome::Base(base_view));
        assert(sp_gen_result_seeded(*args, loaded_manifest_view(*manifest), seed, Ok(Some(out))));
        assert(args.seed is Some ==> seed == args.seed->Some_0);
    }
    Ok(Some(out))
}

/// How the override argument parses: `None` is a parse failure, otherwise
/// the override pairs if the argument was given at all.
pub open spec fn sp_overrides_of(arg: Option<String>) -> Option<Option<Seq<(Seq<char>, Seq<char>)>>> {
    match arg {
        None => Some(None),
        Some(text) => match sp_override_map(text@) {
            None => None,
            Some(m) => Some(Some(m)),
        },
    }
}

/// Three-tier algorithm resolution for one language: an override entry
/// wins, then the manifest, and otherwise the language is unresolved.
pub open spec fn sp_algo_resolution(
    lang: Seq<char>,
    overrides: Option<Seq<(Seq<char>, Seq<char>)>>,
    manifest: Option<BuildManifestView>,
) -> AlgoOutcome {
    if overrides is Some && pairs_map(overrides->Some_0).dom().contains(lang) {
        AlgoOutcome::Cmd(
            CommandArgsView { command: pairs_map(overrides->Some_0)[lang], args: Seq::empty() },
        )
    } else if manifest is Some && pairs_map(manifest->Some_0.algorithm_executables).dom().contains(
        lang,
    ) {
        AlgoOutcome::Cmd(pairs_map(manifest->Some_0.algorithm_executables)[lang])
    } else {
        AlgoOutcome::NotFound
    }
}

/// Every requested language resolved, in task order.
pub open spec fn sp_algos_ok(
    tv: Seq<(Seq<char>, Seq<Seq<char>>)>,
    ov: Option<Seq<(Seq<char>, Seq<char>)>>,
    mv: Option<BuildManifestView>,
    cmds: Seq<(Seq<char>, CommandArgsView)>,
) -> bool {
    &&& cmds.len() == tv.len()
    &&& forall|i: int|
        0 <= i < tv.len() ==> #[trigger] cmds[i].0 == tv[i].0 && sp_algo_resolution(tv[i].0, ov, mv)
            == AlgoOutcome::Cmd(cmds[i].1)
}

/// What `resolve_algorithms` returns, for every input: `Ok` exactly when
/// the override argument parses and every language resolves; the error
/// names the first language that does not.
pub open spec fn sp_algos_result(
    opaths: Option<String>,
    tv: Seq<(Seq<char>, Seq<Seq<char>>)>,
    mv: Option<BuildManifestView>,
    r: Result<AlgorithmCommandMap, ConfigError>,
) -> bool {
    match r {
        Ok(cmds) => sp_overrides_of(opaths) matches Some(ov) && sp_algos_ok(
            tv,
            ov,
            mv,
            pairs_view(cmds@),
        ),
        Err(e) => match e {
            ConfigError::ParseAlgoOverrideJson => sp_overrides_of(opaths) is None,
            ConfigError::AlgoExecutableNotFound { language } => sp_overrides_of(opaths) matches Some(
                ov,
            ) && (exists|i: int|
                {
                    &&& 0 <= i < tv.len()
                    &&& language@ == #[trigger] tv[i].0
                    &&& sp_algo_resolution(tv[i].0, ov, mv) is NotFound
                    &&& forall|j: int|
                        0 <= j < i ==> #[trigger] sp_algo_resolution(tv[j].0, ov, mv) is Cmd
                }),
            _ => false,
        },
    }
}

/// When the scan stops at an unresolved language, it is the first one.
proof fn lemma_first_unresolved(
    tv: Seq<(Seq<char>, Seq<Seq<char>>)>,
    ov: Option<Seq<(Seq<char>, Seq<char>)>>,
    mv: Option<BuildManifestView>,
    done: Seq<(Seq<char>, CommandArgsView)>,
    i: int,
    lang: Seq<char>,
)
    requires
        0 <= i < tv.len(),
        done.len() == i,
        tv[i].0 == lang,
        sp_algo_resolution(lang, ov, mv) is NotFound,
        forall|k: int|
            0 <= k < i ==> #[trigger] done[k].0 == tv[k].0 && sp_algo_resolution(tv[k].0, ov, mv)
                == AlgoOutcome::Cmd(done[k].1),
    ensures
        exists|ii: int|
            {
                &&& 0 <= ii < tv.len()
                &&& lang == #[trigger] tv[ii].0
                &&& sp_algo_resolution(tv[ii].0, ov, mv) is NotFound
                &&& forall|j: int|
                    0 <= j < ii ==> #[trigger] sp_algo_resolution(tv[j].0, ov, mv) is Cmd
            },
{
    assert forall|j: int| 0 <= j < i implies #[trigger] sp_algo_resolution(tv[j].0, ov, mv)
        is Cmd by {
        assert(done[j].0 == tv[j].0);
    }
    assert({
        &&& 0 <= i < tv.len()
        &&& lang == tv[i].0
        &&& sp_algo_resolution(tv[i].0, ov, mv) is NotFound
        &&& forall|j: int| 0 <= j < i ==> #[trigger] sp_algo_resolution(tv[j].0, ov, mv) is Cmd
    });
}

/// Resolves every requested language's executable, override first, then
/// manifest; the whole run fails on the first language that resolves
/// nowhere, before anything spawns.
pub fn resolve_algorithms(
    args: &RunArgs,
    tasks: &Algorithms,
    manifest: &Option<BuildManifest>,
) -> (r: Result<AlgorithmCommandMap, ConfigError>)
    ensures
        sp_algos_result(
            args.algorithm_override_paths,
            task_pairs_view(tasks@),
            loaded_manifest_view(*manifest),
            r,
        ),
{
    let ghost tv = task_pairs_view(tasks@);
    let ghost mv = loaded_manifest_view(*manifest);
    let override_map: Option<Vec<(String, String)>> = match &args.algorithm_override_paths {
        Some(text) => match parse_override_map(text.as_str()) {
            Some(m) => Some(m),
            None => {
                return Err(ConfigError::ParseAlgoOverrideJson);
            },
        },
        None => None,
    };
    let ghost ov = match override_map {
        Some(ref m) => Some(pairs_view(m@)),
        None => None,
    };
    let mut resolved: AlgorithmCommandMap = Vec::new();
    let mut i: usize = 0;
    proof {
        assert(pairs_view(resolved@) =~~= Seq::<(Seq<char>, CommandArgsView)>::empty());
    }
    while i < tasks.len()
        invariant
            i <= tasks@.len(),
            tv == task_pairs_view(tasks@),
            mv == loaded_manifest_view(*manifest),
            sp_overrides_of(args.algorithm_override_paths) == Some(ov),
            match override_map {
                Some(ref m) => ov == Some(pairs_view(m@)),
                None => ov is None,
            },
            pairs_view(resolved@).len() == i,
            forall|k: int|
                0 <= k < i ==> #[trigger] pairs_view(resolved@)[k].0 == tv[k].0
                    && sp_algo_resolution(tv[k].0, ov, mv) == AlgoOutcome::Cmd(
                    pairs_view(resolved@)[k].1,
                ),
        decreases tasks@.len() - i,
    {
        let task = &tasks[i];
        let lang = &task.0;
        let ghost prev = pairs_view(resolved@);
        let from_override: Option<CommandArgs> = match &override_map {
            Some(m) => match crate::maps::pairs_get(m, lang.as_str()) {
                Some(path) => {
                    let oc = CommandArgs { command: path.clone(), args: Vec::new() };
                    proof {
                        assert(oc@.args =~~= Seq::<Seq<char>>::empty());
                    }
                    Some(oc)
                },
                None => None,
            },
            None => None,
        };
        let cmd: CommandArgs = match from_override {
            Some(c) => c,
            None => match manifest {
                Some(m) => match crate::maps::pairs_get(&m.algorithm_executables, lang.as_str()) {
                    Some(c) => c.clone(),
                    None => {
                        proof {
                            lemma_first_unresolved(tv, ov, mv, pairs_view(resolved@), i as int, lang@);
                        }
                        return Err(
                            ConfigError::AlgoExecutableNotFound { language: lang.clone() },
                        );
                    },
                },
                None => {
                    proof {
                        lemma_first_unresolved(tv, ov, mv, pairs_view(resolved@), i as int, lang@);
                    }
                    return Err(ConfigError::AlgoExecutableNotFound { language: lang.clone() });
                },
            },
        };
        proof {
            assert(tv[i as int].0 == lang@);
            assert(sp_algo_resolution(tv[i as int].0, ov, mv) == AlgoOutcome::Cmd(cmd@));
        }
        resolved.push((lang.clone(), cmd));
        proof {
            assert(pairs_view(resolved@) =~~= prev.push((lang@, cmd@)));
        }
        i += 1;
    }
    proof {
        assert(sp_algos_ok(tv, ov, mv, pairs_view(resolved@)));
    }
    Ok(resolved)
}

/// How the manifest text loads: `None` is the parse failure, `Some(None)`
/// is no manifest file, `Some(Some(v))` the parsed manifest.
pub open spec fn sp_loaded_manifest(t: Option<Seq<char>>) -> Option<Option<BuildManifestView>> {
    match t {
        None => Some(None),
        Some(s) => match crate::manifest::sp_manifest(s) {
            None => None,
            Some(m) => Some(Some(m)),
        },
    }
}

/// The view of the optional manifest text.
pub open spec fn opt_text_view(t: Option<&str>) -> Option<Seq<char>> {
    match t {
        Some(s) => Some(s@),
        None => None,
    }
}

/// The fully resolved configuration for a benchmark run: built once,
/// immutable thereafter.
#[derive(Debug)]
pub struct Config {
    /// The resolved generator command, or `None` for the sentinel "none".
    pub generator_command: Option<CommandArgs>,

    /// The resolved command of each requested language, in task order.
    pub algorithm_commands: AlgorithmCommandMap,

    /// The tasks to run: each language and its function names.
    pub algorithms: Algorithms,
}

impl Config {
    /// Resolution is all-or-nothing: every requested language has a
    /// resolved command before anything spawns.
    pub open spec fn wf(&self) -> bool {
        forall|i: int|
            0 <= i < self.algorithms@.len() ==> pairs_map(
                pairs_view(self.algorithm_commands@),
            ).dom().contains(#[trigger] task_pairs_view(self.algorithms@)[i].0)
    }

    /// The resolved command for a language, if the tasks requested it.
    pub fn command_for(&self, language: &str) -> (r: Option<&CommandArgs>)
        ensures
            match r {
                Some(c) => pairs_map(pairs_view(self.algorithm_commands@)).dom().contains(
                    language@,
                ) && c@ == pairs_map(pairs_view(self.algorithm_commands@))[language@],
                None => !pairs_map(pairs_view(self.algorithm_commands@)).dom().contains(language@),
            },
    {
        crate::maps::pairs_get(&self.algorithm_commands, language)
    }

    /// Resolves a full run configuration from the arguments and the
    /// manifest file's text, if one was found. Fails, before anything
    /// spawns, on a malformed manifest, a malformed task map or override
    /// map, and on any generator or language that resolves nowhere.
    pub fn resolve(args: &RunArgs, manifest_text: Option<&str>) -> (r: Result<Config, ConfigError>)
        ensures
            ({
                let mtv = opt_text_view(manifest_text);
                match r {
                    Ok(cfg) => sp_loaded_manifest(mtv) matches Some(mv) && (sp_task_map(
                        args.algorithms@,
                    ) matches Some(tv) && {
                        &&& task_pairs_view(cfg.algorithms@) == tv
                        &&& sp_gen_result(*args, mv, Ok(cfg.generator_command))
                        &&& sp_algos_result(
                            args.algorithm_override_paths,
                            tv,
                            mv,
                            Ok(cfg.algorithm_commands),
                        )
                        &&& cfg.wf()
                    }),
                    Err(e) => match e {
                        ConfigError::ParseManifest => sp_loaded_manifest(mtv) is None,
                        ConfigError::ParseAlgorithmsJson => sp_loaded_manifest(mtv) is Some
                            && sp_task_map(args.algorithms@) is None,
                        ConfigError::GeneratorNotFound { .. } => sp_loaded_manifest(mtv) matches Some(
                            mv,
                        ) && sp_task_map(args.algorithms@) is Some && sp_gen_result(
                            *args,
                            mv,
                            Err(e),
                        ),
                        ConfigError::GeneratorOverrideNoManifest { .. } => sp_loaded_manifest(mtv)
                            matches Some(mv) && sp_task_map(args.algorithms@) is Some
                            && sp_gen_result(*args, mv, Err(e)),
                        ConfigError::ParseAlgoOverrideJson => sp_loaded_manifest(mtv) matches Some(
                            mv,
                        ) && (sp_task_map(args.algorithms@) matches Some(tv) && (exists|gc:
                            Option<CommandArgs>| sp_gen_result(*args, mv, Ok(gc)))
                            && sp_algos_result(
                            args.algorithm_override_paths,
                            tv,
                            mv,
                            Err(e),
                        )),
                        ConfigError::AlgoExecutableNotFound { .. } => sp_loaded_manifest(mtv)
                            matches Some(mv) && (sp_task_map(args.algorithms@) matches Some(tv)
                            && (exists|gc: Option<CommandArgs>| sp_gen_result(*args, mv, Ok(gc)))
                            && sp_algos_result(
                            args.algorithm_override_paths,
                            tv,
                            mv,
                            Err(e),
                        )),
                    },
                }
            }),
    {
        let manifest: Option<BuildManifest> = match manifest_text {
            Some(t) => match crate::manifest::parse_manifest(t) {
                Some(m) => Some(m),
                None => {
                    return Err(ConfigError::ParseManifest);
                },
            },
            None => None,
        };
        let algorithms = match parse_task_map(args.algorithms.as_str()) {
            Some(t) => t,
            None => {
                return Err(ConfigError::ParseAlgorithmsJson);
            },
        };
        let generator_command = match resolve_generator(args, &manifest) {
            Ok(g) => g,
            Err(e) => {
                return Err(e);
            },
        };
        let algorithm_commands = match resolve_algorithms(args, &algorithms, &manifest) {
            Ok(c) => c,
            Err(e) => {
                proof {
                    let mv = loaded_manifest_view(manifest);
                    assert(exists|gc: Option<CommandArgs>| sp_gen_result(*args, mv, Ok(gc))) by {
                        assert(sp_gen_result(*args, mv, Ok(generator_command)));
                    }
                }
                return Err(e);
            },
        };
        let cfg = Config { generator_command, algorithm_commands, algorithms };
        proof {
            let tv = task_pairs_view(cfg.algorithms@);
            let cv = pairs_view(cfg.algorithm_commands@);
            assert forall|i: int| 0 <= i < cfg.algorithms@.len() implies pairs_map(cv).dom()
                .contains(#[trigger] task_pairs_view(cfg.algorithms@)[i].0) by {
                assert(cv[i].0 == tv[i].0);
                crate::maps::lemma_pairs_map_dom(cv, tv[i].0);
            }
        }
        Ok(cfg)
    }
}

/// An override path for a language always wins over a manifest entry for
/// the same key: with the language in the override map, resolution is the
/// override path with no arguments, whatever any manifest holds.
pub proof fn lemma_algo_override_wins(
    lang: Seq<char>,
    ov: Seq<(Seq<char>, Seq<char>)>,
    mv: Option<BuildManifestView>,
)
    requires
        pairs_map(ov).dom().contains(lang),
    ensures
        sp_algo_resolution(lang, Some(ov), mv) == AlgoOutcome::Cmd(
            CommandArgsView { command: pairs_map(ov)[lang], args: Seq::empty() },
        ),
{
}

/// An override path for the generator always wins over a manifest entry:
/// with an override path given (and no sentinel), the base command is that
/// path with no arguments, whatever any manifest holds.
pub proof fn lemma_generator_override_wins(
    generator: Seq<char>,
    path: Seq<char>,
    mv: Option<BuildManifestView>,
)
    requires
        generator != "none"@,
    ensures
        sp_generator_resolution(generator, Some(path), mv) == GenOutcome::Base(
            CommandArgsView { command: path, args: Seq::empty() },
        ),
{
}

/// The sentinel `"none"` always resolves to "no generator", regardless of
/// any supplied override path or manifest (and so of any seed or
/// passthrough arguments, which only a resolved generator receives).
pub proof fn lemma_generator_none(override_path: Option<Seq<char>>, mv: Option<BuildManifestView>)
    ensures
        sp_generator_resolution("none"@, override_path, mv) is NoGenerator,
{
}

/// Task maps are order-independent: two task lists that request the same
/// language resolve it to the same command, wherever the entry stands.
pub proof fn lemma_resolution_order_independent(
    tv1: Seq<(Seq<char>, Seq<Seq<char>>)>,
    tv2: Seq<(Seq<char>, Seq<Seq<char>>)>,
    ov: Option<Seq<(Seq<char>, Seq<char>)>>,
    mv: Option<BuildManifestView>,
    cmds1: Seq<(Seq<char>, CommandArgsView)>,
    cmds2: Seq<(Seq<char>, CommandArgsView)>,
    i: int,
    j: int,
)
    requires
        sp_algos_ok(tv1, ov, mv, cmds1),
        sp_algos_ok(tv2, ov, mv, cmds2),
        0 <= i < tv1.len(),
        0 <= j < tv2.len(),
        tv1[i].0 == tv2[j].0,
    ensures
        cmds1[i].1 == cmds2[j].1,
{
    assert(cmds1[i].0 == tv1[i].0);
    assert(cmds2[j].0 == tv2[j].0);
}

/// A language absent from both the override map and the manifest resolves
/// nowhere, so the whole run fails before anything spawns.
pub proof fn lemma_absent_language_fails(
    lang: Seq<char>,
    ov: Option<Seq<(Seq<char>, Seq<char>)>>,
    mv: Option<BuildManifestView>,
)
    requires
        ov is Some ==> !pairs_map(ov->Some_0).dom().contains(lang),
        mv is Some ==> !pairs_map(mv->Some_0.algorithm_executables).dom().contains(lang),
    ensures
        sp_algo_resolution(lang, ov, mv) is NotFound,
{
}

/// A resolution note: an input that has no effect this run.
#[derive(Debug, Clone, Copy, PartialEq, Eq, Structural)]
pub enum ResolveWarning {
    /// The sentinel "none" is set, so the override path is ignored.
    IgnoredOverridePath,
    /// The sentinel "none" is set, so trailing generator arguments are
    /// ignored.
    IgnoredGeneratorArgs,
    /// The sentinel "none" is set, so the seed is ignored.
    IgnoredSeed,
}

/// The warnings generator resolution emits: when no generator runs, a
/// supplied override path, passthrough arguments, or seed each draw
/// exactly one warning, in that order; otherwise none.
pub open spec fn sp_generator_warnings(args: RunArgs) -> Seq<ResolveWarning> {
    if args.generator@ != "none"@ {
        Seq::empty()
    } else {
        (if args.generator_override_path is Some {
            seq![ResolveWarning::IgnoredOverridePath]
        } else {
            Seq::empty()
        }) + (if args.generator_args.len() > 0 {
            seq![ResolveWarning::IgnoredGeneratorArgs]
        } else {
            Seq::empty()
        }) + (if args.seed is Some {
            seq![ResolveWarning::IgnoredSeed]
        } else {
            Seq::empty()
        })
    }
}

/// The inputs that resolution ignores, each with one warning.
pub fn generator_warnings(args: &RunArgs) -> (r: Vec<ResolveWarning>)
    ensures
        r@ == sp_generator_warnings(*args),
{
    let mut r: Vec<ResolveWarning> = Vec::new();
    if !crate::text::str_eq(args.generator.as_str(), "none") {
        proof {
            assert(r@ =~= sp_generator_warnings(*args));
        }
        return r;
    }
    if args.generator_override_path.is_some() {
        r.push(ResolveWarning::IgnoredOverridePath);
    }
    if args.generator_args.len() > 0 {
        r.push(ResolveWarning::IgnoredGeneratorArgs);
    }
    if args.seed.is_some() {
        r.push(ResolveWarning::IgnoredSeed);
    }
    proof {
        assert(r@ =~= sp_generator_warnings(*args));
    }
    r
}

impl ResolveWarning {
    /// The diagnostic text of this warning.
    pub fn message(&self) -> (r: String)
        ensures
            r@ == (match *self {
                ResolveWarning::IgnoredOverridePath => "--generator=none is set, so --generator-override-path will be ignored."@,
                ResolveWarning::IgnoredGeneratorArgs => "--generator=none is set, so trailing generator arguments will be ignored."@,
                ResolveWarning::IgnoredSeed => "--generator=none is set, so --seed will be ignored."@,
            }),
    {
        match self {
            ResolveWarning::IgnoredOverridePath => {
                let mut out: Vec<char> = Vec::new();
                crate::text::push_str_chars(
                    &mut out,
                    "--generator=none is set, so --generator-override-path will be ignored.",
                );
                crate::text::chars_to_string(&out)
            },
            ResolveWarning::IgnoredGeneratorArgs => {
                let mut out: Vec<char> = Vec::new();
                crate::text::push_str_chars(
                    &mut out,
                    "--generator=none is set, so trailing generator arguments will be ignored.",
                );
                crate::text::chars_to_string(&out)
            },
            ResolveWarning::IgnoredSeed => {
                let mut out: Vec<char> = Vec::new();
                crate::text::push_str_chars(
                    &mut out,
                    "--generator=none is set, so --seed will be ignored.",
                );
                crate::text::chars_to_string(&out)
            },
        }
    }
}

} // verus!
