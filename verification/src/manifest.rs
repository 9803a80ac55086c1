//! The persisted build manifest: a JSON file mapping generator names and
//! language names to runnable commands.
//!
//! The format is
//! `{"generators":{name:spec,...},"algorithm_executables":{lang:spec,...}}`
//! with `spec = {"command":path,"args":[string,...]}`, the two top keys in
//! either order, and `"args"` omittable. `sp_manifest` is the definition of
//! the format; `parse_manifest` is proved to return exactly what it says.

use vstd::prelude::*;
use crate::command::CommandArgs;
use crate::command::CommandArgsView;
use crate::json::sp_string;
use crate::json::sp_str_list;
use crate::json::ws_end;
use crate::maps::pairs_view;
use crate::text::str_chars;
use crate::text::str_eq;

verus! {

/// Mathematical value of a [`BuildManifest`].
pub struct BuildManifestView {
    pub generators: Seq<(Seq<char>, CommandArgsView)>,
    pub algorithm_executables: Seq<(Seq<char>, CommandArgsView)>,
}

/// The build manifest: what the external build step wrote out and a run
/// reads back. Pair order follows the file; later duplicates win on lookup.
#[derive(Debug)]
pub struct BuildManifest {
    /// Generator names and their runnable commands.
    pub generators: Vec<(String, CommandArgs)>,

    /// Language names and their runnable algorithm commands.
    pub algorithm_executables: Vec<(String, CommandArgs)>,
}

impl View for BuildManifest {
    type V = BuildManifestView;

    open spec fn view(&self) -> BuildManifestView {
        BuildManifestView {
            generators: pairs_view(self.generators@),
            algorithm_executables: pairs_view(self.algorithm_executables@),
        }
    }
}

/// The state of a CommandSpec object scan: the fields seen so far.
pub open spec fn sp_cmd_members(
    s: Seq<char>,
    i: int,
    cmd: Option<Seq<char>>,
    args: Option<Seq<Seq<char>>>,
) -> Option<((Option<Seq<char>>, Option<Seq<Seq<char>>>), int)>
    decreases s.len() - i, 1int,
{
    match sp_string(s, i) {
        None => None,
        Some((k, j)) => {
            let j2 = ws_end(s, j);
            if j2 < s.len() && s[j2] == ':' {
                let j3 = ws_end(s, j2 + 1);
                if k == "command"@ {
                    if cmd is Some {
                        None
                    } else {
                        match sp_string(s, j3) {
                            None => None,
                            Some((val, j4)) => sp_cmd_member_tail(s, i, j4, Some(val), args),
                        }
                    }
                } else if k == "args"@ {
                    if args is Some {
                        None
                    } else {
                        match sp_str_list(s, j3) {
                            None => None,
                            Some((val, j4)) => sp_cmd_member_tail(s, i, j4, cmd, Some(val)),
                        }
                    }
                } else {
                    None
                }
            } else {
                None
            }
        },
    }
}

/// After one member of a CommandSpec object: a comma continues the scan,
/// a closing brace ends it.
pub open spec fn sp_cmd_member_tail(
    s: Seq<char>,
    i: int,
    j: int,
    cmd: Option<Seq<char>>,
    args: Option<Seq<Seq<char>>>,
) -> Option<((Option<Seq<char>>, Option<Seq<Seq<char>>>), int)>
    decreases s.len() - i, 0int,
{
    let j2 = ws_end(s, j);
    if j2 < s.len() && s[j2] == ',' {
        let nx = ws_end(s, j2 + 1);
        if i < nx && nx <= s.len() {
            sp_cmd_members(s, nx, cmd, args)
        } else {
            None
        }
    } else if j2 < s.len() && s[j2] == '}' {
        Some(((cmd, args), j2 + 1))
    } else {
        None
    }
}

/// A CommandSpec object at `i` (at the opening brace): `"command"` is
/// required, `"args"` defaults to no arguments, no other member is known.
pub open spec fn sp_cmd_obj(s: Seq<char>, i: int) -> Option<(CommandArgsView, int)> {
    if 0 <= i < s.len() && s[i] == '{' {
        let j = ws_end(s, i + 1);
        match sp_cmd_members(s, j, None, None) {
            None => None,
            Some(((cmd, args), e)) => match cmd {
                None => None,
                Some(c) => Some(
                    (
                        CommandArgsView {
                            command: c,
                            args: match args {
                                Some(a) => a,
                                None => Seq::empty(),
                            },
                        },
                        e,
                    ),
                ),
            },
        }
    } else {
        None
    }
}

/// The members of an object of CommandSpecs, from the first key at `i`.
pub open spec fn sp_cmd_map_members(
    s: Seq<char>,
    i: int,
    acc: Seq<(Seq<char>, CommandArgsView)>,
) -> Option<(Seq<(Seq<char>, CommandArgsView)>, int)>
    decreases s.len() - i,
{
    match sp_string(s, i) {
        None => None,
        Some((k, j)) => {
            let j2 = ws_end(s, j);
            if j2 < s.len() && s[j2] == ':' {
                let j3 = ws_end(s, j2 + 1);
                match sp_cmd_obj(s, j3) {
                    None => None,
                    Some((c, j4)) => {
                        let j5 = ws_end(s, j4);
                        if j5 < s.len() && s[j5] == ',' {
                            let nx = ws_end(s, j5 + 1);
                            if i < nx && nx <= s.len() {
                                sp_cmd_map_members(s, nx, acc.push((k, c)))
                            } else {
                                None
                            }
                        } else if j5 < s.len() && s[j5] == '}' {
                            Some((acc.push((k, c)), j5 + 1))
                        } else {
                            None
                        }
                    },
                }
            } else {
                None
            }
        },
    }
}

/// An object of CommandSpecs at `i` (at the opening brace).
pub open spec fn sp_cmd_map(s: Seq<char>, i: int) -> Option<(Seq<(Seq<char>, CommandArgsView)>, int)> {
    if 0 <= i < s.len() && s[i] == '{' {
        let j = ws_end(s, i + 1);
        if j < s.len() && s[j] == '}' {
            Some((Seq::empty(), j + 1))
        } else {
            sp_cmd_map_members(s, j, Seq::empty())
        }
    } else {
        None
    }
}

/// One top-level manifest member: a key and its object of CommandSpecs.
pub open spec fn sp_manifest_kv(s: Seq<char>, i: int) -> Option<
    ((Seq<char>, Seq<(Seq<char>, CommandArgsView)>), int),
> {
    match sp_string(s, i) {
        None => None,
        Some((k, j)) => {
            let j2 = ws_end(s, j);
            if j2 < s.len() && s[j2] == ':' {
                match sp_cmd_map(s, ws_end(s, j2 + 1)) {
                    None => None,
                    Some((m, e)) => Some(((k, m), e)),
                }
            } else {
                None
            }
        },
    }
}

/// The whole manifest text: an object holding exactly the members
/// `"generators"` and `"algorithm_executables"`, in either order, and
/// nothing but whitespace around it.
pub open spec fn sp_manifest(s: Seq<char>) -> Option<BuildManifestView> {
    let i = ws_end(s, 0);
    if i < s.len() && s[i] == '{' {
        let j = ws_end(s, i + 1);
        match sp_manifest_kv(s, j) {
            None => None,
            Some(((k1, m1), e1)) => {
                let p = ws_end(s, e1);
                if p < s.len() && s[p] == ',' {
                    match sp_manifest_kv(s, ws_end(s, p + 1)) {
                        None => None,
                        Some(((k2, m2), e2)) => {
                            let q = ws_end(s, e2);
                            if q < s.len() && s[q] == '}' && ws_end(s, q + 1) == s.len() {
                                if k1 == "generators"@ && k2 == "algorithm_executables"@ {
                                    Some(
                                        BuildManifestView {
                                            generators: m1,
                                            algorithm_executables: m2,
                                        },
                                    )
                                } else if k1 == "algorithm_executables"@ && k2 == "generators"@ {
                                    Some(
                                        BuildManifestView {
                                            generators: m2,
                                            algorithm_executables: m1,
                                        },
                                    )
                                } else {
                                    None
                                }
                            } else {
                                None
                            }
                        },
                    }
                } else {
                    None
                }
            },
        }
    } else {
        None
    }
}

/// The view of an optional string.
pub open spec fn opt_str_view(o: Option<String>) -> Option<Seq<char>> {
    match o {
        Some(s) => Some(s@),
        None => None,
    }
}

/// The view of an optional vector of strings.
pub open spec fn opt_list_view(o: Option<Vec<String>>) -> Option<Seq<Seq<char>>> {
    match o {
        Some(v) => Some(v.deep_view()),
        None => None,
    }
}

/// Parses the CommandSpec object at `start`.
fn parse_cmd_obj_at(v: &Vec<char>, start: usize) -> (r: Option<(CommandArgs, usize)>)
    requires
        start <= v@.len(),
    ensures
        match r {
            Some((c, j)) => sp_cmd_obj(v@, start as int) == Some((c@, j as int)) && start < j
                <= v@.len(),
            None => sp_cmd_obj(v@, start as int) is None,
        },
{
    if start >= v.len() || v[start] != '{' {
        return None;
    }
    let mut i = crate::json::skip_ws(v, start + 1);
    let mut cmd: Option<String> = None;
    let mut args: Option<Vec<String>> = None;
    loop
        invariant
            (start as int) < i && i <= v@.len(),
            start < v@.len(),
            v@[start as int] == '{',
            sp_cmd_members(v@, i as int, opt_str_view(cmd), opt_list_view(args)) == sp_cmd_members(
                v@,
                ws_end(v@, start as int + 1),
                None,
                None,
            ),
        decreases v@.len() - i,
    {
        let (k, j) = match crate::json::parse_string_at(v, i) {
            Some(p) => p,
            None => {
                return None;
            },
        };
        let j2 = crate::json::skip_ws(v, j);
        if !(j2 < v.len() && v[j2] == ':') {
            return None;
        }
        let j3 = crate::json::skip_ws(v, j2 + 1);
        proof {
            reveal_strlit("command");
            reveal_strlit("args");
        }
        let j4: usize;
        if str_eq(k.as_str(), "command") {
            if cmd.is_some() {
                return None;
            }
            let (val, jj) = match crate::json::parse_string_at(v, j3) {
                Some(p) => p,
                None => {
                    return None;
                },
            };
            cmd = Some(val);
            j4 = jj;
        } else if str_eq(k.as_str(), "args") {
            if args.is_some() {
                return None;
            }
            let (val, jj) = match crate::json::parse_str_list_at(v, j3) {
                Some(p) => p,
                None => {
                    return None;
                },
            };
            args = Some(val);
            j4 = jj;
        } else {
            return None;
        }
        let j5 = crate::json::skip_ws(v, j4);
        if j5 < v.len() && v[j5] == ',' {
            let nx = crate::json::skip_ws(v, j5 + 1);
            if !(i < nx) {
                return None;
            }
            i = nx;
        } else if j5 < v.len() && v[j5] == '}' {
            let c = match cmd {
                Some(c) => c,
                None => {
                    return None;
                },
            };
            let a = match args {
                Some(a) => a,
                None => {
                    let empty_args: Vec<String> = Vec::new();
                    proof {
                        assert(empty_args.deep_view() =~~= Seq::<Seq<char>>::empty());
                    }
                    empty_args
                },
            };
            let out = CommandArgs { command: c, args: a };
            return Some((out, j5 + 1));
        } else {
            return None;
        }
    }
}

/// Parses the object of CommandSpecs at `start`.
fn parse_cmd_map_at(v: &Vec<char>, start: usize) -> (r: Option<(Vec<(String, CommandArgs)>, usize)>)
    requires
        start <= v@.len(),
    ensures
        match r {
            Some((m, j)) => sp_cmd_map(v@, start as int) == Some((pairs_view(m@), j as int))
                && start < j <= v@.len(),
            None => sp_cmd_map(v@, start as int) is None,
        },
{
    if start >= v.len() || v[start] != '{' {
        return None;
    }
    let mut i = crate::json::skip_ws(v, start + 1);
    if i < v.len() && v[i] == '}' {
        let m: Vec<(String, CommandArgs)> = Vec::new();
        proof {
            assert(pairs_view(m@) =~~= Seq::<(Seq<char>, CommandArgsView)>::empty());
        }
        return Some((m, i + 1));
    }
    let mut acc: Vec<(String, CommandArgs)> = Vec::new();
    proof {
        assert(pairs_view(acc@) =~~= Seq::<(Seq<char>, CommandArgsView)>::empty());
    }
    loop
        invariant
            (start as int) < i && i <= v@.len(),
            start < v@.len(),
            v@[start as int] == '{',
            sp_cmd_map_members(v@, i as int, pairs_view(acc@)) == sp_cmd_map(v@, start as int),
        decreases v@.len() - i,
    {
        let (k, j) = match crate::json::parse_string_at(v, i) {
            Some(p) => p,
            None => {
                return None;
            },
        };
        let j2 = crate::json::skip_ws(v, j);
        if !(j2 < v.len() && v[j2] == ':') {
            return None;
        }
        let j3 = crate::json::skip_ws(v, j2 + 1);
        let (c, j4) = match parse_cmd_obj_at(v, j3) {
            Some(p) => p,
            None => {
                return None;
            },
        };
        let j5 = crate::json::skip_ws(v, j4);
        let ghost prev = pairs_view(acc@);
        let ghost kv = k@;
        let ghost cv = c@;
        if j5 < v.len() && v[j5] == ',' {
            let nx = crate::json::skip_ws(v, j5 + 1);
            if !(i < nx) {
                return None;
            }
            acc.push((k, c));
            proof {
                assert(pairs_view(acc@) =~~= prev.push((kv, cv)));
            }
            i = nx;
        } else if j5 < v.len() && v[j5] == '}' {
            acc.push((k, c));
            proof {
                assert(pairs_view(acc@) =~~= prev.push((kv, cv)));
            }
            return Some((acc, j5 + 1));
        } else {
            return None;
        }
    }
}

/// Parses the whole manifest text; `None` is the parse failure.
pub fn parse_manifest(text: &str) -> (r: Option<BuildManifest>)
    ensures
        match r {
            Some(m) => sp_manifest(text@) == Some(m@),
            None => sp_manifest(text@) is None,
        },
{
    let v = str_chars(text);
    let i = crate::json::skip_ws(&v, 0);
    if !(i < v.len() && v[i] == '{') {
        return None;
    }
    let j = crate::json::skip_ws(&v, i + 1);
    let (k1, m1, e1) = match parse_manifest_kv(&v, j) {
        Some(p) => p,
        None => {
            return None;
        },
    };
    let p = crate::json::skip_ws(&v, e1);
    if !(p < v.len() && v[p] == ',') {
        return None;
    }
    let p2 = crate::json::skip_ws(&v, p + 1);
    let (k2, m2, e2) = match parse_manifest_kv(&v, p2) {
        Some(p) => p,
        None => {
            return None;
        },
    };
    let q = crate::json::skip_ws(&v, e2);
    if !(q < v.len() && v[q] == '}') {
        return None;
    }
    let e = crate::json::skip_ws(&v, q + 1);
    if e != v.len() {
        return None;
    }
    proof {
        reveal_strlit("generators");
        reveal_strlit("algorithm_executables");
    }
    let k1_gen = str_eq(k1.as_str(), "generators");
    let k1_alg = str_eq(k1.as_str(), "algorithm_executables");
    let k2_gen = str_eq(k2.as_str(), "generators");
    let k2_alg = str_eq(k2.as_str(), "algorithm_executables");
    if k1_gen && k2_alg {
        Some(BuildManifest { generators: m1, algorithm_executables: m2 })
    } else if k1_alg && k2_gen {
        Some(BuildManifest { generators: m2, algorithm_executables: m1 })
    } else {
        None
    }
}

/// Parses one top-level manifest member at `start`.
fn parse_manifest_kv(v: &Vec<char>, start: usize) -> (r: Option<
    (String, Vec<(String, CommandArgs)>, usize),
>)
    requires
        start <= v@.len(),
    ensures
        match r {
            Some((k, m, j)) => sp_manifest_kv(v@, start as int) == Some(
                ((k@, pairs_view(m@)), j as int),
            ) && j <= v@.len(),
            None => sp_manifest_kv(v@, start as int) is None,
        },
{
    let (k, j) = match crate::json::parse_string_at(v, start) {
        Some(p) => p,
        None => {
            return None;
        },
    };
    let j2 = crate::json::skip_ws(v, j);
    if !(j2 < v.len() && v[j2] == ':') {
        return None;
    }
    let j3 = crate::json::skip_ws(v, j2 + 1);
    let (m, e) = match parse_cmd_map_at(v, j3) {
        Some(p) => p,
        None => {
            return None;
        },
    };
    Some((k, m, e))
}

} // verus!
