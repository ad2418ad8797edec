//! Functions to parse and manipulate the environment

use vstd::prelude::*;

use crate::config::{lemma_split_first, lemma_split_first_none, split_first};
use crate::errors::{DistError, DistResult};
use crate::strings::{clone_string, concat2, concat3, owned, str_eq, str_split_once, string_concat};

verus! {

/// The value the last entry for `key` gives it, if any entry does
pub open spec fn env_lookup(entries: Seq<(String, String)>, key: Seq<char>) -> Option<Seq<char>>
    decreases entries.len(),
{
    if entries.len() == 0 {
        None
    } else if entries.last().0@ == key {
        Some(entries.last().1@)
    } else {
        env_lookup(entries.drop_last(), key)
    }
}

/// A set of environment variables, each taking the value of the last
/// entry that sets it
#[derive(Debug)]
pub struct EnvMap {
    /// The (KEY, value) entries, in the order they were given
    pub entries: Vec<(String, String)>,
}

impl EnvMap {
    /// The value of the variable `key`, if it is set
    pub open spec fn lookup(self, key: Seq<char>) -> Option<Seq<char>> {
        env_lookup(self.entries@, key)
    }

    /// The value of the variable `key`, if it is set
    pub fn get(&self, key: &str) -> (r: Option<&String>)
        ensures
            match r {
                Some(v) => self.lookup(key@) == Some(v@),
                None => self.lookup(key@) is None,
            },
    {
        let mut i: usize = self.entries.len();
        assert(self.entries@.take(i as int) == self.entries@);
        while i > 0
            invariant
                i <= self.entries@.len(),
                self.lookup(key@) == env_lookup(self.entries@.take(i as int), key@),
            decreases i,
        {
            let ghost prefix = self.entries@.take(i as int);
            assert(prefix.drop_last() == self.entries@.take(i - 1));
            if str_eq(self.entries[i - 1].0.as_str(), key) {
                return Some(&self.entries[i - 1].1);
            }
            i = i - 1;
        }
        None
    }
}

/// The pieces of `s` between occurrences of `c` (as `str::split` gives
/// them: always at least one, possibly empty)
pub open spec fn split_pieces(s: Seq<char>, c: char) -> Seq<Seq<char>>
    decreases s.len(),
{
    match split_first(s, c) {
        Some((before, after)) => {
            proof {
                lemma_split_first_shorter(s, c);
            }
            seq![before] + split_pieces(after, c)
        },
        None => seq![s],
    }
}

/// The last piece of `s` after occurrences of `c` (all of it if `c` does not occur)
pub open spec fn last_piece(s: Seq<char>, c: char) -> Seq<char>
    decreases s.len(),
{
    match split_first(s, c) {
        Some((_, after)) => {
            proof {
                lemma_split_first_shorter(s, c);
            }
            last_piece(after, c)
        },
        None => s,
    }
}

/// What follows the first `c` in `s` is shorter than `s`
pub proof fn lemma_split_first_shorter(s: Seq<char>, c: char)
    ensures
        split_first(s, c) matches Some((before, after)) ==> after.len() < s.len()
            && before.len() + 1 + after.len() == s.len(),
    decreases s.len(),
{
    if s.len() > 0 && s[0] != c {
        lemma_split_first_shorter(s.skip(1), c);
    }
}

/// The (KEY, value) entry an environment line stands for: split at its first `=`
pub open spec fn env_line_spec(line: Seq<char>) -> Option<(Seq<char>, Seq<char>)> {
    split_first(line, '=')
}

/// A list of (KEY, value) entries as text
pub open spec fn pairs_view(v: Seq<(String, String)>) -> Seq<(Seq<char>, Seq<char>)> {
    v.map_values(|e: (String, String)| (e.0@, e.1@))
}

/// Takes a set of strings in KEY=value environment variable format and
/// parses it into a map. The string syntax is sh-compatible, and also the
/// format returned by `env`.
/// Note that we trust the set to contain a given key only once;
/// if specified more than once, only the final occurrence will be included.
/// A line without `=` is an error, and the first such line is the one reported.
pub fn parse_env(env: &[String]) -> (r: DistResult<EnvMap>)
    ensures
        r is Ok <==> forall|i: int| 0 <= i < env@.len() ==> (#[trigger] env_line_spec(env@[i]@)) is Some,
        r matches Ok(m) ==> m.entries@.len() == env@.len() && forall|i: int|
            0 <= i < env@.len() ==> #[trigger] env_line_spec(env@[i]@) == Some(
                (m.entries@[i].0@, m.entries@[i].1@),
            ),
        r matches Err(e) ==> exists|i: int|
            0 <= i < env@.len() && (#[trigger] env_line_spec(env@[i]@)) is None && (forall|j: int|
                0 <= j < i ==> (#[trigger] env_line_spec(env@[j]@)) is Some) && (e matches DistError::EnvParseError {
                line,
            } && line@ == env@[i]@),
{
    let mut parsed: Vec<(String, String)> = Vec::new();
    let mut i: usize = 0;
    while i < env.len()
        invariant
            i <= env@.len(),
            parsed@.len() == i,
            forall|j: int|
                0 <= j < i ==> #[trigger] env_line_spec(env@[j]@) == Some(
                    (parsed@[j].0@, parsed@[j].1@),
                ),
        decreases env.len() - i,
    {
        let line = &env[i];
        match str_split_once(line.as_str(), '=') {
            Some((key, value)) => {
                proof {
                    lemma_split_first(line@, '=', key@, value@);
                }
                parsed.push((owned(key), owned(value)));
            },
            None => {
                proof {
                    lemma_split_first_none(line@, '=');
                    assert(env@[i as int] == *line);
                    assert(env_line_spec(env@[i as int]@) is None);
                }
                return Err(DistError::EnvParseError { line: clone_string(line) });
            },
        }
        i = i + 1;
    }
    Ok(EnvMap { entries: parsed })
}

/// The pieces of `s` between occurrences of `c`
pub(crate) fn split_all(s: &str, c: char) -> (r: Vec<String>)
    ensures
        r@.map_values(|p: String| p@) == split_pieces(s@, c),
{
    let mut out: Vec<String> = Vec::new();
    let mut rest: &str = s;
    loop
        invariant
            out@.map_values(|p: String| p@) + split_pieces(rest@, c) == split_pieces(s@, c),
        decreases rest@.len(),
    {
        let ghost prev = out@;
        match str_split_once(rest, c) {
            Some((before, after)) => {
                proof {
                    lemma_split_first(rest@, c, before@, after@);
                    lemma_split_first_shorter(rest@, c);
                }
                out.push(owned(before));
                proof {
                    assert(out@.map_values(|p: String| p@) =~= prev.map_values(|p: String| p@).push(
                        before@,
                    ));
                    assert(split_pieces(rest@, c) == seq![before@] + split_pieces(after@, c));
                    assert(out@.map_values(|p: String| p@) + split_pieces(after@, c)
                        =~= prev.map_values(|p: String| p@) + split_pieces(rest@, c));
                }
                rest = after;
            },
            None => {
                proof {
                    lemma_split_first_none(rest@, c);
                }
                out.push(owned(rest));
                proof {
                    assert(out@.map_values(|p: String| p@) =~= prev.map_values(|p: String| p@).push(
                        rest@,
                    ));
                }
                return out;
            },
        }
    }
}

/// The last piece of `s` after occurrences of `c`
fn last_piece_of(s: &str, c: char) -> (r: &str)
    ensures
        r@ == last_piece(s@, c),
{
    let mut rest: &str = s;
    loop
        invariant
            last_piece(rest@, c) == last_piece(s@, c),
        decreases rest@.len(),
    {
        match str_split_once(rest, c) {
            Some((before, after)) => {
                proof {
                    lemma_split_first(rest@, c, before@, after@);
                    lemma_split_first_shorter(rest@, c);
                }
                rest = after;
            },
            None => {
                proof {
                    lemma_split_first_none(rest@, c);
                }
                return rest;
            },
        }
    }
}

/// The opt prefix of a Homebrew package: the last part of its name
/// (after any tap), under Homebrew's opt directory
pub open spec fn pkg_opt_spec(opt_prefix: Seq<char>, dep: Seq<char>) -> Seq<char> {
    opt_prefix + "/"@ + last_piece(dep, '/')
}

/// The dependencies Homebrew lists in an environment, each with its opt
/// prefix: none unless both `HOMEBREW_DEPENDENCIES` and `HOMEBREW_OPT` are set
pub open spec fn formulas_spec(env: EnvMap) -> Seq<(Seq<char>, Seq<char>)> {
    match (env.lookup("HOMEBREW_DEPENDENCIES"@), env.lookup("HOMEBREW_OPT"@)) {
        (Some(deps), Some(opt_prefix)) => split_pieces(deps, ',').map_values(
            |dep: Seq<char>| (dep, pkg_opt_spec(opt_prefix, dep)),
        ),
        _ => Seq::empty(),
    }
}

/// Given the environment captured from `brew bundle exec -- env`, returns
/// a list of all dependencies from that environment and the opt prefixes
/// to those packages.
pub fn formulas_from_env(environment: &EnvMap) -> (r: Vec<(String, String)>)
    ensures
        pairs_view(r@) == formulas_spec(*environment),
{
    let mut packages: Vec<(String, String)> = Vec::new();
    proof {
        reveal_strlit("/");
    }
    // Set by Homebrew/brew bundle - a comma-separated list of all
    // dependencies in the recursive tree calculated from the dependencies
    // in the Brewfile.
    if let Some(formulastring) = environment.get("HOMEBREW_DEPENDENCIES") {
        // Set by Homebrew/brew bundle - the path to Homebrew's "opt"
        // directory, which is where links to the private cellar of every
        // installed package lives.
        // Usually /opt/homebrew/opt or /usr/local/opt.
        if let Some(opt_prefix) = environment.get("HOMEBREW_OPT") {
            let deps = split_all(formulastring.as_str(), ',');
            let ghost names = deps@.map_values(|p: String| p@);
            let mut i: usize = 0;
            while i < deps.len()
                invariant
                    i <= deps@.len(),
                    names == deps@.map_values(|p: String| p@),
                    pairs_view(packages@) == names.take(i as int).map_values(
                        |dep: Seq<char>| (dep, pkg_opt_spec(opt_prefix@, dep)),
                    ),
                decreases deps.len() - i,
            {
                let ghost prev = packages@;
                let dep = &deps[i];
                let short_name = last_piece_of(dep.as_str(), '/');
                let pkg_opt = concat3(opt_prefix.as_str(), "/", short_name);
                packages.push((clone_string(dep), pkg_opt));
                proof {
                    assert(names[i as int] == dep@);
                    assert(names.take(i + 1) == names.take(i as int).push(dep@));
                    assert(pairs_view(packages@) =~= pairs_view(prev).push(
                        (dep@, pkg_opt_spec(opt_prefix@, dep@)),
                    ));
                    assert(names.take(i + 1).map_values(
                        |dep: Seq<char>| (dep, pkg_opt_spec(opt_prefix@, dep)),
                    ) =~= names.take(i as int).map_values(
                        |dep: Seq<char>| (dep, pkg_opt_spec(opt_prefix@, dep)),
                    ).push((dep@, pkg_opt_spec(opt_prefix@, dep@))));
                }
                i = i + 1;
            }
            assert(names.take(deps@.len() as int) == names);
        }
    }
    packages
}

/// The pieces joined, with `sep` between each two
pub open spec fn join_spec(parts: Seq<Seq<char>>, sep: Seq<char>) -> Seq<char>
    decreases parts.len(),
{
    if parts.len() == 0 {
        Seq::empty()
    } else if parts.len() == 1 {
        parts[0]
    } else {
        join_spec(parts.drop_last(), sep) + sep + parts.last()
    }
}

/// The pieces joined, with `sep` between each two
pub(crate) fn join_strings(parts: &Vec<String>, sep: &str) -> (r: String)
    ensures
        r@ == join_spec(parts@.map_values(|p: String| p@), sep@),
{
    let ghost views = parts@.map_values(|p: String| p@);
    let mut out = String::new();
    let mut i: usize = 0;
    while i < parts.len()
        invariant
            i <= parts@.len(),
            views == parts@.map_values(|p: String| p@),
            out@ == join_spec(views.take(i as int), sep@),
        decreases parts.len() - i,
    {
        proof {
            assert(views.take(i + 1).drop_last() == views.take(i as int));
        }
        if i > 0 {
            out = string_concat(out, sep);
        }
        out = string_concat(out, parts[i].as_str());
        i = i + 1;
    }
    assert(views.take(parts@.len() as int) == views);
    out
}

/// The flag each Homebrew package contributes: `prefix`, its opt prefix, then `suffix`
pub open spec fn formula_flags_spec(env: EnvMap, prefix: Seq<char>, suffix: Seq<char>) -> Seq<Seq<char>> {
    formulas_spec(env).map_values(|p: (Seq<char>, Seq<char>)| prefix + p.1 + suffix)
}

/// `prefix`, the opt prefix, then `suffix`, for each Homebrew package
fn formula_flags(environment: &EnvMap, prefix: &str, suffix: &str) -> (r: Vec<String>)
    ensures
        r@.map_values(|p: String| p@) == formula_flags_spec(*environment, prefix@, suffix@),
{
    let formulas = formulas_from_env(environment);
    let mut out: Vec<String> = Vec::new();
    let mut i: usize = 0;
    while i < formulas.len()
        invariant
            i <= formulas@.len(),
            pairs_view(formulas@) == formulas_spec(*environment),
            out@.map_values(|p: String| p@) == pairs_view(formulas@).take(i as int).map_values(
                |p: (Seq<char>, Seq<char>)| prefix@ + p.1 + suffix@,
            ),
        decreases formulas.len() - i,
    {
        let ghost prev = out@;
        let flag = concat3(prefix, formulas[i].1.as_str(), suffix);
        out.push(flag);
        proof {
            let pv = pairs_view(formulas@);
            assert(pv[i as int] == (formulas@[i as int].0@, formulas@[i as int].1@));
            assert(pv.take(i + 1) == pv.take(i as int).push(pv[i as int]));
            assert(out@.map_values(|p: String| p@) =~= prev.map_values(|p: String| p@).push(
                flag@,
            ));
            assert(pv.take(i + 1).map_values(|p: (Seq<char>, Seq<char>)| prefix@ + p.1 + suffix@)
                =~= pv.take(i as int).map_values(
                |p: (Seq<char>, Seq<char>)| prefix@ + p.1 + suffix@,
            ).push(prefix@ + pv[i as int].1 + suffix@));
        }
        i = i + 1;
    }
    assert(pairs_view(formulas@).take(formulas@.len() as int) == pairs_view(formulas@));
    out
}

/// Determines the flags needed by the linker to link against
/// Homebrew packages in the provided environment.
/// Note that this may reference directories which don't exist;
/// this function doesn't validate the existence of directories in the
/// generated flags.
pub fn calculate_ldflags(environment: &EnvMap) -> (r: String)
    ensures
        r@ == join_spec(formula_flags_spec(*environment, "-L"@, "/lib"@), " "@),
{
    let flags = formula_flags(environment, "-L", "/lib");
    join_strings(&flags, " ")
}

/// Determines the flags needed by the compiler to locate headers
/// from Homebrew packages in the provided environment.
/// Note that this may reference directories which don't exist;
/// this function doesn't validate the existence of directories in the
/// generated flags.
pub fn calculate_cflags(environment: &EnvMap) -> (r: String)
    ensures
        r@ == join_spec(formula_flags_spec(*environment, "-I"@, "/include"@), " "@),
{
    let flags = formula_flags(environment, "-I", "/include");
    join_strings(&flags, " ")
}

/// The (KEY, value) entry for `key`, when `key` is set
pub open spec fn passthrough_spec(env: EnvMap, key: Seq<char>) -> Seq<(Seq<char>, Seq<char>)> {
    match env.lookup(key) {
        Some(v) => seq![(key, v)],
        None => Seq::empty(),
    }
}

/// The Homebrew variables we keep for our own builds: the pkg-config and
/// cmake search paths as they are, and, when there are packages and our own
/// `PATH` is known, a `PATH` (put first) that adds each package's `bin` and
/// `sbin` after ours
pub open spec fn brew_env_spec(env: EnvMap, our_path: Option<Seq<char>>) -> Seq<(Seq<char>, Seq<char>)> {
    let kept = passthrough_spec(env, "PKG_CONFIG_PATH"@) + passthrough_spec(env, "PKG_CONFIG_LIBDIR"@)
        + passthrough_spec(env, "CMAKE_INCLUDE_PATH"@) + passthrough_spec(
        env,
        "CMAKE_LIBRARY_PATH"@,
    );
    let paths = bin_paths_spec(formulas_spec(env));
    match our_path {
        Some(p) => if paths.len() > 0 {
            seq![("PATH"@, p + ":"@ + join_spec(paths, ":"@))] + kept
        } else {
            kept
        },
        None => kept,
    }
}

/// The `bin` and `sbin` dirs of each package, in order
pub open spec fn bin_paths_spec(formulas: Seq<(Seq<char>, Seq<char>)>) -> Seq<Seq<char>>
    decreases formulas.len(),
{
    if formulas.len() == 0 {
        Seq::empty()
    } else {
        bin_paths_spec(formulas.drop_last()).push(formulas.last().1 + "/bin"@).push(
            formulas.last().1 + "/sbin"@,
        )
    }
}

/// Keep `key` as it is, if it is set
fn push_passthrough(desired: &mut Vec<(String, String)>, environment: &EnvMap, key: &str)
    ensures
        pairs_view(final(desired)@) == pairs_view(old(desired)@) + passthrough_spec(
            *environment,
            key@,
        ),
{
    let ghost prev = desired@;
    if let Some(value) = environment.get(key) {
        desired.push((owned(key), clone_string(value)));
        assert(pairs_view(desired@) =~= pairs_view(prev) + seq![(key@, value@)]);
    } else {
        assert(pairs_view(desired@) =~= pairs_view(prev) + Seq::empty());
    }
}

/// Takes the key/value environment variables produced by
/// `brew bundle exec` and decides which ones we want to keep for our own builds.
/// Returns a Vec containing (KEY, value) tuples.
///
/// `our_path` is the current value of our own `PATH`, if it is set.
pub fn select_brew_env(environment: &EnvMap, our_path: Option<&str>) -> (r: Vec<(String, String)>)
    ensures
        pairs_view(r@) == brew_env_spec(
            *environment,
            match our_path {
                Some(p) => Some(p@),
                None => None,
            },
        ),
{
    let mut desired_env: Vec<(String, String)> = Vec::new();
    assert(pairs_view(desired_env@) =~= Seq::empty());

    // Several of Homebrew's environment variables are safe for us to use
    // unconditionally, so pick those in their entirety.
    push_passthrough(&mut desired_env, environment, "PKG_CONFIG_PATH");
    push_passthrough(&mut desired_env, environment, "PKG_CONFIG_LIBDIR");
    push_passthrough(&mut desired_env, environment, "CMAKE_INCLUDE_PATH");
    push_passthrough(&mut desired_env, environment, "CMAKE_LIBRARY_PATH");

    // For each listed dependency, add it to the PATH
    let formulas = formulas_from_env(environment);
    let mut paths: Vec<String> = Vec::new();
    let mut i: usize = 0;
    while i < formulas.len()
        invariant
            i <= formulas@.len(),
            paths@.map_values(|p: String| p@) == bin_paths_spec(pairs_view(formulas@).take(i as int)),
        decreases formulas.len() - i,
    {
        let ghost prev = paths@;
        // Not every package will have a /bin or /sbin directory,
        // but it's safe to add both to the PATH just in case.
        let pkg_opt = formulas[i].1.as_str();
        paths.push(concat2(pkg_opt, "/bin"));
        paths.push(concat2(pkg_opt, "/sbin"));
        proof {
            let pv = pairs_view(formulas@);
            assert(pv.take(i + 1).drop_last() == pv.take(i as int));
            assert(pv.take(i + 1).last() == pv[i as int]);
            assert(paths@.map_values(|p: String| p@) =~= prev.map_values(|p: String| p@).push(
                pkg_opt@ + "/bin"@,
            ).push(pkg_opt@ + "/sbin"@));
        }
        i = i + 1;
    }
    assert(pairs_view(formulas@).take(formulas@.len() as int) == pairs_view(formulas@));

    if paths.len() > 0 {
        if let Some(our_path) = our_path {
            let joined = join_strings(&paths, ":");
            let desired_path = concat3(our_path, ":", joined.as_str());
            let ghost prev = desired_env@;
            desired_env.insert(0, (owned("PATH"), desired_path));
            assert(pairs_view(desired_env@) =~= seq![("PATH"@, desired_path@)] + pairs_view(prev));
        }
    }
    desired_env
}

} // verus!
