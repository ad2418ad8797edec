//! github ci config

use std::collections::BTreeMap;

use vstd::prelude::*;

use super::{CommonCiConfig, CommonCiLayer};
use crate::config::v1::layer::{opt_or, ApplyLayer, ApplyOptExt};
use crate::config::GithubPermissionMap;
use crate::platform::github_runners::{runner_target_spec, target_for_github_runner};
use crate::platform::targets::TARGET_X64_LINUX_MUSL;
use crate::schema::{
    ContainerConfig, ContainerConfigView, GithubRunnerConfig, GithubRunnerConfigInput,
    GithubRunnerConfigView, StringLikeOr,
};
use crate::keyed::{key_slot, keyed_from, keyed_insert, keys_ascending, keys_of, string_keys, texts_ascending};
use crate::strings::{clone_string, owned};
use crate::workspace::WorkspaceGraph;

verus! {

/// The runner used when a runner config names none
pub const DEFAULT_GITHUB_RUNNER: &'static str = "ubuntu-22.04";

/// Secrets handed to a job: each name the job sees, with the name of the
/// repository secret it is read from
pub type GithubSecretMap = Vec<(String, String)>;

/// How a config file lists the secrets of a job
#[derive(Debug)]
pub enum GithubSecretSpec {
    /// Secrets the job sees under their own names
    List(Vec<String>),
    /// Each name the job sees, with the secret it is read from
    Mapping(Vec<(String, String)>),
}

/// A list of (name, secret) pairs as text
pub open spec fn secret_map_view(m: Seq<(String, String)>) -> Seq<(Seq<char>, Seq<char>)> {
    m.map_values(|e: (String, String)| (e.0@, e.1@))
}

impl GithubSecretSpec {
    /// The (name, secret) pairs this spec stands for, by name, each name
    /// once (the last pair for a name wins)
    pub open spec fn map_view(self) -> Seq<(Seq<char>, Seq<char>)> {
        match self {
            GithubSecretSpec::List(names) => keyed_from(listed_secrets(names@)),
            GithubSecretSpec::Mapping(pairs) => keyed_from(secret_map_view(pairs@)),
        }
    }

    /// The (name, secret) pairs this spec stands for, by name; a listed
    /// secret is read from the secret of the same name
    pub fn into_map(self) -> (r: GithubSecretMap)
        ensures
            secret_map_view(r@) == self.map_view(),
    {
        let mut out: Vec<(String, String)> = Vec::new();
        let mut i: usize = 0;
        match self {
            GithubSecretSpec::List(names) => {
                let ghost entries = listed_secrets(names@);
                while i < names.len()
                    invariant
                        i <= names@.len(),
                        entries == listed_secrets(names@),
                        secret_map_view(out@) == keyed_from(entries.take(i as int)),
                    decreases names.len() - i,
                {
                    proof {
                        assert(entries.take(i + 1).drop_last() =~= entries.take(i as int));
                        assert(entries.take(i + 1).last() == (names@[i as int]@, names@[i as int]@));
                    }
                    set_secret(&mut out, clone_string(&names[i]), clone_string(&names[i]));
                    i = i + 1;
                }
                assert(entries.take(names@.len() as int) =~= entries);
            },
            GithubSecretSpec::Mapping(pairs) => {
                let ghost entries = secret_map_view(pairs@);
                while i < pairs.len()
                    invariant
                        i <= pairs@.len(),
                        entries == secret_map_view(pairs@),
                        secret_map_view(out@) == keyed_from(entries.take(i as int)),
                    decreases pairs.len() - i,
                {
                    proof {
                        assert(entries.take(i + 1).drop_last() =~= entries.take(i as int));
                        assert(entries.take(i + 1).last() == (pairs@[i as int].0@, pairs@[i as int].1@));
                    }
                    set_secret(&mut out, clone_string(&pairs[i].0), clone_string(&pairs[i].1));
                    i = i + 1;
                }
                assert(entries.take(pairs@.len() as int) =~= entries);
            },
        }
        out
    }
}

/// Each listed secret, read from the secret of the same name
pub open spec fn listed_secrets(names: Seq<String>) -> Seq<(Seq<char>, Seq<char>)> {
    names.map_values(|n: String| (n@, n@))
}

/// Set `k` to `v` in a list of entries kept in key order
fn set_entry<V, W>(m: &mut Vec<(String, V)>, k: String, v: V, Ghost(f): Ghost<spec_fn(V) -> W>)
    ensures
        final(m)@.map_values(|e: (String, V)| (e.0@, f(e.1))) == keyed_insert(
            old(m)@.map_values(|e: (String, V)| (e.0@, f(e.1))),
            k@,
            f(v),
        ),
{
    let ghost before = m@.map_values(|e: (String, V)| (e.0@, f(e.1)));
    let (p, found) = key_slot(m, k.as_str());
    proof {
        assert(keys_of(before) =~= string_keys(m@));
        if p < m@.len() {
            assert(before[p as int].0 == m@[p as int].0@);
        }
    }
    let ghost kv = k@;
    let ghost fv = f(v);
    if found {
        m.set(p, (k, v));
        assert(m@.map_values(|e: (String, V)| (e.0@, f(e.1))) =~= before.update(p as int, (kv, fv)));
    } else {
        m.insert(p, (k, v));
        assert(m@.map_values(|e: (String, V)| (e.0@, f(e.1))) =~= before.insert(p as int, (kv, fv)));
    }
}

/// Set the secret a name is read from
fn set_secret(m: &mut Vec<(String, String)>, name: String, secret: String)
    ensures
        secret_map_view(final(m)@) == keyed_insert(secret_map_view(old(m)@), name@, secret@),
{
    let ghost f = |x: String| x@;
    proof {
        assert(secret_map_view(m@) =~= m@.map_values(|e: (String, String)| (e.0@, f(e.1))));
    }
    set_entry::<String, Seq<char>>(m, name, secret, Ghost(f));
    proof {
        assert(secret_map_view(m@) =~= m@.map_values(|e: (String, String)| (e.0@, f(e.1))));
    }
}

/// github ci config (raw from file)
#[derive(Debug)]
pub struct GithubCiLayer {
    /// Common options
    pub common: CommonCiLayer,
    /// Custom GitHub runners, mapped by triple target
    pub runners: Option<Vec<(String, StringLikeOr<String, GithubRunnerConfigInput>)>>,
    /// Custom permissions for jobs
    pub permissions: Option<BTreeMap<String, GithubPermissionMap>>,
    /// Custom secrets for jobs
    pub secrets: Option<Vec<(String, GithubSecretSpec)>>,
    /// Custom build setup for jobs
    pub build_setup: Option<String>,
    /// Use these commits for actions
    pub action_commits: Option<BTreeMap<String, String>>,
}

impl GithubCiLayer {
    /// The layer that sets nothing
    pub open spec fn spec_default() -> GithubCiLayer {
        GithubCiLayer {
            common: CommonCiLayer::spec_default(),
            runners: None,
            permissions: None,
            secrets: None,
            build_setup: None,
            action_commits: None,
        }
    }
}

impl Default for GithubCiLayer {
    fn default() -> (r: Self)
        ensures
            r == GithubCiLayer::spec_default(),
    {
        GithubCiLayer {
            common: CommonCiLayer::default(),
            runners: None,
            permissions: None,
            secrets: None,
            build_setup: None,
            action_commits: None,
        }
    }
}

/// github ci config (final)
#[derive(Debug)]
pub struct GithubCiConfig {
    /// Common options
    pub common: CommonCiConfig,
    /// Custom GitHub runners, mapped by triple target
    pub runners: Vec<(String, GithubRunnerConfig)>,
    /// Custom permissions for jobs
    pub permissions: BTreeMap<String, GithubPermissionMap>,
    /// Custom secrets for jobs
    pub secrets: Vec<(String, GithubSecretMap)>,
    /// Jobs which had secrets configured (used to distinguish unset vs empty maps)
    pub configured_secret_jobs: Vec<String>,
    /// Custom build setup for jobs
    pub build_setup: Option<String>,
    /// Use these commits for github actions
    pub action_commits: BTreeMap<String, String>,
}

/// The settings of a [`GithubCiConfig`], with text as character sequences
pub struct GithubCiView {
    /// Common options
    pub common: CommonCiConfig,
    /// Custom GitHub runners, mapped by triple target
    pub runners: Seq<(Seq<char>, GithubRunnerConfigView)>,
    /// Custom permissions for jobs
    pub permissions: Map<String, GithubPermissionMap>,
    /// Custom secrets for jobs
    pub secrets: Seq<(Seq<char>, Seq<(Seq<char>, Seq<char>)>)>,
    /// Jobs which had secrets configured
    pub configured_secret_jobs: Seq<Seq<char>>,
    /// Custom build setup for jobs
    pub build_setup: Option<String>,
    /// Use these commits for github actions
    pub action_commits: Map<String, String>,
}

/// A list of runners by target, as text
pub open spec fn runners_view(rs: Seq<(String, GithubRunnerConfig)>) -> Seq<(Seq<char>, GithubRunnerConfigView)> {
    rs.map_values(|e: (String, GithubRunnerConfig)| (e.0@, e.1@))
}

/// A list of secret maps by job, as text
pub open spec fn secrets_view(s: Seq<(String, GithubSecretMap)>) -> Seq<(Seq<char>, Seq<(Seq<char>, Seq<char>)>)> {
    s.map_values(|e: (String, GithubSecretMap)| (e.0@, secret_map_view(e.1@)))
}

/// A list of strings as text
pub open spec fn strings_view(v: Seq<String>) -> Seq<Seq<char>> {
    v.map_values(|s: String| s@)
}

/// The host a runner is taken to have when no host is given: the well-known
/// host of the runner image, else the target it was configured for
pub open spec fn guessed_host(runner: Seq<char>, target: Seq<char>) -> Seq<char> {
    match runner_target_spec(runner) {
        Some(t) => t,
        None => target,
    }
}

/// The container a container setting stands for: the host defaults to
/// x86_64 linux musl
pub open spec fn container_spec(c: StringLikeOr<String, crate::schema::ContainerConfigInput>) -> ContainerConfigView {
    match c {
        StringLikeOr::StringLike(image) => ContainerConfigView {
            image: image@,
            host: TARGET_X64_LINUX_MUSL@,
            package_manager: None,
        },
        StringLikeOr::Val(cfg) => ContainerConfigView {
            image: cfg.image@,
            host: match cfg.host {
                Some(h) => h@,
                None => TARGET_X64_LINUX_MUSL@,
            },
            package_manager: cfg.package_manager,
        },
    }
}

/// The runner a runner setting for `target` stands for
pub open spec fn runner_spec(
    target: Seq<char>,
    input: StringLikeOr<String, GithubRunnerConfigInput>,
) -> GithubRunnerConfigView {
    match input {
        StringLikeOr::StringLike(runner) => GithubRunnerConfigView {
            runner: runner@,
            host: guessed_host(runner@, target),
            container: None,
        },
        StringLikeOr::Val(cfg) => {
            let runner = match cfg.runner {
                Some(r) => r@,
                None => DEFAULT_GITHUB_RUNNER@,
            };
            GithubRunnerConfigView {
                runner,
                host: match cfg.host {
                    Some(h) => h@,
                    None => guessed_host(runner, target),
                },
                container: match cfg.container {
                    Some(c) => Some(container_spec(c)),
                    None => None,
                },
            }
        },
    }
}

/// Each runner setting resolved, with its target
pub open spec fn runner_entries(rs: Seq<(String, StringLikeOr<String, GithubRunnerConfigInput>)>) -> Seq<(Seq<char>, GithubRunnerConfigView)> {
    rs.map_values(
        |e: (String, StringLikeOr<String, GithubRunnerConfigInput>)| (e.0@, runner_spec(e.0@, e.1)),
    )
}

/// The runners a list of runner settings stands for, by target, each
/// target once (the last setting for a target wins)
pub open spec fn runners_spec(rs: Seq<(String, StringLikeOr<String, GithubRunnerConfigInput>)>) -> Seq<(Seq<char>, GithubRunnerConfigView)> {
    keyed_from(runner_entries(rs))
}

/// Each job's secret spec resolved, with its job
pub open spec fn secret_entries(s: Seq<(String, GithubSecretSpec)>) -> Seq<(Seq<char>, Seq<(Seq<char>, Seq<char>)>)> {
    s.map_values(|e: (String, GithubSecretSpec)| (e.0@, e.1.map_view()))
}

/// The secret maps a list of secret specs stands for, by job, each job
/// once (the last spec for a job wins)
pub open spec fn secrets_spec(s: Seq<(String, GithubSecretSpec)>) -> Seq<(Seq<char>, Seq<(Seq<char>, Seq<char>)>)> {
    keyed_from(secret_entries(s))
}

/// The jobs a list of secret specs configures, in order, each once
pub open spec fn secret_jobs_spec(s: Seq<(String, GithubSecretSpec)>) -> Seq<Seq<char>> {
    keys_of(secrets_spec(s))
}

impl GithubCiView {
    /// The runners are kept by target and the secrets by job, each map's
    /// keys in order and each once, like the secrets of each job; the
    /// configured jobs are the jobs with secrets
    pub open spec fn keys_in_order(self) -> bool {
        &&& keys_ascending(self.runners)
        &&& keys_ascending(self.secrets)
        &&& forall|i: int| 0 <= i < self.secrets.len() ==> keys_ascending(#[trigger] self.secrets[i].1)
        &&& self.configured_secret_jobs == keys_of(self.secrets)
        &&& texts_ascending(self.configured_secret_jobs)
    }

    /// The github CI settings before any layer, over `common`
    pub open spec fn defaults(common: CommonCiConfig) -> GithubCiView {
        GithubCiView {
            common,
            runners: Seq::empty(),
            permissions: Map::empty(),
            secrets: Seq::empty(),
            configured_secret_jobs: Seq::empty(),
            build_setup: None,
            action_commits: Map::empty(),
        }
    }

    /// These settings with `layer` applied
    pub open spec fn layered(self, layer: GithubCiLayer) -> GithubCiView {
        GithubCiView {
            common: self.common.layered(layer.common),
            runners: match layer.runners {
                Some(rs) => runners_spec(rs@),
                None => self.runners,
            },
            permissions: match layer.permissions {
                Some(p) => p@,
                None => self.permissions,
            },
            secrets: match layer.secrets {
                Some(s) => secrets_spec(s@),
                None => self.secrets,
            },
            configured_secret_jobs: match layer.secrets {
                Some(s) => secret_jobs_spec(s@),
                None => self.configured_secret_jobs,
            },
            build_setup: opt_or(self.build_setup, layer.build_setup),
            action_commits: match layer.action_commits {
                Some(a) => a@,
                None => self.action_commits,
            },
        }
    }
}

impl View for GithubCiConfig {
    type V = GithubCiView;

    open spec fn view(&self) -> GithubCiView {
        GithubCiView {
            common: self.common,
            runners: runners_view(self.runners@),
            permissions: self.permissions@,
            secrets: secrets_view(self.secrets@),
            configured_secret_jobs: strings_view(self.configured_secret_jobs@),
            build_setup: self.build_setup,
            action_commits: self.action_commits@,
        }
    }
}

impl Default for GithubCiConfig {
    /// No runners, permissions, secrets or commits, over the plain CI settings
    fn default() -> (r: Self)
        ensures
            r.common.is_plain(false, crate::config::PrRunMode::Plan),
            r@ == GithubCiView::defaults(r.common),
    {
        Self::defaults_with_common(CommonCiConfig::default())
    }
}

/// The container a container setting stands for
fn container_from_input(c: StringLikeOr<String, crate::schema::ContainerConfigInput>) -> (r: ContainerConfig)
    ensures
        r@ == container_spec(c),
{
    match c {
        StringLikeOr::StringLike(image) => ContainerConfig {
            image,
            // assume x86_64-unknown-linux-musl if not specified
            host: owned(TARGET_X64_LINUX_MUSL),
            package_manager: None,
        },
        StringLikeOr::Val(cfg) => ContainerConfig {
            image: cfg.image,
            host: match cfg.host {
                Some(h) => h,
                None => owned(TARGET_X64_LINUX_MUSL),
            },
            package_manager: cfg.package_manager,
        },
    }
}

/// The host of `runner` when none is given
fn guess_host(runner: &String, target: &String) -> (r: String)
    ensures
        r@ == guessed_host(runner@, target@),
{
    match target_for_github_runner(runner.as_str()) {
        Some(t) => owned(t),
        None => clone_string(target),
    }
}

/// The runner a runner setting for `target` stands for
pub fn runner_from_input(
    target: &String,
    input: StringLikeOr<String, GithubRunnerConfigInput>,
) -> (r: GithubRunnerConfig)
    ensures
        r@ == runner_spec(target@, input),
{
    match input {
        StringLikeOr::StringLike(runner) => {
            let host = guess_host(&runner, target);
            GithubRunnerConfig { host, runner, container: None }
        },
        StringLikeOr::Val(runner_config) => {
            let GithubRunnerConfigInput { runner, host, container } = runner_config;
            let runner = match runner {
                Some(r) => r,
                None => owned(DEFAULT_GITHUB_RUNNER),
            };
            let host = match host {
                Some(h) => h,
                // if not specified, then assume the custom github runner is
                // the right platform (host == target)
                None => guess_host(&runner, target),
            };
            let container = match container {
                Some(c) => Some(container_from_input(c)),
                None => None,
            };
            GithubRunnerConfig { runner, host, container }
        },
    }
}

impl GithubCiConfig {
    /// Get defaults for the given workspace
    pub fn defaults_for_workspace(_workspaces: &WorkspaceGraph, common: &CommonCiConfig) -> (r:
        Self)
        ensures
            r.common.same_as(*common),
            r@ == GithubCiView::defaults(r.common),
    {
        Self::defaults_with_common(common.clone())
    }

    /// The github CI settings before any layer, over `common`
    pub fn defaults_with_common(common: CommonCiConfig) -> (r: Self)
        ensures
            r@ == GithubCiView::defaults(common),
            r@.keys_in_order(),
    {
        let r = Self {
            common,
            runners: Vec::new(),
            permissions: BTreeMap::new(),
            secrets: Vec::new(),
            configured_secret_jobs: Vec::new(),
            build_setup: None,
            action_commits: BTreeMap::new(),
        };
        assert(r@.runners == Seq::<(Seq<char>, GithubRunnerConfigView)>::empty());
        assert(r@.secrets == Seq::<(Seq<char>, Seq<(Seq<char>, Seq<char>)>)>::empty());
        assert(r@.configured_secret_jobs == Seq::<Seq<char>>::empty());
        assert(keys_of(r@.secrets) =~= Seq::<Seq<char>>::empty());
        r
    }

    /// Merges this config with a layer, preferring the layer; each runner
    /// setting is resolved into a full runner, and each secret spec into
    /// the map it stands for
    pub fn apply_layer(&mut self, layer: GithubCiLayer)
        ensures
            final(self)@ == old(self)@.layered(layer),
            old(self)@.keys_in_order() ==> final(self)@.keys_in_order(),
    {
        proof {
            crate::laws::law_github_ci_layer_keeps_keys_in_order(self@, layer);
        }
        let GithubCiLayer { common, runners, permissions, secrets, build_setup, action_commits } =
            layer;
        self.common.apply_layer(common);
        if let Some(runners) = runners {
            self.runners = resolve_runners(runners);
        }
        if let Some(permissions) = permissions {
            self.permissions = permissions;
        }
        if let Some(secrets) = secrets {
            let (jobs, maps) = resolve_secrets(secrets);
            self.configured_secret_jobs = jobs;
            self.secrets = maps;
        }
        self.build_setup.apply_opt(build_setup);
        if let Some(action_commits) = action_commits {
            self.action_commits = action_commits;
        }
    }
}

/// Resolve each runner setting into a full runner, by target
fn resolve_runners(runners: Vec<(String, StringLikeOr<String, GithubRunnerConfigInput>)>) -> (r: Vec<
    (String, GithubRunnerConfig),
>)
    ensures
        runners_view(r@) == runners_spec(runners@),
{
    let ghost orig = runners@;
    let ghost entries = runner_entries(orig);
    let mut rest = runners;
    let mut out: Vec<(String, GithubRunnerConfig)> = Vec::new();
    while rest.len() > 0
        invariant
            rest@.len() <= orig.len(),
            rest@ == orig.skip(orig.len() - rest@.len()),
            entries == runner_entries(orig),
            runners_view(out@) == keyed_from(entries.take(orig.len() - rest@.len())),
        decreases rest@.len(),
    {
        let ghost k = orig.len() - rest@.len();
        let (target, input) = rest.remove(0);
        let ghost f = |c: GithubRunnerConfig| c@;
        proof {
            assert(orig[k] == (target, input));
            assert(orig.skip(k + 1) == orig.skip(k).remove(0));
            assert(entries.take(k + 1).drop_last() =~= entries.take(k));
            assert(entries.take(k + 1).last() == (target@, runner_spec(target@, input)));
            assert(runners_view(out@) =~= out@.map_values(
                |e: (String, GithubRunnerConfig)| (e.0@, f(e.1)),
            ));
        }
        let cfg = runner_from_input(&target, input);
        set_entry::<GithubRunnerConfig, GithubRunnerConfigView>(&mut out, target, cfg, Ghost(f));
        proof {
            assert(runners_view(out@) =~= out@.map_values(
                |e: (String, GithubRunnerConfig)| (e.0@, f(e.1)),
            ));
        }
    }
    assert(entries.take(orig.len() as int) == entries);
    out
}

/// Resolve each secret spec into the map it stands for, by job, and list
/// the jobs
fn resolve_secrets(secrets: Vec<(String, GithubSecretSpec)>) -> (r: (Vec<String>, Vec<(String, GithubSecretMap)>))
    ensures
        strings_view(r.0@) == secret_jobs_spec(secrets@),
        secrets_view(r.1@) == secrets_spec(secrets@),
{
    let ghost orig = secrets@;
    let ghost entries = secret_entries(orig);
    let mut rest = secrets;
    let mut maps: Vec<(String, GithubSecretMap)> = Vec::new();
    while rest.len() > 0
        invariant
            rest@.len() <= orig.len(),
            rest@ == orig.skip(orig.len() - rest@.len()),
            entries == secret_entries(orig),
            secrets_view(maps@) == keyed_from(entries.take(orig.len() - rest@.len())),
        decreases rest@.len(),
    {
        let ghost k = orig.len() - rest@.len();
        let (job, spec) = rest.remove(0);
        let ghost f = |m: GithubSecretMap| secret_map_view(m@);
        proof {
            assert(orig[k] == (job, spec));
            assert(orig.skip(k + 1) == orig.skip(k).remove(0));
            assert(entries.take(k + 1).drop_last() =~= entries.take(k));
            assert(entries.take(k + 1).last() == (job@, spec.map_view()));
            assert(secrets_view(maps@) =~= maps@.map_values(
                |e: (String, GithubSecretMap)| (e.0@, f(e.1)),
            ));
        }
        let m = spec.into_map();
        set_entry::<GithubSecretMap, Seq<(Seq<char>, Seq<char>)>>(&mut maps, job, m, Ghost(f));
        proof {
            assert(secrets_view(maps@) =~= maps@.map_values(
                |e: (String, GithubSecretMap)| (e.0@, f(e.1)),
            ));
        }
    }
    assert(entries.take(orig.len() as int) == entries);
    let ghost view = secrets_view(maps@);
    let mut jobs: Vec<String> = Vec::new();
    let mut i: usize = 0;
    while i < maps.len()
        invariant
            i <= maps@.len(),
            view == secrets_view(maps@),
            strings_view(jobs@) == keys_of(view).take(i as int),
        decreases maps.len() - i,
    {
        let ghost before = jobs@;
        assert(view[i as int].0 == maps@[i as int].0@);
        jobs.push(clone_string(&maps[i].0));
        assert(strings_view(jobs@) =~= strings_view(before).push(maps@[i as int].0@));
        assert(keys_of(view).take(i + 1) =~= keys_of(view).take(i as int).push(view[i as int].0));
        assert(strings_view(jobs@) =~= keys_of(view).take(i + 1));
        i = i + 1;
    }
    assert(keys_of(view).take(maps@.len() as int) =~= keys_of(view));
    (jobs, maps)
}

impl ApplyLayer for GithubCiLayer {
    type Layer = GithubCiLayer;

    open spec fn layered(self, layer: GithubCiLayer) -> Self {
        GithubCiLayer {
            common: self.common.layered(layer.common),
            runners: opt_or(self.runners, layer.runners),
            permissions: opt_or(self.permissions, layer.permissions),
            secrets: opt_or(self.secrets, layer.secrets),
            build_setup: opt_or(self.build_setup, layer.build_setup),
            action_commits: opt_or(self.action_commits, layer.action_commits),
        }
    }

    fn apply_layer(&mut self, layer: GithubCiLayer) {
        let GithubCiLayer { common, runners, permissions, secrets, build_setup, action_commits } =
            layer;
        self.common.apply_layer(common);
        self.runners.apply_opt(runners);
        self.permissions.apply_opt(permissions);
        self.secrets.apply_opt(secrets);
        self.build_setup.apply_opt(build_setup);
        self.action_commits.apply_opt(action_commits);
    }
}

} // verus!
