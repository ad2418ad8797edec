//! CI config

use vstd::prelude::*;

pub mod github;

use github::{GithubCiConfig, GithubCiLayer, GithubCiView};

use crate::config::v1::layer::{
    bool_layered, opt_or, val_or, ApplyBoolLayerExt, ApplyLayer, ApplyOptExt, ApplyValExt, BoolOr,
};
use crate::config::{clone_jobs, JobStyle, PrRunMode};
use crate::strings::clone_opt_string;
use crate::workspace::WorkspaceGraph;

verus! {

/// CI config (final)
#[derive(Debug)]
pub struct CiConfig {
    /// github ci config
    pub github: Option<GithubCiConfig>,
}

impl CiConfig {
    /// The CI config that `src` resolves to
    pub open spec fn inherits(self, src: CiConfigInheritable) -> bool {
        match src.github {
            Some(layer) => self.github matches Some(g) && g@ == GithubCiView::defaults(
                src.common,
            ).layered(layer),
            None => self.github is None,
        }
    }
}

/// CI config (inheritance not folded in yet)
#[derive(Debug)]
pub struct CiConfigInheritable {
    /// inheritable fields
    pub common: CommonCiConfig,
    /// github ci config
    pub github: Option<GithubCiLayer>,
}

/// CI config (raw from file)
#[derive(Debug)]
pub struct CiLayer {
    /// inheritable fields
    pub common: CommonCiLayer,
    /// github ci config
    pub github: Option<BoolOr<GithubCiLayer>>,
}

impl CiConfigInheritable {
    /// get defaults for a workspace
    pub fn defaults_for_workspace(workspaces: &WorkspaceGraph) -> (r: Self)
        ensures
            r.common.is_defaults(),
            r.github is None,
    {
        Self { common: CommonCiConfig::defaults_for_workspace(workspaces), github: None }
    }

    /// apply inheritance to get final workspace config
    pub fn apply_inheritance_for_workspace(self, workspaces: &WorkspaceGraph) -> (r: CiConfig)
        ensures
            r.inherits(self),
    {
        let Self { common, github } = self;
        let github = match github {
            Some(github) => {
                let mut default = GithubCiConfig::defaults_with_common(common);
                default.apply_layer(github);
                Some(default)
            },
            None => None,
        };
        CiConfig { github }
    }
}

impl ApplyLayer for CiConfigInheritable {
    type Layer = CiLayer;

    open spec fn layered(self, layer: CiLayer) -> Self {
        CiConfigInheritable {
            common: self.common.layered(layer.common),
            github: bool_layered(self.github, layer.github, GithubCiLayer::spec_default()),
        }
    }

    fn apply_layer(&mut self, layer: CiLayer) {
        let CiLayer { common, github } = layer;
        self.common.apply_layer(common);
        self.github.apply_bool_layer(github);
    }
}

/// inheritable CI config (raw from file)
#[derive(Debug)]
pub struct CommonCiLayer {
    /// Whether we should try to merge otherwise-parallelizable tasks onto the same machine,
    /// sacrificing latency and fault-isolation for more the sake of minor effeciency gains.
    ///
    /// (defaults to false)
    pub merge_tasks: Option<bool>,
    /// Whether failing tasks should make us give up on all other tasks
    ///
    /// (defaults to false)
    pub fail_fast: Option<bool>,
    /// Whether CI tasks should have build caches enabled.
    pub cache_builds: Option<bool>,
    /// Whether CI should include logic to build local artifacts (default true)
    pub build_local_artifacts: Option<bool>,
    /// Whether CI should trigger releases by dispatch instead of tag push (default false)
    pub dispatch_releases: Option<bool>,
    /// Instead of triggering releases on tags, trigger on pushing to a specific branch
    pub release_branch: Option<String>,
    /// Which actions to run on pull requests.
    pub pr_run_mode: Option<PrRunMode>,
    /// a prefix to add to the release.yml and tag pattern so that
    /// dist can co-exist with other release workflows in complex workspaces
    pub tag_namespace: Option<String>,
    /// Plan jobs to run in CI
    pub plan_jobs: Option<Vec<JobStyle>>,
    /// Local artifacts jobs to run in CI
    pub build_local_jobs: Option<Vec<JobStyle>>,
    /// Global artifacts jobs to run in CI
    pub build_global_jobs: Option<Vec<JobStyle>>,
    /// Host jobs to run in CI
    pub host_jobs: Option<Vec<JobStyle>>,
    /// Publish jobs to run in CI
    pub publish_jobs: Option<Vec<JobStyle>>,
    /// Post-announce jobs to run in CI
    pub post_announce_jobs: Option<Vec<JobStyle>>,
}

impl CommonCiLayer {
    /// The layer that sets nothing
    pub open spec fn spec_default() -> CommonCiLayer {
        CommonCiLayer {
            merge_tasks: None,
            fail_fast: None,
            cache_builds: None,
            build_local_artifacts: None,
            dispatch_releases: None,
            release_branch: None,
            pr_run_mode: None,
            tag_namespace: None,
            plan_jobs: None,
            build_local_jobs: None,
            build_global_jobs: None,
            host_jobs: None,
            publish_jobs: None,
            post_announce_jobs: None,
        }
    }
}

impl Default for CommonCiLayer {
    fn default() -> (r: Self)
        ensures
            r == CommonCiLayer::spec_default(),
    {
        CommonCiLayer {
            merge_tasks: None,
            fail_fast: None,
            cache_builds: None,
            build_local_artifacts: None,
            dispatch_releases: None,
            release_branch: None,
            pr_run_mode: None,
            tag_namespace: None,
            plan_jobs: None,
            build_local_jobs: None,
            build_global_jobs: None,
            host_jobs: None,
            publish_jobs: None,
            post_announce_jobs: None,
        }
    }
}

/// inheritable CI config (final)
#[derive(Debug)]
pub struct CommonCiConfig {
    /// Whether we should try to merge otherwise-parallelizable tasks onto the same machine
    pub merge_tasks: bool,
    /// Whether failing tasks should make us give up on all other tasks
    pub fail_fast: bool,
    /// Whether CI tasks should have build caches enabled.
    pub cache_builds: Option<bool>,
    /// Whether CI should include logic to build local artifacts (default true)
    pub build_local_artifacts: bool,
    /// Whether CI should trigger releases by dispatch instead of tag push (default false)
    pub dispatch_releases: bool,
    /// Instead of triggering releases on tags, trigger on pushing to a specific branch
    pub release_branch: Option<String>,
    /// Which actions to run on pull requests.
    pub pr_run_mode: PrRunMode,
    /// a prefix to add to the release.yml and tag pattern
    pub tag_namespace: Option<String>,
    /// Plan jobs to run in CI
    pub plan_jobs: Vec<JobStyle>,
    /// Local artifacts jobs to run in CI
    pub build_local_jobs: Vec<JobStyle>,
    /// Global artifacts jobs to run in CI
    pub build_global_jobs: Vec<JobStyle>,
    /// Host jobs to run in CI
    pub host_jobs: Vec<JobStyle>,
    /// Publish jobs to run in CI
    pub publish_jobs: Vec<JobStyle>,
    /// Post-announce jobs to run in CI
    pub post_announce_jobs: Vec<JobStyle>,
}

impl CommonCiConfig {
    /// Both hold the same settings
    pub open spec fn same_as(self, other: CommonCiConfig) -> bool {
        &&& self.merge_tasks == other.merge_tasks
        &&& self.fail_fast == other.fail_fast
        &&& self.cache_builds == other.cache_builds
        &&& self.build_local_artifacts == other.build_local_artifacts
        &&& self.dispatch_releases == other.dispatch_releases
        &&& self.release_branch == other.release_branch
        &&& self.pr_run_mode == other.pr_run_mode
        &&& self.tag_namespace == other.tag_namespace
        &&& self.plan_jobs@ == other.plan_jobs@
        &&& self.build_local_jobs@ == other.build_local_jobs@
        &&& self.build_global_jobs@ == other.build_global_jobs@
        &&& self.host_jobs@ == other.host_jobs@
        &&& self.publish_jobs@ == other.publish_jobs@
        &&& self.post_announce_jobs@ == other.post_announce_jobs@
    }

    /// No job lists, branch or namespace, and every flag as given
    pub open spec fn is_plain(
        self,
        build_local_artifacts: bool,
        pr_run_mode: PrRunMode,
    ) -> bool {
        &&& !self.merge_tasks
        &&& !self.fail_fast
        &&& self.cache_builds is None
        &&& self.build_local_artifacts == build_local_artifacts
        &&& !self.dispatch_releases
        &&& self.release_branch is None
        &&& self.pr_run_mode == pr_run_mode
        &&& self.tag_namespace is None
        &&& self.plan_jobs@.len() == 0
        &&& self.build_local_jobs@.len() == 0
        &&& self.build_global_jobs@.len() == 0
        &&& self.host_jobs@.len() == 0
        &&& self.publish_jobs@.len() == 0
        &&& self.post_announce_jobs@.len() == 0
    }

    /// The CI settings of a workspace before any layer
    pub open spec fn is_defaults(self) -> bool {
        self.is_plain(true, PrRunMode::Plan)
    }

    /// get defaults for a workspace
    pub fn defaults_for_workspace(_workspaces: &WorkspaceGraph) -> (r: Self)
        ensures
            r.is_defaults(),
    {
        Self {
            merge_tasks: false,
            fail_fast: false,
            cache_builds: None,
            build_local_artifacts: true,
            dispatch_releases: false,
            release_branch: None,
            pr_run_mode: PrRunMode::default(),
            tag_namespace: None,
            plan_jobs: Vec::new(),
            build_local_jobs: Vec::new(),
            build_global_jobs: Vec::new(),
            host_jobs: Vec::new(),
            publish_jobs: Vec::new(),
            post_announce_jobs: Vec::new(),
        }
    }
}

impl Default for CommonCiConfig {
    /// Every flag off and nothing listed
    fn default() -> (r: Self)
        ensures
            r.is_plain(false, PrRunMode::Plan),
    {
        Self {
            merge_tasks: false,
            fail_fast: false,
            cache_builds: None,
            build_local_artifacts: false,
            dispatch_releases: false,
            release_branch: None,
            pr_run_mode: PrRunMode::default(),
            tag_namespace: None,
            plan_jobs: Vec::new(),
            build_local_jobs: Vec::new(),
            build_global_jobs: Vec::new(),
            host_jobs: Vec::new(),
            publish_jobs: Vec::new(),
            post_announce_jobs: Vec::new(),
        }
    }
}

impl Clone for CommonCiConfig {
    fn clone(&self) -> (r: Self)
        ensures
            r.same_as(*self),
    {
        CommonCiConfig {
            merge_tasks: self.merge_tasks,
            fail_fast: self.fail_fast,
            cache_builds: self.cache_builds,
            build_local_artifacts: self.build_local_artifacts,
            dispatch_releases: self.dispatch_releases,
            release_branch: clone_opt_string(&self.release_branch),
            pr_run_mode: self.pr_run_mode,
            tag_namespace: clone_opt_string(&self.tag_namespace),
            plan_jobs: clone_jobs(&self.plan_jobs),
            build_local_jobs: clone_jobs(&self.build_local_jobs),
            build_global_jobs: clone_jobs(&self.build_global_jobs),
            host_jobs: clone_jobs(&self.host_jobs),
            publish_jobs: clone_jobs(&self.publish_jobs),
            post_announce_jobs: clone_jobs(&self.post_announce_jobs),
        }
    }
}

impl ApplyLayer for CommonCiConfig {
    type Layer = CommonCiLayer;

    open spec fn layered(self, layer: CommonCiLayer) -> Self {
        CommonCiConfig {
            merge_tasks: val_or(self.merge_tasks, layer.merge_tasks),
            fail_fast: val_or(self.fail_fast, layer.fail_fast),
            cache_builds: opt_or(self.cache_builds, layer.cache_builds),
            build_local_artifacts: val_or(self.build_local_artifacts, layer.build_local_artifacts),
            dispatch_releases: val_or(self.dispatch_releases, layer.dispatch_releases),
            release_branch: opt_or(self.release_branch, layer.release_branch),
            pr_run_mode: val_or(self.pr_run_mode, layer.pr_run_mode),
            tag_namespace: opt_or(self.tag_namespace, layer.tag_namespace),
            plan_jobs: val_or(self.plan_jobs, layer.plan_jobs),
            build_local_jobs: val_or(self.build_local_jobs, layer.build_local_jobs),
            build_global_jobs: val_or(self.build_global_jobs, layer.build_global_jobs),
            host_jobs: val_or(self.host_jobs, layer.host_jobs),
            publish_jobs: val_or(self.publish_jobs, layer.publish_jobs),
            post_announce_jobs: val_or(self.post_announce_jobs, layer.post_announce_jobs),
        }
    }

    fn apply_layer(&mut self, layer: CommonCiLayer) {
        let CommonCiLayer {
            merge_tasks,
            fail_fast,
            cache_builds,
            build_local_artifacts,
            dispatch_releases,
            release_branch,
            pr_run_mode,
            tag_namespace,
            plan_jobs,
            build_local_jobs,
            build_global_jobs,
            host_jobs,
            publish_jobs,
            post_announce_jobs,
        } = layer;
        self.merge_tasks.apply_val(merge_tasks);
        self.fail_fast.apply_val(fail_fast);
        self.cache_builds.apply_opt(cache_builds);
        self.build_local_artifacts.apply_val(build_local_artifacts);
        self.dispatch_releases.apply_val(dispatch_releases);
        self.release_branch.apply_opt(release_branch);
        self.pr_run_mode.apply_val(pr_run_mode);
        self.tag_namespace.apply_opt(tag_namespace);
        self.plan_jobs.apply_val(plan_jobs);
        self.build_local_jobs.apply_val(build_local_jobs);
        self.build_global_jobs.apply_val(build_global_jobs);
        self.host_jobs.apply_val(host_jobs);
        self.publish_jobs.apply_val(publish_jobs);
        self.post_announce_jobs.apply_val(post_announce_jobs);
    }
}

impl ApplyLayer for CommonCiLayer {
    type Layer = CommonCiLayer;

    open spec fn layered(self, layer: CommonCiLayer) -> Self {
        CommonCiLayer {
            merge_tasks: opt_or(self.merge_tasks, layer.merge_tasks),
            fail_fast: opt_or(self.fail_fast, layer.fail_fast),
            cache_builds: opt_or(self.cache_builds, layer.cache_builds),
            build_local_artifacts: opt_or(self.build_local_artifacts, layer.build_local_artifacts),
            dispatch_releases: opt_or(self.dispatch_releases, layer.dispatch_releases),
            release_branch: opt_or(self.release_branch, layer.release_branch),
            pr_run_mode: opt_or(self.pr_run_mode, layer.pr_run_mode),
            tag_namespace: opt_or(self.tag_namespace, layer.tag_namespace),
            plan_jobs: opt_or(self.plan_jobs, layer.plan_jobs),
            build_local_jobs: opt_or(self.build_local_jobs, layer.build_local_jobs),
            build_global_jobs: opt_or(self.build_global_jobs, layer.build_global_jobs),
            host_jobs: opt_or(self.host_jobs, layer.host_jobs),
            publish_jobs: opt_or(self.publish_jobs, layer.publish_jobs),
            post_announce_jobs: opt_or(self.post_announce_jobs, layer.post_announce_jobs),
        }
    }

    fn apply_layer(&mut self, layer: CommonCiLayer) {
        let CommonCiLayer {
            merge_tasks,
            fail_fast,
            cache_builds,
            build_local_artifacts,
            dispatch_releases,
            release_branch,
            pr_run_mode,
            tag_namespace,
            plan_jobs,
            build_local_jobs,
            build_global_jobs,
            host_jobs,
            publish_jobs,
            post_announce_jobs,
        } = layer;
        self.merge_tasks.apply_opt(merge_tasks);
        self.fail_fast.apply_opt(fail_fast);
        self.cache_builds.apply_opt(cache_builds);
        self.build_local_artifacts.apply_opt(build_local_artifacts);
        self.dispatch_releases.apply_opt(dispatch_releases);
        self.release_branch.apply_opt(release_branch);
        self.pr_run_mode.apply_opt(pr_run_mode);
        self.tag_namespace.apply_opt(tag_namespace);
        self.plan_jobs.apply_opt(plan_jobs);
        self.build_local_jobs.apply_opt(build_local_jobs);
        self.build_global_jobs.apply_opt(build_global_jobs);
        self.host_jobs.apply_opt(host_jobs);
        self.publish_jobs.apply_opt(publish_jobs);
        self.post_announce_jobs.apply_opt(post_announce_jobs);
    }
}

} // verus!
