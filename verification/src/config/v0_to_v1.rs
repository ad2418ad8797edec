//! conversion layer from v0 config to v1 config

use vstd::prelude::*;

use crate::config::v0::DistMetadata;
use crate::config::v1::artifacts::archives::ArchiveLayer;
use crate::config::v1::artifacts::ArtifactLayer;
use crate::config::v1::builds::cargo::CargoBuildLayer;
use crate::config::v1::builds::{BuildLayer, CommonBuildLayer};
use crate::config::v1::ci::github::GithubCiLayer;
use crate::config::v1::ci::{CiLayer, CommonCiLayer};
use crate::config::v1::hosts::github::GithubHostLayer;
use crate::config::v1::hosts::{CommonHostLayer, HostLayer};
use crate::config::v1::installers::homebrew::HomebrewInstallerLayer;
use crate::config::v1::installers::npm::NpmInstallerLayer;
use crate::config::v1::installers::pkg::PkgInstallerLayer;
use crate::config::v1::installers::{CommonInstallerLayer, InstallerLayer};
use crate::config::v1::layer::BoolOr;
use crate::config::v1::publishers::{CommonPublisherLayer, PublisherLayer};
use crate::config::v1::TomlLayer;
use crate::config::{CiStyle, ConfigVersion, HostingStyle, InstallerStyle, JobStyle, MacPkgConfig, PublishStyle};
use crate::strings::clone_string;

verus! {

/// Whether `item` is in `list`, when there is a list
pub open spec fn listed<I>(list: Option<Vec<I>>, item: I) -> Option<bool> {
    match list {
        Some(l) => Some(l@.contains(item)),
        None => None,
    }
}

/// The layer for one kind of thing (an installer, a host...) that a v0
/// list of enabled kinds and the kind's own settings stand for.
///
/// Settings of its own force the layer to exist; otherwise being in the
/// list is a simple boolean, except that in the global list an omitted
/// kind is left unmentioned (there none and false are the same).
pub open spec fn bool_layer_spec<T>(is_global: bool, listed: Option<bool>, val: Option<T>) -> Option<BoolOr<T>> {
    match val {
        Some(v) => Some(BoolOr::Val(v)),
        None => match listed {
            None => None,
            Some(in_list) => if is_global && !in_list {
                None
            } else {
                Some(BoolOr::Bool(in_list))
            },
        },
    }
}

/// The names of the user jobs among publish jobs, in order
pub open spec fn user_job_names(p: Seq<PublishStyle>) -> Seq<Seq<char>>
    decreases p.len(),
{
    if p.len() == 0 {
        Seq::empty()
    } else {
        let rest = user_job_names(p.drop_last());
        match p.last() {
            PublishStyle::User(s) => rest.push(s@),
            _ => rest,
        }
    }
}

/// The names of a list of jobs
pub open spec fn job_names(v: Seq<JobStyle>) -> Seq<Seq<char>> {
    v.map_values(|j: JobStyle| j@)
}

impl DistMetadata {
    /// The archive layer these settings stand for
    pub open spec fn archive_layer_spec(self) -> Option<ArchiveLayer> {
        if self.included_files is Some || self.auto_includes is Some || self.windows_archive is Some
            || self.unix_archive is Some || self.package_libraries is Some {
            Some(
                ArchiveLayer {
                    included_files: self.included_files,
                    auto_includes: self.auto_includes,
                    windows_archive: self.windows_archive,
                    unix_archive: self.unix_archive,
                    package_libraries: self.package_libraries,
                },
            )
        } else {
            None
        }
    }

    /// The artifact layer these settings stand for
    pub open spec fn artifact_layer_spec(self) -> Option<ArtifactLayer> {
        let archives = self.archive_layer_spec();
        if archives is Some || self.source_tarball is Some || self.extra_artifacts is Some
            || self.checksum is Some {
            Some(
                ArtifactLayer {
                    archives,
                    source_tarball: self.source_tarball,
                    recursive_tarball: None,
                    extra: self.extra_artifacts,
                    checksum: self.checksum,
                },
            )
        } else {
            None
        }
    }

    /// The cargo build layer these settings stand for
    pub open spec fn cargo_layer_spec(self) -> Option<BoolOr<CargoBuildLayer>> {
        if self.rust_toolchain_version is Some || self.precise_builds is Some || self.features is Some
            || self.default_features is Some || self.all_features is Some
            || self.cargo_auditable is Some || self.cargo_cyclonedx is Some {
            Some(
                BoolOr::Val(
                    CargoBuildLayer {
                        common: CommonBuildLayer {  },
                        rust_toolchain_version: self.rust_toolchain_version,
                        precise_builds: self.precise_builds,
                        features: self.features,
                        default_features: self.default_features,
                        all_features: self.all_features,
                        msvc_crt_static: self.msvc_crt_static,
                        cargo_auditable: self.cargo_auditable,
                        cargo_cyclonedx: self.cargo_cyclonedx,
                    },
                ),
            )
        } else {
            None
        }
    }

    /// The build layer these settings stand for
    pub open spec fn build_layer_spec(self) -> Option<BuildLayer> {
        let cargo = self.cargo_layer_spec();
        if cargo is Some || self.system_dependencies is Some || self.ssldotcom_windows_sign is Some
            || self.msvc_crt_static is Some || self.min_glibc_version is Some
            || self.omnibor is Some {
            Some(
                BuildLayer {
                    common: CommonBuildLayer {  },
                    ssldotcom_windows_sign: self.ssldotcom_windows_sign,
                    macos_sign: self.macos_sign,
                    system_dependencies: self.system_dependencies,
                    cargo,
                    generic: None,
                    min_glibc_version: self.min_glibc_version,
                    omnibor: self.omnibor,
                },
            )
        } else {
            None
        }
    }

    /// The github CI layer these settings stand for
    pub open spec fn github_ci_layer_spec(self, is_global: bool) -> Option<BoolOr<GithubCiLayer>> {
        bool_layer_spec(
            is_global,
            listed(self.ci, CiStyle::Github),
            if self.github_custom_runners is Some || self.github_custom_job_permissions is Some
                || self.github_build_setup is Some || self.github_action_commits is Some {
                Some(
                    GithubCiLayer {
                        common: CommonCiLayer::spec_default(),
                        runners: self.github_custom_runners,
                        permissions: self.github_custom_job_permissions,
                        secrets: None,
                        build_setup: self.github_build_setup,
                        action_commits: self.github_action_commits,
                    },
                )
            } else {
                None
            },
        )
    }

    /// The names of the user publish jobs, when there are any
    pub open spec fn custom_publish_jobs_spec(self) -> Option<Seq<Seq<char>>> {
        match self.publish_jobs {
            Some(p) => if user_job_names(p@).len() == 0 {
                None
            } else {
                Some(user_job_names(p@))
            },
            None => None,
        }
    }

    /// Whether these settings call for a CI layer
    pub open spec fn needs_ci_layer(self, is_global: bool) -> bool {
        self.github_ci_layer_spec(is_global) is Some || self.merge_tasks is Some
            || self.fail_fast is Some || self.cache_builds is Some
            || self.build_local_artifacts is Some || self.dispatch_releases is Some
            || self.release_branch is Some || self.pr_run_mode is Some || self.tag_namespace is Some
            || self.plan_jobs is Some || self.local_artifacts_jobs is Some
            || self.global_artifacts_jobs is Some || self.host_jobs is Some
            || self.custom_publish_jobs_spec() is Some
    }

    /// The github host layer these settings stand for (before github CI
    /// is taken into account)
    pub open spec fn github_host_listed_spec(self, is_global: bool) -> Option<BoolOr<GithubHostLayer>> {
        bool_layer_spec(
            is_global,
            listed(self.hosting, HostingStyle::Github),
            if self.create_release is Some || self.github_releases_repo is Some
                || self.github_releases_submodule_path is Some || self.github_release is Some
                || self.github_attestations is Some {
                Some(
                    GithubHostLayer {
                        common: CommonHostLayer {  },
                        create: self.create_release,
                        repo: self.github_releases_repo,
                        submodule_path: self.github_releases_submodule_path,
                        during: self.github_release,
                        attestations: self.github_attestations,
                    },
                )
            } else {
                None
            },
        )
    }

    /// The host layer these settings stand for: github CI with no host
    /// named enables github hosting
    pub open spec fn host_layer_spec(self, is_global: bool) -> Option<HostLayer> {
        let axodotdev = bool_layer_spec::<crate::config::v1::hosts::axodotdev::AxodotdevHostLayer>(
            is_global,
            listed(self.hosting, HostingStyle::Axodotdev),
            None,
        );
        let listed_github = self.github_host_listed_spec(is_global);
        let github = if listed_github is None && axodotdev is None && self.github_ci_layer_spec(
            is_global,
        ) is Some {
            Some(BoolOr::Bool(true))
        } else {
            listed_github
        };
        if github is Some || axodotdev is Some || self.force_latest is Some || self.display is Some
            || self.display_name is Some {
            Some(
                HostLayer {
                    common: CommonHostLayer {  },
                    github,
                    axodotdev,
                    force_latest: self.force_latest,
                    display: self.display,
                    display_name: self.display_name,
                    order: None,
                },
            )
        } else {
            None
        }
    }

    /// The installer layer these settings stand for
    pub open spec fn installer_layer_spec(self, is_global: bool) -> Option<InstallerLayer> {
        let homebrew = bool_layer_spec(
            is_global,
            listed(self.installers, InstallerStyle::Homebrew),
            if self.tap is Some || self.formula is Some {
                Some(
                    HomebrewInstallerLayer {
                        common: CommonInstallerLayer::spec_default(),
                        tap: self.tap,
                        formula: self.formula,
                    },
                )
            } else {
                None
            },
        );
        let npm = bool_layer_spec(
            is_global,
            listed(self.installers, InstallerStyle::Npm),
            if self.npm_package is Some || self.npm_scope is Some {
                Some(
                    NpmInstallerLayer {
                        common: CommonInstallerLayer::spec_default(),
                        package: self.npm_package,
                        scope: self.npm_scope,
                    },
                )
            } else {
                None
            },
        );
        let msi = bool_layer_spec(is_global, listed(self.installers, InstallerStyle::Msi), None);
        let pkg = bool_layer_spec(
            is_global,
            listed(self.installers, InstallerStyle::Pkg),
            match self.mac_pkg_config {
                Some(c) => Some(
                    PkgInstallerLayer {
                        common: CommonInstallerLayer::spec_default(),
                        identifier: c.identifier,
                        install_location: c.install_location,
                    },
                ),
                None => None,
            },
        );
        let powershell = bool_layer_spec(
            is_global,
            listed(self.installers, InstallerStyle::Powershell),
            None,
        );
        let shell = bool_layer_spec(is_global, listed(self.installers, InstallerStyle::Shell), None);
        if homebrew is Some || npm is Some || msi is Some || powershell is Some || shell is Some
            || pkg is Some || self.install_path is Some || self.install_success_msg is Some
            || self.install_libraries is Some || self.bin_aliases is Some
            || self.install_updater is Some || self.always_use_latest_updater is Some {
            Some(
                InstallerLayer {
                    common: CommonInstallerLayer {
                        install_path: self.install_path,
                        install_success_msg: self.install_success_msg,
                        install_libraries: self.install_libraries,
                        bin_aliases: self.bin_aliases,
                    },
                    homebrew,
                    msi,
                    npm,
                    powershell,
                    shell,
                    pkg,
                    updater: self.install_updater,
                    always_use_latest_updater: self.always_use_latest_updater,
                },
            )
        } else {
            None
        }
    }

    /// The publisher layer these settings stand for
    pub open spec fn publisher_layer_spec(self, is_global: bool) -> Option<PublisherLayer> {
        let homebrew = bool_layer_spec::<crate::config::v1::publishers::homebrew::HomebrewPublisherLayer>(
            is_global,
            listed(self.publish_jobs, PublishStyle::Homebrew),
            None,
        );
        let npm = bool_layer_spec::<crate::config::v1::publishers::npm::NpmPublisherLayer>(
            is_global,
            listed(self.publish_jobs, PublishStyle::Npm),
            None,
        );
        if homebrew is Some || npm is Some || self.publish_prereleases is Some {
            Some(
                PublisherLayer {
                    common: CommonPublisherLayer { prereleases: self.publish_prereleases },
                    homebrew,
                    npm,
                },
            )
        } else {
            None
        }
    }
}

impl CiLayer {
    /// This is the CI layer that the v0 settings `m` stand for
    pub open spec fn converted_from(self, m: DistMetadata, is_global: bool) -> bool {
        &&& self.github == m.github_ci_layer_spec(is_global)
        &&& self.common.merge_tasks == m.merge_tasks
        &&& self.common.fail_fast == m.fail_fast
        &&& self.common.cache_builds == m.cache_builds
        &&& self.common.build_local_artifacts == m.build_local_artifacts
        &&& self.common.dispatch_releases == m.dispatch_releases
        &&& self.common.release_branch == m.release_branch
        &&& self.common.pr_run_mode == m.pr_run_mode
        &&& self.common.tag_namespace == m.tag_namespace
        &&& self.common.plan_jobs == m.plan_jobs
        &&& self.common.build_local_jobs == m.local_artifacts_jobs
        &&& self.common.build_global_jobs == m.global_artifacts_jobs
        &&& self.common.host_jobs == m.host_jobs
        &&& self.common.post_announce_jobs == m.post_announce_jobs
        &&& match m.custom_publish_jobs_spec() {
            Some(names) => self.common.publish_jobs matches Some(jobs) && job_names(jobs@) == names,
            None => self.common.publish_jobs is None,
        }
    }
}

impl TomlLayer {
    /// This is the v1 layer that the v0 settings `m` stand for
    pub open spec fn converted_from(self, m: DistMetadata, is_global: bool) -> bool {
        &&& self.config_version == ConfigVersion::V1
        &&& self.dist_version == m.cargo_dist_version
        &&& self.dist_url_override == m.cargo_dist_url_override
        &&& self.dist == m.dist
        &&& self.allow_dirty == m.allow_dirty
        &&& self.targets == m.targets
        &&& self.artifacts == m.artifact_layer_spec()
        &&& self.builds == m.build_layer_spec()
        &&& self.ci is Some == m.needs_ci_layer(is_global)
        &&& self.ci is Some ==> self.ci->0.converted_from(m, is_global)
        &&& self.hosts == m.host_layer_spec(is_global)
        &&& self.installers == m.installer_layer_spec(is_global)
        &&& self.publishers == m.publisher_layer_spec(is_global)
    }
}

/// Whether `item` is in `list`, when there is a list
fn ci_listed(list: &Option<Vec<CiStyle>>, item: CiStyle) -> (r: Option<bool>)
    ensures
        r == listed(*list, item),
{
    match list {
        Some(l) => {
            let mut i: usize = 0;
            while i < l.len()
                invariant
                    i <= l@.len(),
                    *list == Some(*l),
                    forall|j: int| 0 <= j < i ==> l@[j] != item,
                decreases l.len() - i,
            {
                if l[i] == item {
                    assert(l@[i as int] == item);
                    return Some(true);
                }
                i = i + 1;
            }
            Some(false)
        },
        None => None,
    }
}

/// Whether `item` is in `list`, when there is a list
fn hosting_listed(list: &Option<Vec<HostingStyle>>, item: HostingStyle) -> (r: Option<bool>)
    ensures
        r == listed(*list, item),
{
    match list {
        Some(l) => {
            let mut i: usize = 0;
            while i < l.len()
                invariant
                    i <= l@.len(),
                    *list == Some(*l),
                    forall|j: int| 0 <= j < i ==> l@[j] != item,
                decreases l.len() - i,
            {
                if l[i] == item {
                    assert(l@[i as int] == item);
                    return Some(true);
                }
                i = i + 1;
            }
            Some(false)
        },
        None => None,
    }
}

/// Whether `item` is in `list`, when there is a list
fn installer_listed(list: &Option<Vec<InstallerStyle>>, item: InstallerStyle) -> (r: Option<bool>)
    ensures
        r == listed(*list, item),
{
    match list {
        Some(l) => {
            let mut i: usize = 0;
            while i < l.len()
                invariant
                    i <= l@.len(),
                    *list == Some(*l),
                    forall|j: int| 0 <= j < i ==> l@[j] != item,
                decreases l.len() - i,
            {
                if l[i] == item {
                    assert(l@[i as int] == item);
                    return Some(true);
                }
                i = i + 1;
            }
            Some(false)
        },
        None => None,
    }
}

/// Whether a publish job is the built-in `homebrew` (or, if not, the built-in `npm`) job
fn is_builtin_publish_job(p: &PublishStyle, homebrew: bool) -> (r: bool)
    ensures
        r == if homebrew {
            *p == PublishStyle::Homebrew
        } else {
            *p == PublishStyle::Npm
        },
{
    match p {
        PublishStyle::Homebrew => homebrew,
        PublishStyle::Npm => !homebrew,
        PublishStyle::User(_) => false,
    }
}

/// Whether the built-in `homebrew` (or, if not, `npm`) job is in `list`, when there is a list
fn publish_listed(list: &Option<Vec<PublishStyle>>, homebrew: bool) -> (r: Option<bool>)
    ensures
        r == listed(*list, if homebrew { PublishStyle::Homebrew } else { PublishStyle::Npm }),
{
    let ghost item = if homebrew { PublishStyle::Homebrew } else { PublishStyle::Npm };
    match list {
        Some(l) => {
            let mut i: usize = 0;
            while i < l.len()
                invariant
                    i <= l@.len(),
                    *list == Some(*l),
                    item == if homebrew { PublishStyle::Homebrew } else { PublishStyle::Npm },
                    forall|j: int| 0 <= j < i ==> l@[j] != item,
                decreases l.len() - i,
            {
                if is_builtin_publish_job(&l[i], homebrew) {
                    assert(l@[i as int] == item);
                    return Some(true);
                }
                i = i + 1;
            }
            Some(false)
        },
        None => None,
    }
}

/// The user jobs among publish jobs, in order
fn user_publish_jobs(p: &Vec<PublishStyle>) -> (r: Vec<JobStyle>)
    ensures
        job_names(r@) == user_job_names(p@),
{
    let mut out: Vec<JobStyle> = Vec::new();
    let mut i: usize = 0;
    while i < p.len()
        invariant
            i <= p@.len(),
            job_names(out@) == user_job_names(p@.take(i as int)),
        decreases p.len() - i,
    {
        let ghost prev = out@;
        proof {
            assert(p@.take(i + 1).drop_last() == p@.take(i as int));
        }
        if let PublishStyle::User(path) = &p[i] {
            out.push(JobStyle::User(clone_string(path)));
            assert(job_names(out@) =~= job_names(prev).push(path@));
        }
        i = i + 1;
    }
    assert(p@.take(p.len() as int) == p@);
    out
}

/// The layer for one kind of thing that a v0 list of enabled kinds and the
/// kind's own settings stand for (see [`bool_layer_spec`])
fn list_to_bool_layer<T>(is_global: bool, listed: Option<bool>, val: Option<T>) -> (r: Option<
    BoolOr<T>,
>)
    ensures
        r == bool_layer_spec(is_global, listed, val),
{
    // If this thing has values that need to be set, force the layer to exist
    if let Some(val) = val {
        return Some(BoolOr::Val(val));
    };
    // If the list doesn't exist, don't mention it
    let is_in_list = match listed {
        Some(b) => b,
        None => return None,
    };
    if is_global && !is_in_list {
        // ... with the exception of an omitted value in the global list.
        // here None and Some(false) are the same, so Some(false) is Noise
        // we want to hide.
        None
    } else {
        Some(BoolOr::Bool(is_in_list))
    }
}

impl DistMetadata {
    /// Convert the v0 config format to v1
    ///
    /// The result is the conversion of a copy of these settings.
    pub fn to_toml_layer(&self, is_global: bool) -> (r: TomlLayer)
        ensures
            exists|m: DistMetadata| #[trigger] m.same_as(*self) && r.converted_from(m, is_global),
    {
        let m = self.clone();
        let ghost copy = m;
        let r = m.into_toml_layer(is_global);
        assert(copy.same_as(*self) && r.converted_from(copy, is_global));
        r
    }

    /// Convert the v0 config format to v1, consuming the settings
    #[verifier::rlimit(100)]
    #[verifier::spinoff_prover]
    pub fn into_toml_layer(self, is_global: bool) -> (r: TomlLayer)
        ensures
            r.converted_from(self, is_global),
    {
        let ghost m = self;
        let custom_publish_jobs = match &self.publish_jobs {
            Some(p) => {
                let jobs = user_publish_jobs(p);
                if jobs.len() == 0 {
                    None
                } else {
                    Some(jobs)
                }
            },
            None => None,
        };
        let ci_github_listed = ci_listed(&self.ci, CiStyle::Github);
        let hosting_github_listed = hosting_listed(&self.hosting, HostingStyle::Github);
        let hosting_axodotdev_listed = hosting_listed(&self.hosting, HostingStyle::Axodotdev);
        let homebrew_listed = installer_listed(&self.installers, InstallerStyle::Homebrew);
        let npm_listed = installer_listed(&self.installers, InstallerStyle::Npm);
        let msi_listed = installer_listed(&self.installers, InstallerStyle::Msi);
        let pkg_listed = installer_listed(&self.installers, InstallerStyle::Pkg);
        let powershell_listed = installer_listed(&self.installers, InstallerStyle::Powershell);
        let shell_listed = installer_listed(&self.installers, InstallerStyle::Shell);
        let homebrew_publish_listed = publish_listed(&self.publish_jobs, true);
        let npm_publish_listed = publish_listed(&self.publish_jobs, false);

        let DistMetadata {
            cargo_dist_version,
            cargo_dist_url_override,
            rust_toolchain_version,
            dist,
            ci: _,
            pr_run_mode,
            allow_dirty,
            installers: _,
            install_success_msg,
            tap,
            formula,
            system_dependencies,
            targets,
            included_files,
            auto_includes,
            msvc_crt_static,
            windows_archive,
            unix_archive,
            npm_package,
            npm_scope,
            checksum,
            precise_builds,
            merge_tasks,
            fail_fast,
            cache_builds,
            build_local_artifacts,
            dispatch_releases,
            release_branch,
            install_path,
            features,
            default_features,
            all_features,
            plan_jobs,
            local_artifacts_jobs,
            global_artifacts_jobs,
            source_tarball,
            host_jobs,
            publish_jobs: _,
            post_announce_jobs,
            publish_prereleases,
            force_latest,
            create_release,
            github_releases_repo,
            github_releases_submodule_path,
            github_release,
            ssldotcom_windows_sign,
            macos_sign,
            github_attestations,
            hosting: _,
            extra_artifacts,
            github_custom_runners,
            github_custom_job_permissions,
            github_action_commits,
            bin_aliases,
            tag_namespace,
            install_updater,
            always_use_latest_updater,
            display,
            display_name,
            package_libraries,
            install_libraries,
            github_build_setup,
            mac_pkg_config,
            min_glibc_version,
            cargo_auditable,
            cargo_cyclonedx,
            omnibor,
        } = self;

        // Archives
        let needs_archive_layer = included_files.is_some() || auto_includes.is_some()
            || windows_archive.is_some() || unix_archive.is_some() || package_libraries.is_some();
        let archive_layer = if needs_archive_layer {
            Some(
                ArchiveLayer {
                    included_files,
                    auto_includes,
                    windows_archive,
                    unix_archive,
                    package_libraries,
                },
            )
        } else {
            None
        };
        let needs_artifacts = archive_layer.is_some() || source_tarball.is_some()
            || extra_artifacts.is_some() || checksum.is_some();
        let artifacts_layer = if needs_artifacts {
            Some(
                ArtifactLayer {
                    archives: archive_layer,
                    source_tarball,
                    recursive_tarball: None,
                    extra: extra_artifacts,
                    checksum,
                },
            )
        } else {
            None
        };

        // Builds
        let needs_cargo_build_layer = rust_toolchain_version.is_some() || precise_builds.is_some()
            || features.is_some() || default_features.is_some() || all_features.is_some()
            || cargo_auditable.is_some() || cargo_cyclonedx.is_some();
        let cargo_layer = if needs_cargo_build_layer {
            Some(
                BoolOr::Val(
                    CargoBuildLayer {
                        common: CommonBuildLayer::default(),
                        rust_toolchain_version,
                        precise_builds,
                        features,
                        default_features,
                        all_features,
                        msvc_crt_static,
                        cargo_auditable,
                        cargo_cyclonedx,
                    },
                ),
            )
        } else {
            None
        };
        let needs_build_layer = cargo_layer.is_some() || system_dependencies.is_some()
            || ssldotcom_windows_sign.is_some() || msvc_crt_static.is_some()
            || min_glibc_version.is_some() || omnibor.is_some();
        let build_layer = if needs_build_layer {
            Some(
                BuildLayer {
                    common: CommonBuildLayer {  },
                    ssldotcom_windows_sign,
                    macos_sign,
                    system_dependencies,
                    cargo: cargo_layer,
                    generic: None,
                    min_glibc_version,
                    omnibor,
                },
            )
        } else {
            None
        };

        // CI
        let github_ci_val = if github_custom_runners.is_some()
            || github_custom_job_permissions.is_some() || github_build_setup.is_some()
            || github_action_commits.is_some() {
            Some(
                GithubCiLayer {
                    common: CommonCiLayer::default(),
                    runners: github_custom_runners,
                    permissions: github_custom_job_permissions,
                    secrets: None,
                    build_setup: github_build_setup,
                    action_commits: github_action_commits,
                },
            )
        } else {
            None
        };
        let github_ci_layer = list_to_bool_layer(is_global, ci_github_listed, github_ci_val);
        let has_github_ci = github_ci_layer.is_some();
        let needs_ci_layer = github_ci_layer.is_some() || merge_tasks.is_some()
            || fail_fast.is_some() || cache_builds.is_some() || build_local_artifacts.is_some()
            || dispatch_releases.is_some() || release_branch.is_some() || pr_run_mode.is_some()
            || tag_namespace.is_some() || plan_jobs.is_some() || local_artifacts_jobs.is_some()
            || global_artifacts_jobs.is_some() || host_jobs.is_some()
            || custom_publish_jobs.is_some();
        let ci_layer = if needs_ci_layer {
            Some(
                CiLayer {
                    common: CommonCiLayer {
                        merge_tasks,
                        fail_fast,
                        cache_builds,
                        build_local_artifacts,
                        dispatch_releases,
                        release_branch,
                        pr_run_mode,
                        tag_namespace,
                        plan_jobs,
                        build_local_jobs: local_artifacts_jobs,
                        build_global_jobs: global_artifacts_jobs,
                        host_jobs,
                        publish_jobs: custom_publish_jobs,
                        post_announce_jobs,
                    },
                    github: github_ci_layer,
                },
            )
        } else {
            None
        };

        // hosts
        let github_host_val = if create_release.is_some() || github_releases_repo.is_some()
            || github_releases_submodule_path.is_some() || github_release.is_some()
            || github_attestations.is_some() {
            Some(
                GithubHostLayer {
                    common: CommonHostLayer::default(),
                    create: create_release,
                    repo: github_releases_repo,
                    submodule_path: github_releases_submodule_path,
                    during: github_release,
                    attestations: github_attestations,
                },
            )
        } else {
            None
        };
        let mut github_host_layer = list_to_bool_layer(
            is_global,
            hosting_github_listed,
            github_host_val,
        );
        let axodotdev_host_layer = list_to_bool_layer(is_global, hosting_axodotdev_listed, None);
        if github_host_layer.is_none() && axodotdev_host_layer.is_none() && has_github_ci {
            github_host_layer = Some(BoolOr::Bool(true));
        }
        let needs_host_layer = github_host_layer.is_some() || axodotdev_host_layer.is_some()
            || force_latest.is_some() || display.is_some() || display_name.is_some();
        let host_layer = if needs_host_layer {
            Some(
                HostLayer {
                    common: CommonHostLayer {  },
                    github: github_host_layer,
                    axodotdev: axodotdev_host_layer,
                    force_latest,
                    display,
                    display_name,
                    order: None,
                },
            )
        } else {
            None
        };

        // installers
        let homebrew_val = if tap.is_some() || formula.is_some() {
            Some(HomebrewInstallerLayer { common: CommonInstallerLayer::default(), tap, formula })
        } else {
            None
        };
        let homebrew_installer_layer = list_to_bool_layer(is_global, homebrew_listed, homebrew_val);
        let npm_val = if npm_package.is_some() || npm_scope.is_some() {
            Some(
                NpmInstallerLayer {
                    common: CommonInstallerLayer::default(),
                    package: npm_package,
                    scope: npm_scope,
                },
            )
        } else {
            None
        };
        let npm_installer_layer = list_to_bool_layer(is_global, npm_listed, npm_val);
        let msi_installer_layer = list_to_bool_layer(is_global, msi_listed, None);
        let pkg_val = match mac_pkg_config {
            Some(MacPkgConfig { identifier, install_location }) => Some(
                PkgInstallerLayer {
                    common: CommonInstallerLayer::default(),
                    identifier,
                    install_location,
                },
            ),
            None => None,
        };
        let pkg_installer_layer = list_to_bool_layer(is_global, pkg_listed, pkg_val);
        let powershell_installer_layer = list_to_bool_layer(is_global, powershell_listed, None);
        let shell_installer_layer = list_to_bool_layer(is_global, shell_listed, None);
        let needs_installer_layer = homebrew_installer_layer.is_some()
            || npm_installer_layer.is_some() || msi_installer_layer.is_some()
            || powershell_installer_layer.is_some() || shell_installer_layer.is_some()
            || pkg_installer_layer.is_some() || install_path.is_some()
            || install_success_msg.is_some() || install_libraries.is_some()
            || bin_aliases.is_some() || install_updater.is_some()
            || always_use_latest_updater.is_some();
        let installer_layer = if needs_installer_layer {
            Some(
                InstallerLayer {
                    common: CommonInstallerLayer {
                        install_path,
                        install_success_msg,
                        install_libraries,
                        bin_aliases,
                    },
                    homebrew: homebrew_installer_layer,
                    msi: msi_installer_layer,
                    npm: npm_installer_layer,
                    powershell: powershell_installer_layer,
                    shell: shell_installer_layer,
                    pkg: pkg_installer_layer,
                    updater: install_updater,
                    always_use_latest_updater,
                },
            )
        } else {
            None
        };

        // publish
        let homebrew_publisher_layer = list_to_bool_layer(
            is_global,
            homebrew_publish_listed,
            None,
        );
        let npm_publisher_layer = list_to_bool_layer(is_global, npm_publish_listed, None);
        let needs_publisher_layer = homebrew_publisher_layer.is_some()
            || npm_publisher_layer.is_some() || publish_prereleases.is_some();
        let publisher_layer = if needs_publisher_layer {
            Some(
                PublisherLayer {
                    common: CommonPublisherLayer { prereleases: publish_prereleases },
                    homebrew: homebrew_publisher_layer,
                    npm: npm_publisher_layer,
                },
            )
        } else {
            None
        };

        // done!
        TomlLayer {
            // the layer is in the current format
            config_version: ConfigVersion::default(),
            dist_version: cargo_dist_version,
            dist_url_override: cargo_dist_url_override,
            dist,
            allow_dirty,
            targets,
            artifacts: artifacts_layer,
            builds: build_layer,
            ci: ci_layer,
            hosts: host_layer,
            installers: installer_layer,
            publishers: publisher_layer,
        }
    }
}

} // verus!
