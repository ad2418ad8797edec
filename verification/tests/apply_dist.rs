use std::collections::BTreeMap;

use cargo_dist::config::v1::artifacts::archives::ArchiveLayer;
use cargo_dist::config::v1::artifacts::ArtifactLayer;
use cargo_dist::config::v1::builds::cargo::CargoBuildLayer;
use cargo_dist::config::v1::builds::generic::GenericBuildLayer;
use cargo_dist::config::v1::builds::{BuildLayer, CommonBuildLayer};
use cargo_dist::config::v1::ci::github::GithubCiLayer;
use cargo_dist::config::v1::ci::{CiLayer, CommonCiLayer};
use cargo_dist::config::v1::hosts::github::GithubHostLayer;
use cargo_dist::config::v1::hosts::{CommonHostLayer, HostLayer};
use cargo_dist::config::v1::installers::homebrew::HomebrewInstallerLayer;
use cargo_dist::config::v1::installers::npm::NpmInstallerLayer;
use cargo_dist::config::v1::installers::pkg::PkgInstallerLayer;
use cargo_dist::config::v1::installers::shell::ShellInstallerLayer;
use cargo_dist::config::v1::installers::{CommonInstallerLayer, InstallerLayer};
use cargo_dist::config::v1::layer::BoolOr;
use cargo_dist::config::v1::publishers::homebrew::HomebrewPublisherLayer;
use cargo_dist::config::v1::publishers::npm::NpmPublisherLayer;
use cargo_dist::config::v1::publishers::{CommonPublisherLayer, PublisherLayer};
use cargo_dist::config::v1::TomlLayer;
use cargo_dist::config::{
    ChecksumStyle, CompressionImpl, ConfigVersion, GithubReleasePhase, GithubRepoPair,
    InstallPathStrategy, JobStyle, LibraryStyle, PrRunMode, ProductionMode, ZipStyle,
};
use cargo_dist::init::apply_dist::{
    apply_dist_to_metadata, artifacts, builds, ci, hosts, installers, publishers, TomlEdit,
    TomlValue,
};
use cargo_dist::platform::LibcVersion;
use toml_edit::{Array, DocumentMut, Item, Table, Value};

fn source() -> DocumentMut {
    "".parse::<DocumentMut>().unwrap()
}

// Given a DocumentMut, make sure it has a [dist] table, and return
// a reference to that dist table.
fn dist_table(doc: &mut DocumentMut) -> &mut Table {
    let dist = doc
        .entry("dist")
        .or_insert(Item::Table(Table::new()))
        .as_table_mut()
        .unwrap();
    // Don't show the empty top-level [dist].
    dist.set_implicit(true);
    // Return the table we just created.
    dist
}

/// The table at `path` below `dist`, made if it is not there
fn table_at<'a>(dist: &'a mut Table, path: &[String]) -> &'a mut Table {
    let mut table = dist;
    for key in path {
        table = table
            .entry(key)
            .or_insert(Item::Table(Table::new()))
            .as_table_mut()
            .expect("should be a table");
    }
    table
}

fn item_of(value: &TomlValue) -> Item {
    match value {
        TomlValue::Bool(b) => toml_edit::value(*b),
        TomlValue::Text(s) => toml_edit::value(s.as_str()),
        TomlValue::Texts(items) => {
            let array: Array = items.iter().map(|s| s.as_str()).collect();
            Item::Value(Value::Array(array))
        }
    }
}

/// Make the edits to the `[dist]` table
fn make_edits(dist: &mut Table, edits: &[TomlEdit]) {
    for edit in edits {
        match edit {
            TomlEdit::EnsureTable { table } => {
                table_at(dist, table);
            }
            TomlEdit::Write {
                table,
                key,
                value,
                comment,
            } => {
                let t = table_at(dist, table);
                t.insert(key, item_of(value));
                if let Some(mut k) = t.key_mut(key) {
                    k.leaf_decor_mut().set_prefix(comment.as_str());
                }
            }
            TomlEdit::Remove { table, key } => {
                table_at(dist, table).remove(key);
            }
            TomlEdit::SetVersionsIfAbsent {
                table,
                key,
                versions,
                comment,
            } => {
                let t = table_at(dist, table);
                let mut new_table = toml_edit::table();
                if let Some(nt) = new_table.as_table_mut() {
                    for (target, version) in versions {
                        let text = format!("{}.{}", version.major, version.series);
                        nt.insert(target, Item::Value(text.into()));
                    }
                    nt.decor_mut().set_prefix(comment.as_str());
                }
                t[key.as_str()].or_insert(new_table);
            }
            TomlEdit::TableComment { table, comment } => {
                table_at(dist, table)
                    .decor_mut()
                    .set_prefix(comment.as_str());
            }
        }
    }
}

fn s(x: &str) -> String {
    x.to_string()
}

fn job(x: &str) -> JobStyle {
    JobStyle::from_str(x).ok().unwrap()
}

fn empty_common_ci() -> CommonCiLayer {
    CommonCiLayer {
        merge_tasks: None,
        fail_fast: None,
        cache_builds: None,
        build_local_artifacts: None,
        dispatch_releases: None,
        release_branch: None,
        pr_run_mode: None,
        tag_namespace: None,
        plan_jobs: None,
        build_local_jobs: None,
        build_global_jobs: None,
        host_jobs: None,
        publish_jobs: None,
        post_announce_jobs: None,
    }
}

fn empty_common_installer() -> CommonInstallerLayer {
    CommonInstallerLayer {
        install_path: None,
        install_success_msg: None,
        install_libraries: None,
        bin_aliases: None,
    }
}

fn empty_installers() -> InstallerLayer {
    InstallerLayer {
        common: empty_common_installer(),
        homebrew: None,
        msi: None,
        npm: None,
        powershell: None,
        shell: None,
        pkg: None,
        updater: None,
        always_use_latest_updater: None,
    }
}

fn empty_toml_layer() -> TomlLayer {
    TomlLayer {
        config_version: ConfigVersion::V1,
        dist_version: None,
        dist_url_override: None,
        dist: None,
        allow_dirty: None,
        targets: None,
        artifacts: None,
        builds: None,
        ci: None,
        hosts: None,
        installers: None,
        publishers: None,
    }
}

fn min_glibc() -> BTreeMap<String, LibcVersion> {
    let mut min_glibc = BTreeMap::new();
    min_glibc.insert(
        "some-target".to_string(),
        LibcVersion {
            major: 1,
            series: 2,
        },
    );
    min_glibc
}

#[test]
fn apply_artifacts_empty() {
    let expected = "";

    let layer = Some(ArtifactLayer {
        archives: None,
        checksum: None,
        extra: None,
        source_tarball: None,
        recursive_tarball: None,
    });

    let mut doc = source();
    let table = dist_table(&mut doc);
    let mut edits = Vec::new();
    artifacts::apply(&mut edits, &Vec::new(), &layer);
    make_edits(table, &edits);

    let toml_text = table.to_string();
    assert_eq!(toml_text, expected);
}

#[test]
fn apply_artifacts_everything() {
    let expected = r#"
# Artifact configuration for dist
[dist.artifacts]
# Generate a source tarball
source-tarball = false
# The checksum format to generate
checksum = "blake2b"

[dist.artifacts.archives]
# Extra static files to include in each App (path relative to this Cargo.toml's dir)
include = ["some-include"]
# Whether to auto-include files like READMEs, LICENSEs, and CHANGELOGs (default true)
auto-includes = false
# The archive format to use for windows builds (defaults .zip)
windows-archive = ".tar.gz"
# The archive format to use for non-windows builds (defaults .tar.xz)
unix-archive = ".zip"
# Which kinds of built libraries to include in the final archives
package-libraries = ["cdylib", "cstaticlib"]
"#;

    let layer = Some(ArtifactLayer {
        archives: Some(ArchiveLayer {
            included_files: Some(vec![s("some-include")]),
            auto_includes: Some(false),
            windows_archive: Some(ZipStyle::Tar(CompressionImpl::Gzip)),
            unix_archive: Some(ZipStyle::Zip),
            package_libraries: Some(vec![LibraryStyle::CDynamic, LibraryStyle::CStatic]),
        }),
        checksum: Some(ChecksumStyle::Blake2b),
        extra: None,
        source_tarball: Some(false),
        recursive_tarball: None,
    });

    let mut doc = source();
    let table = dist_table(&mut doc);
    let mut edits = Vec::new();
    artifacts::apply(&mut edits, &Vec::new(), &layer);
    make_edits(table, &edits);

    let toml_text = doc.to_string();
    assert_eq!(expected, toml_text);
}

#[test]
fn builds_apply_empty() {
    let expected = "";

    let layer = Some(BuildLayer {
        common: CommonBuildLayer {},
        ssldotcom_windows_sign: None,
        macos_sign: None,
        cargo: None,
        generic: None,
        system_dependencies: None,
        min_glibc_version: None,
        omnibor: None,
    });

    let mut doc = source();
    let table = dist_table(&mut doc);
    let mut edits = Vec::new();
    builds::apply(&mut edits, &Vec::new(), &layer);
    make_edits(table, &edits);

    let toml_text = table.to_string();
    assert_eq!(toml_text, expected);
}

#[test]
fn builds_apply_everything() {
    let expected = r#"
# Build configuration for dist
[dist.builds]
# Whether we should sign Windows binaries using ssl.com
ssldotcom-windows-sign = "test"
# Whether to sign macOS executables
macos-sign = true
# Whether dist should build cargo projects
# (Use the table format of [dist.builds.cargo] for more nuanced config!)
cargo = true
# Whether to use omnibor-cli to generate OmniBOR Artifact IDs
omnibor = true

# The minimum glibc version supported by the package (overrides auto-detection)
[dist.builds.min-glibc-version]
some-target = "1.2"
"#;

    let layer = Some(BuildLayer {
        common: CommonBuildLayer {},
        ssldotcom_windows_sign: Some(ProductionMode::Test),
        macos_sign: Some(true),
        cargo: Some(BoolOr::Bool(true)),
        generic: Some(BoolOr::Bool(true)),
        system_dependencies: None,
        min_glibc_version: Some(min_glibc()),
        omnibor: Some(true),
    });

    let mut doc = source();
    let table = dist_table(&mut doc);
    let mut edits = Vec::new();
    builds::apply(&mut edits, &Vec::new(), &layer);
    make_edits(table, &edits);

    let toml_text = doc.to_string();
    assert_eq!(expected, toml_text);
}

#[test]
fn builds_apply_complex() {
    let expected = r#"
# Build configuration for dist
[dist.builds]
# Whether we should sign Windows binaries using ssl.com
ssldotcom-windows-sign = "test"
# Whether to sign macOS executables
macos-sign = true
# Whether to use omnibor-cli to generate OmniBOR Artifact IDs
omnibor = true

# How dist should build Cargo projects
[dist.builds.cargo]
# Whether +crt-static should be used on msvc
msvc-crt-static = true
# Build only the required packages, and individually
precise-builds = true
# Features to pass to cargo build
features = ["some-feature"]
# Whether default-features should be enabled with cargo build
default-features = true
# Whether to pass --all-features to cargo build
all-features = true
# Whether to embed dependency information using cargo-auditable
cargo-auditable = true
# Whether to use cargo-cyclonedx to generate an SBOM
cargo-cyclonedx = true

# The minimum glibc version supported by the package (overrides auto-detection)
[dist.builds.min-glibc-version]
some-target = "1.2"
"#;

    let cargo_bl = CargoBuildLayer {
        common: CommonBuildLayer {},
        // Deprecated/v0-specific.
        rust_toolchain_version: None,
        msvc_crt_static: Some(true),
        precise_builds: Some(true),
        features: Some(vec![s("some-feature")]),
        default_features: Some(true),
        all_features: Some(true),
        cargo_auditable: Some(true),
        cargo_cyclonedx: Some(true),
    };

    let generic_bl = GenericBuildLayer {
        common: CommonBuildLayer {},
    };

    let layer = Some(BuildLayer {
        common: CommonBuildLayer {},
        ssldotcom_windows_sign: Some(ProductionMode::Test),
        macos_sign: Some(true),
        cargo: Some(BoolOr::Val(cargo_bl)),
        generic: Some(BoolOr::Val(generic_bl)),
        system_dependencies: None,
        min_glibc_version: Some(min_glibc()),
        omnibor: Some(true),
    });

    let mut doc = source();
    let table = dist_table(&mut doc);
    let mut edits = Vec::new();
    builds::apply(&mut edits, &Vec::new(), &layer);
    make_edits(table, &edits);

    let toml_text = doc.to_string();
    assert_eq!(expected, toml_text);
}

#[test]
fn apply_ci_empty() {
    let expected = "";

    let layer = Some(CiLayer {
        common: empty_common_ci(),
        github: None,
    });

    let mut doc = source();
    let table = dist_table(&mut doc);
    let mut edits = Vec::new();
    ci::apply(&mut edits, &Vec::new(), &layer);
    make_edits(table, &edits);

    let toml_text = table.to_string();
    assert_eq!(toml_text, expected);
}

#[test]
fn apply_ci_everything() {
    let expected = r#"
# CI configuration for dist
[dist.ci]
# Whether to run otherwise-parallelizable tasks on the same machine
merge-tasks = true
# Whether failing tasks should make us give up on all other tasks
fail-fast = true
# Whether builds should try to be cached in CI
cache-builds = true
# Whether CI should include auto-generated code to build local artifacts
build-local-artifacts = true
# Whether CI should trigger releases with dispatches instead of tag pushes
dispatch-releases = true
# Trigger releases on pushes to this branch instead of tag pushes
release-branch = "main"
# Which actions to run on pull requests
pr-run-mode = "skip"
# A prefix git tags must include for dist to care about them
tag-namespace = "some-namespace"
# Additional plan jobs to run in CI
plan-jobs = ["./plan-job"]
# Additional local artifacts jobs to run in CI
build-local-jobs = ["./build-local-job-1", "./build-local-job-2"]
# Additional global artifacts jobs to run in CI
build-global-jobs = ["./build-global-job"]
# Additional hosts jobs to run in CI
host-jobs = ["./host-job"]
# Additional publish jobs to run in CI
publish-jobs = ["./publish-job"]
# Additional jobs to run in CI, after the announce job finishes
post-announce-jobs = ["./post-announce-job"]
# Whether dist should generate workflows for GitHub CI
github = true
"#;

    let layer = Some(CiLayer {
        common: CommonCiLayer {
            merge_tasks: Some(true),
            fail_fast: Some(true),
            cache_builds: Some(true),
            build_local_artifacts: Some(true),
            dispatch_releases: Some(true),
            release_branch: Some(s("main")),
            pr_run_mode: Some(PrRunMode::Skip),
            tag_namespace: Some(s("some-namespace")),
            plan_jobs: Some(vec![job("./plan-job")]),
            build_local_jobs: Some(vec![job("./build-local-job-1"), job("./build-local-job-2")]),
            build_global_jobs: Some(vec![job("./build-global-job")]),
            host_jobs: Some(vec![job("./host-job")]),
            publish_jobs: Some(vec![job("./publish-job")]),
            post_announce_jobs: Some(vec![job("./post-announce-job")]),
        },
        github: Some(BoolOr::Bool(true)),
    });

    let mut doc = source();
    let table = dist_table(&mut doc);
    let mut edits = Vec::new();
    ci::apply(&mut edits, &Vec::new(), &layer);
    make_edits(table, &edits);

    let toml_text = doc.to_string();
    assert_eq!(expected, toml_text);
}

#[test]
fn apply_ci_gh_complex() {
    let expected = r#"
# CI configuration for dist
[dist.ci]

# Configure generated workflows for GitHub CI
[dist.ci.github]
# Path to a file containing a YAML array of steps, to be performed before 'dist build'
# KNOWN BUG: https://github.com/axodotdev/cargo-dist/issues/1750
build-setup = "some-build-setup"
"#;

    let layer = Some(CiLayer {
        common: CommonCiLayer::default(),
        github: Some(BoolOr::Val(GithubCiLayer {
            common: CommonCiLayer::default(),
            build_setup: Some(s("some-build-setup")),
            permissions: None,
            runners: None,
            secrets: None,
            action_commits: None,
        })),
    });

    let mut doc = source();
    let table = dist_table(&mut doc);
    let mut edits = Vec::new();
    ci::apply(&mut edits, &Vec::new(), &layer);
    make_edits(table, &edits);

    let toml_text = doc.to_string();
    assert_eq!(expected, toml_text);
}

#[test]
fn hosts_apply_empty() {
    let expected = "";

    let layer = Some(HostLayer {
        common: CommonHostLayer {},
        force_latest: None,
        display: None,
        display_name: None,
        order: None,
        github: None,
        axodotdev: None,
    });

    let mut doc = source();
    let table = dist_table(&mut doc);
    let mut edits = Vec::new();
    hosts::apply(&mut edits, &Vec::new(), &layer);
    make_edits(table, &edits);

    let toml_text = table.to_string();
    assert_eq!(toml_text, expected);
}

#[test]
fn hosts_apply_everything() {
    let expected = r#"
# Hosting configuration for dist
[dist.hosts]
# Always regard releases as stable (defaults to false)
force-latest = true
# Whether artifacts/installers for this app should be displayed in release bodies
display = true
# How to refer to the app in release bodies
display-name = "some-name"
# Configuration for GitHub hosting
# (Use the table format of [dist.hosts.github] for more nuanced config!)
github = true
# Whether to use axo.dev hosting
axodotdev = true
"#;

    let layer = Some(HostLayer {
        common: CommonHostLayer {},
        force_latest: Some(true),
        display: Some(true),
        display_name: Some(s("some-name")),
        order: None,
        github: Some(BoolOr::Bool(true)),
        axodotdev: Some(BoolOr::Bool(true)),
    });

    let mut doc = source();
    let table = dist_table(&mut doc);
    let mut edits = Vec::new();
    hosts::apply(&mut edits, &Vec::new(), &layer);
    make_edits(table, &edits);

    let toml_text = doc.to_string();
    assert_eq!(expected, toml_text);
}

#[test]
fn hosts_apply_complex() {
    let expected = r#"
# Hosting configuration for dist
[dist.hosts]
# Always regard releases as stable (defaults to false)
force-latest = true
# Whether artifacts/installers for this app should be displayed in release bodies
display = true
# How to refer to the app in release bodies
display-name = "some-name"
# Whether to use axo.dev hosting
axodotdev = true

# Configuration for GitHub hosting
[dist.hosts.github]
# Whether dist should create the GitHub release (default: true)
create = true
# Publish GitHub Releases to this repo instead
repo = "example-user/example-repo"
# Which phase dist should use to create the GitHub release
during = "auto"
# Read the commit to be tagged from the submodule at this path
submodule-path = "./foo"
# Whether to enable GitHub Attestations
attestations = true
"#;

    let github = GithubHostLayer {
        common: CommonHostLayer {},
        create: Some(true),
        repo: Some(GithubRepoPair {
            owner: s("example-user"),
            repo: s("example-repo"),
        }),
        submodule_path: Some(s("./foo")),
        during: Some(GithubReleasePhase::Auto),
        attestations: Some(true),
    };

    let layer = Some(HostLayer {
        common: CommonHostLayer {},
        force_latest: Some(true),
        display: Some(true),
        display_name: Some(s("some-name")),
        order: None,
        github: Some(BoolOr::Val(github)),
        axodotdev: Some(BoolOr::Bool(true)),
    });

    let mut doc = source();
    let table = dist_table(&mut doc);
    let mut edits = Vec::new();
    hosts::apply(&mut edits, &Vec::new(), &layer);
    make_edits(table, &edits);

    let toml_text = doc.to_string();
    assert_eq!(expected, toml_text);
}

#[test]
fn apply_installers_empty() {
    let expected = "";

    let layer = Some(empty_installers());

    let mut doc = source();
    let table = dist_table(&mut doc);
    let mut edits = Vec::new();
    installers::apply(&mut edits, &Vec::new(), &layer);
    make_edits(table, &edits);

    let toml_text = table.to_string();
    assert_eq!(toml_text, expected);
}

#[test]
fn apply_installers_everything_bools() {
    let expected = r#"
# Installer configuration for dist
[dist.installers]
# Path that installers should place binaries in
install-path = ["~/some-install-path/", "CARGO_HOME"]
# Custom message to display on successful install
install-success-msg = "default success message"
# Which kinds of packaged libraries to install
install-libraries = ["cdylib", "cstaticlib"]
# Whether to build a Homebrew installer
homebrew = true
# Whether to build an MSI installer
msi = true
# Whether to build an NPM installer
npm = true
# Whether to build a PowerShell installer
powershell = true
# Whether to build a Shell installer
shell = true
# Whether to build a Mac .pkg installer
pkg = true
# Whether to install an updater program alongside the software
updater = true
# Whether to always use the latest updater version instead of a fixed version
always-use-latest-updater = true
"#;

    let layer = Some(InstallerLayer {
        common: CommonInstallerLayer {
            install_path: Some(vec![
                InstallPathStrategy::HomeSubdir {
                    subdir: s("some-install-path/"),
                },
                InstallPathStrategy::CargoHome,
            ]),
            install_success_msg: Some(s("default success message")),
            install_libraries: Some(vec![LibraryStyle::CDynamic, LibraryStyle::CStatic]),
            bin_aliases: None,
        },
        homebrew: Some(BoolOr::Bool(true)),
        msi: Some(BoolOr::Bool(true)),
        npm: Some(BoolOr::Bool(true)),
        powershell: Some(BoolOr::Bool(true)),
        shell: Some(BoolOr::Bool(true)),
        pkg: Some(BoolOr::Bool(true)),
        updater: Some(true),
        always_use_latest_updater: Some(true),
    });

    let mut doc = source();
    let table = dist_table(&mut doc);
    let mut edits = Vec::new();
    installers::apply(&mut edits, &Vec::new(), &layer);
    make_edits(table, &edits);

    let toml_text = doc.to_string();
    assert_eq!(expected, toml_text);
}

#[test]
fn apply_installers_complex() {
    let expected = r#"
# Installer configuration for dist
[dist.installers]
# Path that installers should place binaries in
install-path = ["~/some-install-path/", "CARGO_HOME"]
# Custom message to display on successful install
install-success-msg = "default success message"
# Which kinds of packaged libraries to install
install-libraries = ["cdylib", "cstaticlib"]
# Whether to build an MSI installer
msi = true
# Whether to build a PowerShell installer
powershell = true
# Whether to build a Shell installer
shell = true
# Whether to install an updater program alongside the software
updater = true
# Whether to always use the latest updater version instead of a fixed version
always-use-latest-updater = true

# Configuration for the Homebrew installer
[dist.installers.homebrew]
# A GitHub repo to push Homebrew formulas to
tap = "homebrew-tap"
# Customize the Homebrew formula name
formula = "homebrew-formula"

# Configuration for the NPM installer
[dist.installers.npm]
# The name of the npm package
package = "npm-package"
# The namespace to use when publishing this package to the npm registry
scope = "npm-scope"

# Configuration for the Mac .pkg installer
[dist.installers.pkg]
# A unique identifier, in tld.domain.package format
identifier = "pkg-identifier"
# The location to which software should be installed (defaults to /usr/local)
install-location = "pkg-install-location"
"#;

    let layer = Some(InstallerLayer {
        common: CommonInstallerLayer {
            install_path: Some(vec![
                InstallPathStrategy::HomeSubdir {
                    subdir: s("some-install-path/"),
                },
                InstallPathStrategy::CargoHome,
            ]),
            install_success_msg: Some(s("default success message")),
            install_libraries: Some(vec![LibraryStyle::CDynamic, LibraryStyle::CStatic]),
            bin_aliases: None,
        },
        homebrew: Some(BoolOr::Val(HomebrewInstallerLayer {
            common: CommonInstallerLayer::default(),
            tap: Some(s("homebrew-tap")),
            formula: Some(s("homebrew-formula")),
        })),
        msi: Some(BoolOr::Bool(true)),
        npm: Some(BoolOr::Val(NpmInstallerLayer {
            common: CommonInstallerLayer::default(),
            package: Some(s("npm-package")),
            scope: Some(s("npm-scope")),
        })),
        powershell: Some(BoolOr::Bool(true)),
        shell: Some(BoolOr::Bool(true)),
        pkg: Some(BoolOr::Val(PkgInstallerLayer {
            common: CommonInstallerLayer::default(),
            identifier: Some(s("pkg-identifier")),
            install_location: Some(s("pkg-install-location")),
        })),
        updater: Some(true),
        always_use_latest_updater: Some(true),
    });

    let mut doc = source();
    let table = dist_table(&mut doc);
    let mut edits = Vec::new();
    installers::apply(&mut edits, &Vec::new(), &layer);
    make_edits(table, &edits);

    let toml_text = doc.to_string();
    assert_eq!(expected, toml_text);
}

#[test]
fn publishers_apply_empty() {
    let expected = "";

    let layer = Some(PublisherLayer {
        common: CommonPublisherLayer { prereleases: None },
        homebrew: None,
        npm: None,
    });

    let mut doc = source();
    let table = dist_table(&mut doc);
    let mut edits = Vec::new();
    publishers::apply(&mut edits, &Vec::new(), &layer);
    make_edits(table, &edits);

    let toml_text = table.to_string();
    assert_eq!(toml_text, expected);
}

#[test]
fn publishers_apply_everything() {
    let expected = r#"
# Publisher configuration for dist
[dist.publishers]
# Whether to publish prereleases (defaults to false)
prereleases = true
# Whether to publish to Homebrew
homebrew = true
# Whether to publish to NPM
npm = true
"#;

    let layer = Some(PublisherLayer {
        common: CommonPublisherLayer {
            prereleases: Some(true),
        },
        homebrew: Some(BoolOr::Bool(true)),
        npm: Some(BoolOr::Bool(true)),
    });

    let mut doc = source();
    let table = dist_table(&mut doc);
    let mut edits = Vec::new();
    publishers::apply(&mut edits, &Vec::new(), &layer);
    make_edits(table, &edits);

    let toml_text = doc.to_string();
    assert_eq!(expected, toml_text);
}

#[test]
fn publishers_apply_complex() {
    let expected = r#"
# Publisher configuration for dist
[dist.publishers]
# Whether to publish prereleases (defaults to false)
prereleases = true

[dist.publishers.homebrew]
# Whether to publish prereleases (defaults to false)
prereleases = true

[dist.publishers.npm]
# Whether to publish prereleases (defaults to false)
prereleases = true
"#;

    let layer = Some(PublisherLayer {
        common: CommonPublisherLayer {
            prereleases: Some(true),
        },
        homebrew: Some(BoolOr::Val(HomebrewPublisherLayer {
            common: CommonPublisherLayer {
                prereleases: Some(true),
            },
        })),
        npm: Some(BoolOr::Val(NpmPublisherLayer {
            common: CommonPublisherLayer {
                prereleases: Some(true),
            },
            registry: None,
        })),
    });

    let mut doc = source();
    let table = dist_table(&mut doc);
    let mut edits = Vec::new();
    publishers::apply(&mut edits, &Vec::new(), &layer);
    make_edits(table, &edits);

    let toml_text = doc.to_string();
    assert_eq!(expected, toml_text);
}

#[test]
fn whole_layer_writes_config_version_and_default_install_path() {
    let mut layer = empty_toml_layer();
    let mut installers = empty_installers();
    installers.shell = Some(BoolOr::Bool(true));
    installers.powershell = Some(BoolOr::Val(
        cargo_dist::config::v1::installers::powershell::PowershellInstallerLayer {
            common: CommonInstallerLayer::default(),
        },
    ));
    layer.installers = Some(installers);
    layer.targets = Some(vec![s("x86_64-unknown-linux-gnu")]);

    let edits = apply_dist_to_metadata(&layer);
    let mut doc = source();
    let table = dist_table(&mut doc);
    make_edits(table, &edits);
    let text = doc.to_string();

    assert!(text.contains("config-version = \"1\"\n"));
    assert!(text.contains("targets = [\"x86_64-unknown-linux-gnu\"]\n"));
    assert!(text.contains("install-path = \"CARGO_HOME\"\n"));
    assert!(text.contains("shell = true\n"));
    assert!(text.starts_with("\n# Config for 'dist'\n[dist]\n"));
}

#[test]
fn whole_layer_without_both_script_installers_has_no_install_path() {
    let mut layer = empty_toml_layer();
    let mut installers = empty_installers();
    installers.shell = Some(BoolOr::Val(ShellInstallerLayer {
        common: CommonInstallerLayer::default(),
    }));
    installers.powershell = Some(BoolOr::Bool(false));
    layer.installers = Some(installers);

    let edits = apply_dist_to_metadata(&layer);
    let mut doc = source();
    let table = dist_table(&mut doc);
    make_edits(table, &edits);
    let text = doc.to_string();

    assert!(!text.contains("install-path"));
    assert!(text.contains("powershell = false\n"));
}

#[test]
fn empty_layer_writes_only_the_config_version() {
    let edits = apply_dist_to_metadata(&empty_toml_layer());
    let mut doc = source();
    let table = dist_table(&mut doc);
    make_edits(table, &edits);
    let text = doc.to_string();

    assert!(text.contains("# The configuration version to use (valid options: 1)\nconfig-version = \"1\"\n"));
    assert!(!text.contains("targets"));
    assert!(!text.contains("dist-version"));
    // The installers table is always written, here with nothing in it.
    assert!(text.contains("[dist.installers]"));
}

#[test]
fn written_value_replaces_an_old_one() {
    let mut doc: DocumentMut = "[dist]\ntargets = [\"old\"]\ndist = false\n".parse().unwrap();
    let mut layer = empty_toml_layer();
    layer.targets = Some(vec![s("new")]);
    let edits = apply_dist_to_metadata(&layer);
    let table = doc["dist"].as_table_mut().unwrap();
    make_edits(table, &edits);
    let text = doc.to_string();

    assert!(text.contains("targets = [\"new\"]"));
    assert!(!text.contains("old"));
    // A setting that is not given is removed.
    assert!(!text.contains("dist = false"));
}
