use cargo_dist::config::v1::artifacts::ArtifactLayer;
use cargo_dist::config::v1::hosts::github::GithubHostLayer;
use cargo_dist::config::v1::hosts::HostLayer;
use cargo_dist::config::v1::layer::{ApplyBoolLayerExt, ApplyOptExt, ApplyValExt, BoolOr};
use cargo_dist::config::v1::{app_config, workspace_config, TomlLayer};
use cargo_dist::config::{ChecksumStyle, ConfigVersion, GenerateMode};
use cargo_dist::workspace::{PackageIdx, PackageInfo, WorkspaceGraph};

fn s(x: &str) -> String {
    x.to_owned()
}

fn empty_layer() -> TomlLayer {
    TomlLayer {
        config_version: ConfigVersion::V1,
        dist_version: None,
        dist_url_override: None,
        dist: None,
        allow_dirty: None,
        targets: None,
        artifacts: None,
        builds: None,
        ci: None,
        hosts: None,
        installers: None,
        publishers: None,
    }
}

fn graph() -> WorkspaceGraph {
    WorkspaceGraph {
        root_workspace_dir: s("/work"),
        packages: vec![PackageInfo {
            name: s("my-app"),
            package_root: s("/work/my-app"),
        }],
    }
}

#[test]
fn workspace_config_defaults() {
    let cfg = workspace_config(&graph(), empty_layer());
    assert!(cfg.artifacts.source_tarball);
    assert!(!cfg.artifacts.recursive_tarball);
    assert_eq!(cfg.artifacts.checksum, ChecksumStyle::Sha256);
    assert!(cfg.ci.github.is_none());
    assert!(cfg.allow_dirty.is_empty());
    assert!(!cfg.hosts.force_latest);
}

#[test]
fn workspace_config_applies_layer() {
    let mut layer = empty_layer();
    layer.allow_dirty = Some(vec![GenerateMode::Ci]);
    layer.artifacts = Some(ArtifactLayer {
        archives: None,
        source_tarball: Some(false),
        recursive_tarball: None,
        extra: None,
        checksum: Some(ChecksumStyle::Blake2b),
    });
    let cfg = workspace_config(&graph(), layer);
    assert!(!cfg.artifacts.source_tarball);
    assert_eq!(cfg.artifacts.checksum, ChecksumStyle::Blake2b);
    assert_eq!(cfg.allow_dirty, vec![GenerateMode::Ci]);
}

#[test]
fn app_config_package_layer_wins() {
    let mut global = empty_layer();
    global.targets = Some(vec![s("x86_64-unknown-linux-gnu")]);
    global.dist = Some(true);
    let mut local = empty_layer();
    local.dist = Some(false);
    let cfg = app_config(&graph(), PackageIdx(0), global, local);
    assert_eq!(cfg.dist, Some(false));
    assert_eq!(cfg.targets, vec![s("x86_64-unknown-linux-gnu")]);
    assert!(cfg.hosts.display);
    assert_eq!(cfg.hosts.display_name, "my-app");
}

#[test]
fn relative_submodule_path_is_rebased() {
    let mut layer = empty_layer();
    let mut github = GithubHostLayer::default();
    github.submodule_path = Some(s("sub/module"));
    layer.hosts = Some(HostLayer {
        common: Default::default(),
        force_latest: None,
        display: None,
        display_name: None,
        order: None,
        github: Some(BoolOr::Val(github)),
        axodotdev: None,
    });
    layer.make_relative_to("/work");
    match layer.hosts.unwrap().github {
        Some(BoolOr::Val(g)) => assert_eq!(g.submodule_path, Some(s("/work/sub/module"))),
        _ => panic!("github host layer lost"),
    }
}

#[test]
fn layering_helpers() {
    let mut v = 1u32;
    v.apply_val(None);
    assert_eq!(v, 1);
    v.apply_val(Some(2));
    assert_eq!(v, 2);
    let mut o: Option<u32> = Some(1);
    o.apply_opt(None);
    assert_eq!(o, Some(1));
    o.apply_opt(Some(3));
    assert_eq!(o, Some(3));

    // a bool layer of false disables, and true brings back the defaults
    let mut gh: Option<GithubHostLayer> = Some(GithubHostLayer::default());
    gh.apply_bool_layer(Some(BoolOr::Bool(false)));
    assert!(gh.is_none());
    gh.apply_bool_layer(None);
    assert!(gh.is_none());
    gh.apply_bool_layer(Some(BoolOr::Bool(true)));
    assert!(gh.is_some());
    let mut layer = GithubHostLayer::default();
    layer.create = Some(false);
    gh.apply_bool_layer(Some(BoolOr::Val(layer)));
    assert_eq!(gh.unwrap().create, Some(false));
}
