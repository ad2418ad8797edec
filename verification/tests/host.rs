use cargo_dist::config::v1::ci::{CiLayer, CommonCiLayer};
use cargo_dist::config::v1::hosts::HostLayer;
use cargo_dist::config::v1::layer::BoolOr;
use cargo_dist::config::v1::{workspace_config, TomlLayer};
use cargo_dist::config::{CiStyle, ConfigVersion, HostingStyle};
use cargo_dist::host::{
    github_artifact_download_path, hosting_from_config, releases_without_hosting,
    select_hosting_providers,
};
use cargo_dist::workspace::{PackageInfo, WorkspaceGraph};

fn s(x: &str) -> String {
    x.to_owned()
}

fn empty_layer() -> TomlLayer {
    TomlLayer {
        config_version: ConfigVersion::V1,
        dist_version: None,
        dist_url_override: None,
        dist: None,
        allow_dirty: None,
        targets: None,
        artifacts: None,
        builds: None,
        ci: None,
        hosts: None,
        installers: None,
        publishers: None,
    }
}

fn graph() -> WorkspaceGraph {
    WorkspaceGraph {
        root_workspace_dir: s("/work"),
        packages: vec![PackageInfo {
            name: s("my-app"),
            package_root: s("/work/my-app"),
        }],
    }
}

#[test]
fn no_ci_and_no_hosts_gives_no_hosting() {
    let cfg = workspace_config(&graph(), empty_layer());
    let (ci, hosting) = hosting_from_config(&cfg.ci, &cfg.hosts);
    assert!(ci.is_empty());
    assert!(hosting.is_none());
    assert!(select_hosting_providers(&hosting, Some(&ci)).is_none());
    assert!(select_hosting_providers(&None, None).is_none());
}

#[test]
fn github_ci_brings_github_hosting() {
    let mut layer = empty_layer();
    layer.ci = Some(CiLayer {
        common: CommonCiLayer::default(),
        github: Some(BoolOr::Bool(true)),
    });
    let cfg = workspace_config(&graph(), layer);
    let (ci, hosting) = hosting_from_config(&cfg.ci, &cfg.hosts);
    assert_eq!(ci, vec![CiStyle::Github]);
    assert!(hosting.is_none());
    assert_eq!(
        select_hosting_providers(&hosting, Some(&ci)),
        Some(vec![HostingStyle::Github])
    );
}

#[test]
fn explicit_hosts_win() {
    let mut layer = empty_layer();
    layer.hosts = Some(HostLayer {
        common: Default::default(),
        force_latest: None,
        display: None,
        display_name: None,
        order: None,
        github: Some(BoolOr::Bool(true)),
        axodotdev: None,
    });
    let cfg = workspace_config(&graph(), layer);
    let (ci, hosting) = hosting_from_config(&cfg.ci, &cfg.hosts);
    assert!(ci.is_empty());
    assert_eq!(hosting, Some(vec![HostingStyle::Github]));
    assert_eq!(
        select_hosting_providers(&Some(vec![HostingStyle::Axodotdev]), Some(&vec![CiStyle::Github])),
        Some(vec![HostingStyle::Axodotdev])
    );
}

#[test]
fn only_releases_without_hosting_are_refreshed() {
    let releases = vec![
        (s("a"), s("1.0.0"), Some(true)),
        (s("b"), s("1.0.0"), Some(false)),
        (s("c"), s("2.0.0"), None),
    ];
    assert_eq!(
        releases_without_hosting(false, &releases),
        vec![(s("a"), s("1.0.0")), (s("c"), s("2.0.0"))]
    );
    assert_eq!(releases_without_hosting(true, &releases).len(), 3);
}

#[test]
fn github_download_path() {
    assert_eq!(
        github_artifact_download_path("axodotdev/cargo-dist", "v1.0.0"),
        "axodotdev/cargo-dist/releases/download/v1.0.0"
    );
}
