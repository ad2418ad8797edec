use cargo_dist::config::v0::DistMetadata;
use cargo_dist::config::v1::layer::BoolOr;
use cargo_dist::config::{
    ChecksumStyle, CiStyle, ExtraArtifact, HostingStyle, InstallPathStrategy, InstallerStyle,
    JobStyle, MacPkgConfig, PublishStyle, ZipStyle,
};
use cargo_dist::errors::DistError;

fn s(x: &str) -> String {
    x.to_owned()
}

#[test]
fn validate_install_paths_rejects_cargo_home_among_others() {
    let mut meta = DistMetadata::default();
    assert!(meta.validate_install_paths().is_ok());
    meta.install_path = Some(vec![InstallPathStrategy::CargoHome]);
    assert!(meta.validate_install_paths().is_ok());
    meta.install_path = Some(vec![
        InstallPathStrategy::from_str("~/.app/").unwrap(),
        InstallPathStrategy::CargoHome,
    ]);
    let err = meta.validate_install_paths().unwrap_err();
    assert!(matches!(err, DistError::IncompatibleInstallPathConfiguration {}));
    assert_eq!(
        err.to_string(),
        "Incompatible install paths configured in Cargo.toml"
    );
    meta.install_path = Some(vec![
        InstallPathStrategy::from_str("~/.app/").unwrap(),
        InstallPathStrategy::from_str("$APP_HOME/bin").unwrap(),
    ]);
    assert!(meta.validate_install_paths().is_ok());
}

#[test]
fn merge_prefers_package_and_fills_from_workspace() {
    let mut ws = DistMetadata::default();
    ws.installers = Some(vec![InstallerStyle::Shell, InstallerStyle::Powershell]);
    ws.targets = Some(vec![s("x86_64-unknown-linux-gnu")]);
    ws.checksum = Some(ChecksumStyle::Sha512);
    ws.tap = Some(s("axodotdev/homebrew-tap"));
    ws.unix_archive = Some(ZipStyle::Zip);
    ws.included_files = Some(vec![s("README.md")]);
    ws.merge_tasks = Some(true);

    let mut pkg = DistMetadata::default();
    pkg.targets = Some(vec![s("aarch64-apple-darwin")]);
    pkg.fail_fast = Some(true);
    pkg.included_files = Some(vec![s("LICENSE")]);

    pkg.merge_workspace_config(&ws, "Cargo.toml");
    // package values win
    assert_eq!(pkg.targets, Some(vec![s("aarch64-apple-darwin")]));
    // unset package values come from the workspace
    assert_eq!(
        pkg.installers,
        Some(vec![InstallerStyle::Shell, InstallerStyle::Powershell])
    );
    assert_eq!(pkg.checksum, Some(ChecksumStyle::Sha512));
    assert_eq!(pkg.tap, Some(s("axodotdev/homebrew-tap")));
    assert_eq!(pkg.unix_archive, Some(ZipStyle::Zip));
    // workspace-only settings are not inherited, and the package's are kept as they were
    assert_eq!(pkg.merge_tasks, None);
    assert_eq!(pkg.fail_fast, Some(true));
    // extra files are added after the package's own
    assert_eq!(pkg.included_files, Some(vec![s("LICENSE"), s("README.md")]));
}

#[test]
fn merge_takes_workspace_files_when_package_has_none() {
    let mut ws = DistMetadata::default();
    ws.included_files = Some(vec![s("README.md")]);
    let mut pkg = DistMetadata::default();
    pkg.merge_workspace_config(&ws, "Cargo.toml");
    assert_eq!(pkg.included_files, Some(vec![s("README.md")]));
}

#[test]
fn make_relative_to_joins_paths() {
    let mut meta = DistMetadata::default();
    meta.included_files = Some(vec![s("README.md")]);
    meta.extra_artifacts = Some(vec![ExtraArtifact {
        working_dir: s("sub"),
        command: vec![s("make")],
        artifact_relpaths: vec![s("out.bin")],
    }]);
    meta.make_relative_to("/work/pkg");
    assert_eq!(meta.included_files, Some(vec![s("/work/pkg/README.md")]));
    let extras = meta.extra_artifacts.unwrap();
    assert_eq!(extras[0].working_dir, "/work/pkg/sub");
    assert_eq!(extras[0].command, vec![s("make")]);
    assert_eq!(extras[0].artifact_relpaths, vec![s("out.bin")]);
}

#[test]
fn convert_unset_gives_empty_layer() {
    for is_global in [true, false] {
        let layer = DistMetadata::default().to_toml_layer(is_global);
        assert!(layer.dist_version.is_none());
        assert!(layer.dist.is_none());
        assert!(layer.artifacts.is_none());
        assert!(layer.builds.is_none());
        assert!(layer.ci.is_none());
        assert!(layer.hosts.is_none());
        assert!(layer.installers.is_none());
        assert!(layer.publishers.is_none());
    }
}

#[test]
fn convert_ci_and_hosting() {
    let mut meta = DistMetadata::default();
    meta.ci = Some(vec![CiStyle::Github]);
    meta.fail_fast = Some(true);
    meta.publish_jobs = Some(vec![
        PublishStyle::Homebrew,
        PublishStyle::User(s("my-publish")),
    ]);
    let layer = meta.to_toml_layer(true);
    let ci = layer.ci.expect("ci layer");
    assert!(matches!(ci.github, Some(BoolOr::Bool(true))));
    assert_eq!(ci.common.fail_fast, Some(true));
    let jobs = ci.common.publish_jobs.expect("custom publish jobs");
    assert_eq!(jobs.len(), 1);
    assert!(matches!(&jobs[0], JobStyle::User(name) if name == "my-publish"));
    // github CI with no host named enables github hosting
    let hosts = layer.hosts.expect("host layer");
    assert!(matches!(hosts.github, Some(BoolOr::Bool(true))));
    assert!(hosts.axodotdev.is_none());
    // homebrew publishing is listed; npm is not, and in the global list that is left unsaid
    let publishers = layer.publishers.expect("publisher layer");
    assert!(matches!(publishers.homebrew, Some(BoolOr::Bool(true))));
    assert!(publishers.npm.is_none());
}

#[test]
fn convert_package_list_mentions_omitted_kinds() {
    let mut meta = DistMetadata::default();
    meta.installers = Some(vec![InstallerStyle::Shell]);
    meta.hosting = Some(vec![HostingStyle::Axodotdev]);
    let layer = meta.to_toml_layer(false);
    let installers = layer.installers.expect("installer layer");
    assert!(matches!(installers.shell, Some(BoolOr::Bool(true))));
    assert!(matches!(installers.powershell, Some(BoolOr::Bool(false))));
    assert!(matches!(installers.homebrew, Some(BoolOr::Bool(false))));
    let hosts = layer.hosts.expect("host layer");
    assert!(matches!(hosts.axodotdev, Some(BoolOr::Bool(true))));
    assert!(matches!(hosts.github, Some(BoolOr::Bool(false))));
}

#[test]
fn convert_settings_force_layers() {
    let mut meta = DistMetadata::default();
    meta.tap = Some(s("my/tap"));
    meta.mac_pkg_config = Some(MacPkgConfig {
        identifier: Some(s("dev.axo.app")),
        install_location: None,
    });
    meta.unix_archive = Some(ZipStyle::Zip);
    meta.features = Some(vec![s("fancy")]);
    let layer = meta.to_toml_layer(true);
    let installers = layer.installers.expect("installer layer");
    match installers.homebrew {
        Some(BoolOr::Val(h)) => assert_eq!(h.tap, Some(s("my/tap"))),
        _ => panic!("expected homebrew settings"),
    }
    match installers.pkg {
        Some(BoolOr::Val(p)) => assert_eq!(p.identifier, Some(s("dev.axo.app"))),
        _ => panic!("expected pkg settings"),
    }
    let artifacts = layer.artifacts.expect("artifact layer");
    assert_eq!(artifacts.archives.unwrap().unix_archive, Some(ZipStyle::Zip));
    let builds = layer.builds.expect("build layer");
    match builds.cargo {
        Some(BoolOr::Val(c)) => assert_eq!(c.features, Some(vec![s("fancy")])),
        _ => panic!("expected cargo settings"),
    }
}
