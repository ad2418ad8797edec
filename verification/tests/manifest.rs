use cargo_dist::config::v1::builds::cargo::{CargoBuildLayer, WorkspaceCargoBuildConfig};
use cargo_dist::config::v1::builds::CommonBuildLayer;
use cargo_dist::config::v1::layer::ApplyLayer;
use cargo_dist::init::setup::{asks_to_migrate, init_plan, InitPlan, WorkspaceKind};
use cargo_dist::manifest::{
    add_release_artifact, manifest_artifact, merge_assets, sort_assets_by_name, ArtifactFacts,
    ArtifactKindFacts, AssetKind, BinaryFacts, BinaryKind, InstallerFacts, ManifestArtifactKind,
    ManifestAsset, StaticAssetKind,
};

fn s(x: &str) -> String {
    x.to_string()
}

fn binary(id: &str, name: &str, kind: BinaryKind, symbols: Option<&str>) -> BinaryFacts {
    BinaryFacts {
        id: s(id),
        name: s(name),
        kind,
        symbols_artifact: symbols.map(s),
    }
}

fn artifact(kind: ArtifactKindFacts) -> ArtifactFacts {
    ArtifactFacts {
        id: s("app-x86_64-unknown-linux-gnu.tar.xz"),
        file_path: s("target/distrib/app-x86_64-unknown-linux-gnu.tar.xz"),
        target_triples: vec![s("x86_64-unknown-linux-gnu")],
        kind,
        required_binaries: vec![],
        static_assets: vec![],
        checksum: None,
    }
}

fn names(assets: &[ManifestAsset]) -> Vec<Option<String>> {
    assets.iter().map(|a| a.name.clone()).collect()
}

#[test]
fn archive_assets_are_ordered_by_name() {
    let binaries = vec![
        binary("app-bin", "zeta", BinaryKind::Executable, Some("app-syms")),
        binary("lib-bin", "libfoo", BinaryKind::DynamicLibrary, None),
        binary("st-bin", "libbar", BinaryKind::StaticLibrary, None),
    ];
    let mut a = artifact(ArtifactKindFacts::ExecutableZip);
    a.required_binaries = vec![(0, s("zeta")), (1, s("libfoo.so")), (2, s("libbar.a"))];
    a.static_assets = vec![
        (StaticAssetKind::Readme, s("README.md")),
        (StaticAssetKind::License, s("LICENSE")),
        (StaticAssetKind::Changelog, s("CHANGELOG.md")),
        (StaticAssetKind::Other, s("extra.txt")),
    ];
    a.checksum = Some(s("app.sha256"));
    let m = manifest_artifact(&a, &binaries, &vec![(s("package.json"), s("package.json"))], false);
    assert_eq!(
        names(&m.assets),
        vec![
            Some(s("CHANGELOG.md")),
            Some(s("LICENSE")),
            Some(s("README.md")),
            Some(s("extra.txt")),
            Some(s("libbar")),
            Some(s("libfoo")),
            Some(s("zeta")),
        ]
    );
    // the npm template files only go into npm packages
    assert_eq!(m.assets.len(), 7);
    let zeta = &m.assets[6];
    assert_eq!(zeta.id, Some(s("app-bin")));
    assert_eq!(zeta.path, Some(s("zeta")));
    assert!(matches!(&zeta.kind, AssetKind::Executable { symbols_artifact: Some(x) } if x == "app-syms"));
    assert!(matches!(&m.assets[5].kind, AssetKind::CDynamicLibrary { symbols_artifact: None }));
    assert_eq!(m.assets[5].path, Some(s("libfoo.so")));
    assert!(matches!(&m.assets[4].kind, AssetKind::CStaticLibrary { symbols_artifact: None }));
    assert!(matches!(&m.assets[0].kind, AssetKind::Changelog));
    assert!(matches!(&m.assets[1].kind, AssetKind::License));
    assert!(matches!(&m.assets[2].kind, AssetKind::Readme));
    assert!(matches!(&m.assets[3].kind, AssetKind::Unknown));
    assert_eq!(m.assets[0].id, None);
    assert_eq!(m.assets[0].path, Some(s("CHANGELOG.md")));
    assert_eq!(m.name, Some(s("app-x86_64-unknown-linux-gnu.tar.xz")));
    assert_eq!(m.path, Some(s("target/distrib/app-x86_64-unknown-linux-gnu.tar.xz")));
    assert_eq!(m.target_triples, vec![s("x86_64-unknown-linux-gnu")]);
    assert_eq!(m.kind, ManifestArtifactKind::ExecutableZip);
    assert_eq!(m.install_hint, None);
    assert_eq!(m.description, None);
    assert_eq!(m.checksum, Some(s("app.sha256")));
}

#[test]
fn no_local_paths_leaves_the_path_out() {
    let a = artifact(ArtifactKindFacts::Symbols);
    let m = manifest_artifact(&a, &vec![], &vec![], true);
    assert_eq!(m.path, None);
    assert_eq!(m.name, Some(s("app-x86_64-unknown-linux-gnu.tar.xz")));
    assert_eq!(m.kind, ManifestArtifactKind::Symbols);
}

#[test]
fn script_installers_give_hint_and_description() {
    let a = artifact(ArtifactKindFacts::Installer(InstallerFacts::Shell {
        hint: s("curl -sSf https://example.com/app-installer.sh | sh"),
        desc: s("Install prebuilt binaries via shell script"),
    }));
    let m = manifest_artifact(&a, &vec![], &vec![], false);
    assert_eq!(m.kind, ManifestArtifactKind::Installer);
    assert_eq!(m.install_hint, Some(s("curl -sSf https://example.com/app-installer.sh | sh")));
    assert_eq!(m.description, Some(s("Install prebuilt binaries via shell script")));
}

#[test]
fn msi_and_pkg_installers_say_what_they_are() {
    let msi = manifest_artifact(&artifact(ArtifactKindFacts::Installer(InstallerFacts::Msi)), &vec![], &vec![], false);
    assert_eq!(msi.install_hint, None);
    assert_eq!(msi.description, Some(s("install via msi")));
    assert_eq!(msi.kind, ManifestArtifactKind::Installer);
    let pkg = manifest_artifact(&artifact(ArtifactKindFacts::Installer(InstallerFacts::Pkg)), &vec![], &vec![], false);
    assert_eq!(pkg.description, Some(s("install via pkg")));
}

#[test]
fn npm_packages_list_the_template_files() {
    let mut a = artifact(ArtifactKindFacts::Installer(InstallerFacts::Npm {
        hint: s("npm install @org/app"),
        desc: s("Install prebuilt binaries into your npm project"),
    }));
    a.static_assets = vec![(StaticAssetKind::Readme, s("README.md"))];
    let files = vec![(s("run.js"), s("run.js")), (s("binary.js"), s("binary.js"))];
    let m = manifest_artifact(&a, &vec![], &files, false);
    assert_eq!(
        names(&m.assets),
        vec![Some(s("README.md")), Some(s("binary.js")), Some(s("run.js"))]
    );
    assert!(matches!(&m.assets[1].kind, AssetKind::Unknown));
    assert_eq!(m.install_hint, Some(s("npm install @org/app")));
}

#[test]
fn other_kinds_have_no_hint() {
    for (kind, listed) in [
        (ArtifactKindFacts::Checksum, ManifestArtifactKind::Checksum),
        (ArtifactKindFacts::SourceTarball, ManifestArtifactKind::SourceTarball),
        (ArtifactKindFacts::ExtraArtifact, ManifestArtifactKind::ExtraArtifact),
        (ArtifactKindFacts::Updater, ManifestArtifactKind::Updater),
    ] {
        let m = manifest_artifact(&artifact(kind), &vec![], &vec![], false);
        assert_eq!(m.kind, listed);
        assert_eq!(m.install_hint, None);
        assert_eq!(m.description, None);
    }
}

#[test]
fn assets_of_one_name_keep_their_order() {
    let asset = |name: Option<&str>, path: &str| ManifestAsset {
        id: None,
        name: name.map(s),
        path: Some(s(path)),
        kind: AssetKind::Unknown,
    };
    let sorted = sort_assets_by_name(&vec![
        asset(Some("b"), "1"),
        asset(Some("a"), "2"),
        asset(Some("b"), "3"),
        asset(None, "4"),
        asset(Some("a"), "5"),
    ]);
    let paths: Vec<Option<String>> = sorted.iter().map(|a| a.path.clone()).collect();
    assert_eq!(
        paths,
        vec![Some(s("4")), Some(s("2")), Some(s("5")), Some(s("1")), Some(s("3"))]
    );
}

#[test]
fn release_lists_each_artifact_once() {
    let mut artifacts = vec![s("a.tar.xz")];
    add_release_artifact(&mut artifacts, &s("b.zip"));
    add_release_artifact(&mut artifacts, &s("a.tar.xz"));
    add_release_artifact(&mut artifacts, &s("b.zip"));
    assert_eq!(artifacts, vec![s("a.tar.xz"), s("b.zip")]);
}

fn write_plan(plan: InitPlan) -> (WorkspaceKind, bool, String, bool, String) {
    match plan {
        InitPlan::Write {
            desired_kind,
            fresh_workspace,
            file_name,
            in_workspace_dir,
            metadata_key,
        } => (desired_kind, fresh_workspace, file_name, in_workspace_dir, metadata_key),
        InitPlan::MigrateAndRestart => panic!("expected the config to be written"),
    }
}

#[test]
fn new_cargo_workspaces_get_a_dist_workspace_toml() {
    let plan = write_plan(init_plan(WorkspaceKind::Rust, false, "Cargo.toml", false, true));
    assert_eq!(
        plan,
        (WorkspaceKind::Generic, true, s("dist-workspace.toml"), true, s("[dist]"))
    );
}

#[test]
fn set_up_cargo_workspaces_are_asked_to_migrate() {
    assert!(asks_to_migrate(WorkspaceKind::Rust, true, false));
    assert!(!asks_to_migrate(WorkspaceKind::Rust, true, true));
    assert!(!asks_to_migrate(WorkspaceKind::Rust, false, false));
    assert!(!asks_to_migrate(WorkspaceKind::Generic, true, false));
    assert!(matches!(
        init_plan(WorkspaceKind::Rust, true, "Cargo.toml", false, true),
        InitPlan::MigrateAndRestart
    ));
    let kept = write_plan(init_plan(WorkspaceKind::Rust, true, "Cargo.toml", false, false));
    assert_eq!(
        kept,
        (WorkspaceKind::Rust, false, s("Cargo.toml"), false, s("[workspace.metadata.dist]"))
    );
    // with --yes the question is not asked, and the answer is not heeded
    let yes = write_plan(init_plan(WorkspaceKind::Rust, true, "Cargo.toml", true, true));
    assert_eq!(yes.0, WorkspaceKind::Rust);
}

#[test]
fn set_up_dist_toml_migrates_first() {
    assert!(matches!(
        init_plan(WorkspaceKind::Generic, true, "dist.toml", true, false),
        InitPlan::MigrateAndRestart
    ));
    let fresh = write_plan(init_plan(WorkspaceKind::Generic, false, "dist.toml", false, false));
    assert_eq!(fresh, (WorkspaceKind::Generic, false, s("dist.toml"), false, s("[dist]")));
    let ws = write_plan(init_plan(WorkspaceKind::Generic, true, "dist-workspace.toml", false, true));
    assert_eq!(
        ws,
        (WorkspaceKind::Generic, false, s("dist-workspace.toml"), false, s("[dist]"))
    );
}

#[test]
fn workspace_layer_sets_msvc_crt_static() {
    let mut cfg = WorkspaceCargoBuildConfig {
        msvc_crt_static: true,
        rust_toolchain_version: None,
        precise_builds: None,
        cargo_auditable: false,
        cargo_cyclonedx: false,
    };
    cfg.apply_layer(CargoBuildLayer {
        common: CommonBuildLayer {},
        rust_toolchain_version: None,
        msvc_crt_static: Some(false),
        precise_builds: None,
        features: None,
        default_features: None,
        all_features: None,
        cargo_auditable: None,
        cargo_cyclonedx: None,
    });
    assert!(!cfg.msvc_crt_static);
    assert_eq!(cfg.precise_builds, None);
    assert!(!cfg.cargo_auditable);
}

#[test]
fn merged_assets_take_ids_by_path() {
    let asset = |id: Option<&str>, path: &str| ManifestAsset {
        id: id.map(s),
        name: Some(s(path)),
        path: Some(s(path)),
        kind: AssetKind::Unknown,
    };
    let mut assets = vec![asset(None, "app"), asset(Some("old"), "README.md")];
    merge_assets(
        &mut assets,
        &vec![
            asset(Some("app-bin"), "app"),
            asset(None, "README.md"),
            asset(Some("new-bin"), "new"),
        ],
    );
    let ids: Vec<Option<String>> = assets.iter().map(|a| a.id.clone()).collect();
    let paths: Vec<Option<String>> = assets.iter().map(|a| a.path.clone()).collect();
    assert_eq!(ids, vec![Some(s("app-bin")), Some(s("old")), Some(s("new-bin"))]);
    assert_eq!(paths, vec![Some(s("app")), Some(s("README.md")), Some(s("new"))]);
}

#[test]
fn merging_own_assets_changes_nothing() {
    let asset = |id: Option<&str>, path: &str| ManifestAsset {
        id: id.map(s),
        name: Some(s(path)),
        path: Some(s(path)),
        kind: AssetKind::Unknown,
    };
    let own = || vec![asset(Some("app-bin"), "app"), asset(None, "README.md")];
    let mut assets = own();
    merge_assets(&mut assets, &own());
    let ids: Vec<Option<String>> = assets.iter().map(|a| a.id.clone()).collect();
    let paths: Vec<Option<String>> = assets.iter().map(|a| a.path.clone()).collect();
    assert_eq!(ids, vec![Some(s("app-bin")), None]);
    assert_eq!(paths, vec![Some(s("app")), Some(s("README.md"))]);
}
