use cargo_dist::config::v1::ci::CiLayer;
use cargo_dist::config::v1::installers::homebrew::HomebrewInstallerLayer;
use cargo_dist::config::v1::installers::InstallerLayer;
use cargo_dist::config::v1::layer::BoolOr;
use cargo_dist::config::v1::TomlLayer;
use cargo_dist::config::{ConfigVersion, InstallerStyle};
use cargo_dist::errors::DistError;
use cargo_dist::init::interactive::{
    ci_prompt, default_selection, dist_version_prompt, has_ci, installer_options,
    apply_homebrew_tap, apply_npm_scope, apply_updater, platform_options, sort_platform_options,
    update_ci_backends, update_dist_version, update_installers, updater_default,
    validate_npm_scope,
    update_platforms,
};
use semver::Version;

fn s(x: &str) -> String {
    x.to_string()
}

fn empty_layer() -> TomlLayer {
    TomlLayer {
        config_version: ConfigVersion::V1,
        dist_version: None,
        dist_url_override: None,
        dist: None,
        allow_dirty: None,
        targets: None,
        artifacts: None,
        builds: None,
        ci: None,
        hosts: None,
        installers: None,
        publishers: None,
    }
}

fn v(text: &str) -> Version {
    Version::parse(text).unwrap()
}

#[test]
fn missing_dist_version_is_set_without_asking() {
    let mut meta = empty_layer();
    assert!(!dist_version_prompt(&meta, &v("0.28.0")));
    assert!(update_dist_version(&mut meta, &v("0.28.0"), false).is_ok());
    assert_eq!(meta.dist_version, Some(v("0.28.0")));
}

#[test]
fn other_dist_version_is_updated_when_confirmed() {
    let mut meta = empty_layer();
    meta.dist_version = Some(v("0.27.0"));
    assert!(dist_version_prompt(&meta, &v("0.28.0")));
    assert!(update_dist_version(&mut meta, &v("0.28.0"), true).is_ok());
    assert_eq!(meta.dist_version, Some(v("0.28.0")));
}

#[test]
fn declined_dist_version_update_is_an_error() {
    let mut meta = empty_layer();
    meta.dist_version = Some(v("0.27.0"));
    match update_dist_version(&mut meta, &v("0.28.0"), false) {
        Err(DistError::NoUpdateVersion {
            project_version,
            running_version,
        }) => {
            assert_eq!(project_version, v("0.27.0"));
            assert_eq!(running_version, v("0.28.0"));
        }
        other => panic!("unexpected result {other:?}"),
    }
    assert_eq!(meta.dist_version, Some(v("0.27.0")));
}

#[test]
fn github_testing_versions_and_same_versions_are_kept() {
    let mut meta = empty_layer();
    meta.dist_version = Some(v("0.27.0-github-my-branch"));
    assert!(!dist_version_prompt(&meta, &v("0.28.0")));
    assert!(update_dist_version(&mut meta, &v("0.28.0"), false).is_ok());
    assert_eq!(meta.dist_version, Some(v("0.27.0-github-my-branch")));

    meta.dist_version = Some(v("0.28.0"));
    assert!(!dist_version_prompt(&meta, &v("0.28.0")));
}

#[test]
fn github_ci_is_offered_only_without_ci() {
    let mut meta = empty_layer();
    assert!(ci_prompt(&meta));
    update_ci_backends(&mut meta, true);
    assert!(matches!(
        meta.ci,
        Some(CiLayer {
            github: Some(BoolOr::Bool(true)),
            ..
        })
    ));
    assert!(!ci_prompt(&meta));
    assert!(has_ci(&meta));

    let mut declined = empty_layer();
    update_ci_backends(&mut declined, false);
    assert!(declined.ci.is_none());
    assert!(!has_ci(&declined));
}

#[test]
fn without_ci_only_msi_is_offered() {
    let meta = empty_layer();
    let (known, defaults) = installer_options(&meta, &vec![InstallerStyle::Msi]);
    assert_eq!(known, vec![InstallerStyle::Msi]);
    assert_eq!(defaults, vec![true]);
}

#[test]
fn installer_defaults_come_from_config_and_command_line() {
    let mut meta = empty_layer();
    update_ci_backends(&mut meta, true);
    let mut installers = InstallerLayer::default();
    installers.homebrew = Some(BoolOr::Val(HomebrewInstallerLayer::default()));
    installers.npm = Some(BoolOr::Bool(false));
    meta.installers = Some(installers);

    let (known, defaults) = installer_options(&meta, &vec![InstallerStyle::Shell]);
    assert_eq!(
        known,
        vec![
            InstallerStyle::Shell,
            InstallerStyle::Powershell,
            InstallerStyle::Npm,
            InstallerStyle::Homebrew,
            InstallerStyle::Msi,
        ]
    );
    assert_eq!(defaults, vec![true, false, false, true, false]);

    let selected = default_selection(&defaults);
    assert_eq!(selected, vec![0, 3]);
    update_installers(&mut meta, &known, &selected);
    let installers = meta.installers.unwrap();
    assert!(matches!(installers.shell, Some(BoolOr::Bool(true))));
    assert!(matches!(installers.homebrew, Some(BoolOr::Bool(true))));
    assert!(installers.npm.is_none());
    assert!(installers.powershell.is_none());
    assert!(installers.msi.is_none());
    assert!(installers.pkg.is_none());
}

#[test]
fn empty_installer_selection_keeps_config() {
    let mut meta = empty_layer();
    let mut installers = InstallerLayer::default();
    installers.msi = Some(BoolOr::Bool(true));
    meta.installers = Some(installers);
    update_installers(&mut meta, &[InstallerStyle::Msi], &vec![]);
    assert!(matches!(
        meta.installers,
        Some(InstallerLayer {
            msi: Some(BoolOr::Bool(true)),
            ..
        })
    ));
}

#[test]
fn offered_platforms_add_custom_targets_once() {
    let mut meta = empty_layer();
    meta.targets = Some(vec![s("x86_64-unknown-linux-gnu"), s("riscv64gc-unknown-linux-gnu")]);
    let cli = vec![s("riscv64gc-unknown-linux-gnu"), s("aarch64-unknown-linux-musl")];
    let (known, defaults) = platform_options(&meta, &cli);
    assert_eq!(
        known,
        vec![
            s("x86_64-unknown-linux-gnu"),
            s("x86_64-unknown-linux-musl"),
            s("x86_64-pc-windows-msvc"),
            s("x86_64-apple-darwin"),
            s("aarch64-apple-darwin"),
            s("aarch64-unknown-linux-gnu"),
            s("aarch64-pc-windows-msvc"),
            s("riscv64gc-unknown-linux-gnu"),
            s("aarch64-unknown-linux-musl"),
        ]
    );
    assert_eq!(
        defaults,
        vec![true, false, false, false, false, false, false, true, true]
    );

    let selected = default_selection(&defaults);
    update_platforms(&mut meta, &known, &selected);
    assert_eq!(
        meta.targets,
        Some(vec![
            s("x86_64-unknown-linux-gnu"),
            s("riscv64gc-unknown-linux-gnu"),
            s("aarch64-unknown-linux-musl"),
        ])
    );
}

#[test]
fn platforms_default_to_the_desktop_targets() {
    let meta = empty_layer();
    let (known, defaults) = platform_options(&meta, &vec![]);
    assert_eq!(known.len(), 7);
    assert_eq!(defaults, vec![true, false, true, true, true, true, false]);
}

#[test]
fn offered_platforms_are_listed_by_label() {
    let meta = empty_layer();
    let (known, defaults) = platform_options(&meta, &vec![s("riscv64gc-unknown-linux-gnu")]);
    let labels: Vec<String> = known
        .iter()
        .map(|t| {
            let pretty = match t.as_str() {
                "x86_64-unknown-linux-gnu" => "x64 Linux",
                "x86_64-unknown-linux-musl" => "x64 MUSL Linux",
                "x86_64-pc-windows-msvc" => "x64 Windows",
                "x86_64-apple-darwin" => "Intel macOS",
                "aarch64-apple-darwin" => "Apple Silicon macOS",
                "aarch64-unknown-linux-gnu" => "ARM64 Linux",
                "aarch64-pc-windows-msvc" => "ARM64 Windows",
                _ => "[unknown]",
            };
            format!("{pretty} ({t})").to_uppercase()
        })
        .collect();
    let (sorted, picked) = sort_platform_options(&known, &defaults, &labels);
    assert_eq!(
        sorted,
        vec![
            s("aarch64-apple-darwin"),
            s("aarch64-unknown-linux-gnu"),
            s("aarch64-pc-windows-msvc"),
            s("x86_64-apple-darwin"),
            s("x86_64-unknown-linux-gnu"),
            s("x86_64-unknown-linux-musl"),
            s("x86_64-pc-windows-msvc"),
            s("riscv64gc-unknown-linux-gnu"),
        ]
    );
    assert_eq!(picked, vec![true, true, false, true, true, false, true, true]);
}

#[test]
fn npm_scopes_are_checked() {
    assert!(validate_npm_scope("").is_ok());
    assert!(validate_npm_scope("   ").is_ok());
    assert!(validate_npm_scope(" @axodotdev ").is_ok());
    let upper = validate_npm_scope("@AxoDotDev").unwrap_err();
    assert!(matches!(upper, DistError::NpmScopeNotLowercase));
    assert_eq!(upper.to_string(), "npm scopes must be lowercase");
    let bare = validate_npm_scope("@").unwrap_err();
    assert!(matches!(bare, DistError::NpmScopeEmptyName));
    assert_eq!(bare.to_string(), "@ must be followed by something");
    let no_at = validate_npm_scope("axodotdev").unwrap_err();
    assert!(matches!(no_at, DistError::NpmScopeMissingAt));
    assert_eq!(no_at.to_string(), "npm scopes must start with @");
    // non-ASCII letters are left as they are by the lowercase check
    assert!(validate_npm_scope("@\u{c9}t\u{e9}").is_ok());
}

fn installers_with(homebrew: Option<BoolOr<HomebrewInstallerLayer>>) -> InstallerLayer {
    InstallerLayer {
        common: cargo_dist::config::v1::installers::CommonInstallerLayer::default(),
        homebrew,
        msi: None,
        npm: None,
        powershell: None,
        shell: None,
        pkg: None,
        updater: None,
        always_use_latest_updater: None,
    }
}

#[test]
fn homebrew_tap_is_set_or_homebrew_turned_off() {
    let mut meta = empty_layer();
    meta.installers = Some(installers_with(Some(BoolOr::Bool(true))));
    apply_homebrew_tap(&mut meta, "  axodotdev/homebrew-tap \n");
    let homebrew = meta.installers.as_ref().unwrap().homebrew.as_ref().unwrap();
    match homebrew {
        BoolOr::Val(h) => {
            assert_eq!(h.tap.as_deref(), Some("axodotdev/homebrew-tap"));
            assert_eq!(h.formula, None);
        }
        BoolOr::Bool(_) => panic!("expected homebrew settings"),
    }

    let mut off = empty_layer();
    off.installers = Some(installers_with(Some(BoolOr::Bool(true))));
    apply_homebrew_tap(&mut off, "   ");
    assert!(off.installers.as_ref().unwrap().homebrew.is_none());
}

#[test]
fn npm_scope_is_set_on_the_npm_installer() {
    let mut meta = empty_layer();
    apply_npm_scope(&mut meta, " @axodotdev ");
    match meta.installers.as_ref().unwrap().npm.as_ref().unwrap() {
        BoolOr::Val(n) => assert_eq!(n.scope.as_deref(), Some("@axodotdev")),
        BoolOr::Bool(_) => panic!("expected npm settings"),
    }
    let mut global = empty_layer();
    apply_npm_scope(&mut global, "");
    match global.installers.as_ref().unwrap().npm.as_ref().unwrap() {
        BoolOr::Val(n) => assert_eq!(n.scope, None),
        BoolOr::Bool(_) => panic!("expected npm settings"),
    }
}

#[test]
fn updater_is_offered_with_script_installers() {
    let mut meta = empty_layer();
    assert_eq!(updater_default(&meta), None);
    meta.installers = Some(installers_with(None));
    assert_eq!(updater_default(&meta), None);
    apply_updater(&mut meta, true);
    assert_eq!(meta.installers.as_ref().unwrap().updater, None);

    let mut installers = installers_with(None);
    installers.shell = Some(BoolOr::Bool(true));
    meta.installers = Some(installers);
    assert_eq!(updater_default(&meta), Some(false));
    apply_updater(&mut meta, true);
    assert_eq!(meta.installers.as_ref().unwrap().updater, Some(true));
    assert_eq!(updater_default(&meta), Some(true));
}
